use real_trans::translator::{BidirectionalTranslator, TranslationDirection};

#[test]
fn test_bidirectional_translator_creation() {
    let translator = BidirectionalTranslator::new("zh", "en");
    assert!(translator.is_ok());
}

#[test]
fn test_language_pair_update() {
    let mut translator = BidirectionalTranslator::new("zh", "en").unwrap();

    let initial_pair = translator.get_current_language_pair();
    assert_eq!(initial_pair.source, "zh");
    assert_eq!(initial_pair.target, "en");

    translator.update_language_pair("en", "fr").unwrap();

    let updated_pair = translator.get_current_language_pair();
    assert_eq!(updated_pair.source, "en");
    assert_eq!(updated_pair.target, "fr");
}

#[test]
fn test_update_language_pair_keeps_pipelines_mirrored() {
    let mut translator = BidirectionalTranslator::new("zh", "en").unwrap();
    translator.update_language_pair("en", "fr").unwrap();
    assert_eq!(translator.user_to_other_pipeline.source_language, "en");
    assert_eq!(translator.user_to_other_pipeline.target_language, "fr");
    assert_eq!(translator.other_to_user_pipeline.source_language, "fr");
    assert_eq!(translator.other_to_user_pipeline.target_language, "en");
}

#[test]
fn test_outbound_chunk_reaches_callback_with_direction_tag() {
    // Construct for (zh, en), start, submit a 100-sample chunk outbound: the
    // emitted result is tagged UserToOther with non-empty translated text.
    let mut translator = BidirectionalTranslator::new("zh", "en").unwrap();
    translator.start().unwrap();
    assert!(translator.is_running());

    let chunk = vec![100i16; 100];
    let results = translator.handle_outbound_audio(&chunk);
    assert_eq!(results.len(), 1);
    assert_eq!(results[0].direction, TranslationDirection::UserToOther);
    assert!(!results[0].translated_text.is_empty());
    // The result is the routed pipeline's output, not a canned value.
    assert_eq!(results[0].original_text, "simulated recognition result");
    assert_eq!(results[0].translated_text, "simulated translation: simulated recognition result");
    let history = translator.user_to_other_pipeline.mt.get_context_history(10);
    assert_eq!(history.len(), 1);
    assert_eq!(history[0].source_text, "simulated recognition result");
    assert!(translator.other_to_user_pipeline.mt.get_context_history(10).is_empty());
}

#[test]
fn test_inbound_chunk_reaches_callback_with_direction_tag() {
    let mut translator = BidirectionalTranslator::new("zh", "en").unwrap();
    translator.start().unwrap();

    let chunk: Vec<i16> = vec![500, 400, 300, 200, 100];
    let results = translator.handle_inbound_audio(&chunk);
    assert_eq!(results.len(), 1);
    assert_eq!(results[0].direction, TranslationDirection::OtherToUser);
}

#[test]
fn test_direction_explicit_routing_ignores_shared_indicator() {
    let mut translator = BidirectionalTranslator::new("zh", "en").unwrap();
    translator.start().unwrap();

    // Point the shared indicator the "wrong" way before each call.
    translator.switch_direction();
    let outbound = translator.handle_outbound_audio(&[100i16; 64]);
    assert!(outbound.iter().all(|r| r.direction == TranslationDirection::UserToOther));

    translator.switch_to_user_mode();
    let inbound = translator.handle_inbound_audio(&[100i16; 64]);
    assert!(inbound.iter().all(|r| r.direction == TranslationDirection::OtherToUser));
}

#[test]
fn test_legacy_path_routes_by_explicit_flag() {
    let mut translator = BidirectionalTranslator::new("zh", "en").unwrap();
    translator.start().unwrap();
    let as_user = translator.handle_incoming_audio(&[100i16; 32], true);
    assert!(as_user.iter().all(|r| r.direction == TranslationDirection::UserToOther));
    let as_other = translator.handle_incoming_audio(&[100i16; 32], false);
    assert!(as_other.iter().all(|r| r.direction == TranslationDirection::OtherToUser));
}

#[test]
fn test_translator_not_running_drops_legacy_audio() {
    let mut translator = BidirectionalTranslator::new("zh", "en").unwrap();
    let results = translator.handle_incoming_audio(&[100i16; 32], true);
    assert!(results.is_empty());
}

#[test]
fn test_start_stop_idempotent() {
    let mut translator = BidirectionalTranslator::new("zh", "en").unwrap();
    translator.start().unwrap();
    translator.start().unwrap();
    assert!(translator.is_running());
    translator.stop().unwrap();
    translator.stop().unwrap();
    assert!(!translator.is_running());
}

#[test]
fn test_stats_snapshot_reads_zero() {
    let translator = BidirectionalTranslator::new("zh", "en").unwrap();
    let stats = translator.get_stats();
    assert_eq!(stats.total_processed, 0);
    assert_eq!(stats.successful_translations, 0);
    assert_eq!(stats.error_count, 0);
    assert_eq!(stats.avg_latency_ms, 0);
}

#[test]
fn test_simulated_speech_counts_samples() {
    let mut translator = BidirectionalTranslator::new("zh", "en").unwrap();
    translator.start().unwrap();
    translator.simulate_user_speaking(&[1i16; 320]);
    translator.simulate_other_speaking(&[1i16; 160]);
    assert_eq!(translator.audio_capture.get_total_samples(), 480);
}
