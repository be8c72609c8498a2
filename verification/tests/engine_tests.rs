use real_trans::asr::Asr;
use real_trans::errors::TranslatorError;
use real_trans::mt::Mt;
use real_trans::tts::Tts;

#[test]
fn test_asr_creation() {
    let asr = Asr::new("./models/whisper-tiny.bin".to_string(), "whisper-tiny".to_string());
    assert_eq!(asr.model_type, "whisper-tiny");
}

#[test]
fn test_asr_uninitialized_returns_no_results() {
    let mut asr = Asr::new("./models/whisper-tiny.bin".to_string(), "whisper-tiny".to_string());
    assert!(asr.process_audio(&[1, 2, 3]).is_empty());
    let frame_result = asr.process_frame(&[1, 2, 3]);
    assert_eq!(frame_result.text, "");
    assert_eq!(frame_result.confidence, 0);
}

#[test]
fn test_asr_initialize_empty_path_is_configuration_error() {
    let mut asr = Asr::new(String::new(), "whisper-tiny".to_string());
    assert_eq!(asr.initialize(), Err(TranslatorError::Configuration));
    assert!(!asr.is_initialized());
}

#[test]
fn test_asr_processes_after_initialize() {
    let mut asr = Asr::new("./models/whisper-tiny.bin".to_string(), "whisper-tiny".to_string());
    asr.initialize().unwrap();
    assert!(asr.is_initialized());
    assert!(asr.is_model_loaded());
    let results = asr.process_audio(&[0i16; 320]);
    assert_eq!(results.len(), 1);
    assert_eq!(results[0].text, "simulated recognition result");
    assert_eq!(results[0].confidence, 900);
    assert!(results[0].is_final);
    assert!(!results[0].is_partial);
    let frame_result = asr.process_frame(&[0i16; 320]);
    assert_eq!(frame_result.text, "simulated frame recognition result");
    assert_eq!(frame_result.confidence, 850);
    assert!(frame_result.is_partial);
}

#[test]
fn test_mt_creation() {
    let mt = Mt::new("./models/qwen2.5-0.5b.bin".to_string(), "qwen2.5-0.5b".to_string());
    assert_eq!(mt.model_type, "qwen2.5-0.5b");
}

#[test]
fn test_mt_translate() {
    let mut mt = Mt::new("./models/test.bin".to_string(), "test".to_string());
    mt.initialize().unwrap();

    let result = mt.translate("Hello", Some("en"), Some("zh"));
    assert!(result.is_success);
    assert_eq!(result.source_language, "en");
    assert_eq!(result.target_language, "zh");
}

#[test]
fn test_mt_translate_exact_output_and_defaults() {
    let mut mt = Mt::new("./models/test.bin".to_string(), "test".to_string());
    let result = mt.translate("Hello", None, None);
    assert_eq!(result.translated_text, "simulated translation: Hello");
    assert_eq!(result.source_language, "auto");
    assert_eq!(result.target_language, "en");
    assert_eq!(result.confidence, 850);
}

#[test]
fn test_mt_initialize_empty_path_is_configuration_error() {
    let mut mt = Mt::new(String::new(), "test".to_string());
    assert_eq!(mt.initialize(), Err(TranslatorError::Configuration));
}

#[test]
fn test_mt_context_is_bounded_and_rolling() {
    let mut mt = Mt::new("./models/test.bin".to_string(), "test".to_string());
    for text in ["a", "b", "c", "d", "e"] {
        mt.translate(text, Some("en"), Some("fr"));
    }
    let history = mt.get_context_history(10);
    assert_eq!(history.len(), 3);
    assert_eq!(history[0].source_text, "c");
    assert_eq!(history[1].source_text, "d");
    assert_eq!(history[2].source_text, "e");
    let last = mt.get_context_history(1);
    assert_eq!(last.len(), 1);
    assert_eq!(last[0].source_text, "e");
    mt.clear_context();
    assert!(mt.get_context_history(10).is_empty());
}

#[test]
fn test_mt_batch_translate() {
    let mut mt = Mt::new("./models/test.bin".to_string(), "test".to_string());
    let texts = vec!["one".to_string(), "two".to_string()];
    let results = mt.batch_translate(&texts, Some("en"), Some("de"));
    assert_eq!(results.len(), 2);
    assert_eq!(results[0].translated_text, "simulated translation: one");
    assert_eq!(results[1].translated_text, "simulated translation: two");
}

#[test]
fn test_tts_creation() {
    let tts = Tts::new("./models/chattts.bin".to_string(), "chattts".to_string());
    assert_eq!(tts.model_type, "chattts");
}

#[test]
fn test_tts_generate_speech() {
    let mut tts = Tts::new("./models/chattts.bin".to_string(), "chattts".to_string());
    let early = tts.generate_speech("hi");
    assert!(!early.success);
    assert!(early.audio_data.is_empty());

    tts.initialize().unwrap();
    let spoken = tts.generate_speech("hi");
    assert!(spoken.success);
    assert_eq!(spoken.audio_data.len(), 1600);
    assert_eq!(spoken.text, "hi");
}

#[test]
fn test_tts_initialize_empty_path_is_configuration_error() {
    let mut tts = Tts::new(String::new(), "chattts".to_string());
    assert_eq!(tts.initialize(), Err(TranslatorError::Configuration));
}
