use real_trans::errors::TranslatorError;
use real_trans::pipeline::TranslationPipeline;

#[test]
fn test_translation_pipeline_creation() {
    let pipeline = TranslationPipeline::new(
        "./models/whisper-tiny.bin".to_string(),
        "./models/qwen2.5-0.5b.bin".to_string(),
    );
    assert!(!pipeline.is_running());
}

#[test]
fn test_pipeline_start_requires_initialized_collaborators() {
    let mut pipeline = TranslationPipeline::new(
        "./models/whisper-tiny.bin".to_string(),
        "./models/qwen2.5-0.5b.bin".to_string(),
    );
    assert_eq!(pipeline.start(), Err(TranslatorError::CollaboratorNotReady));
    assert!(!pipeline.is_running());

    pipeline.initialize().unwrap();
    pipeline.start().unwrap();
    assert!(pipeline.is_running());
}

#[test]
fn test_pipeline_initialize_rejects_empty_model_path() {
    let mut pipeline =
        TranslationPipeline::new(String::new(), "./models/qwen2.5-0.5b.bin".to_string());
    assert_eq!(pipeline.initialize(), Err(TranslatorError::Configuration));
}

#[test]
fn test_pipeline_is_noop_unless_running() {
    let mut pipeline = TranslationPipeline::new(
        "./models/whisper-tiny.bin".to_string(),
        "./models/qwen2.5-0.5b.bin".to_string(),
    );
    pipeline.initialize().unwrap();
    let (processed, results) = pipeline.process_audio(&[1i16; 320]);
    assert!(!processed);
    assert!(results.is_empty());
    let (processed_frame, frame_result) = pipeline.process_frame(&[1i16; 320]);
    assert!(!processed_frame);
    assert!(frame_result.is_none());
}

#[test]
fn test_pipeline_emits_final_result_for_audio() {
    let mut pipeline = TranslationPipeline::new(
        "./models/whisper-tiny.bin".to_string(),
        "./models/qwen2.5-0.5b.bin".to_string(),
    );
    pipeline.initialize().unwrap();
    pipeline.start().unwrap();
    pipeline.set_source_language("zh");
    pipeline.set_target_language("en");

    let (processed, results) = pipeline.process_audio(&[1i16; 320]);
    assert!(processed);
    assert_eq!(results.len(), 1);
    let result = &results[0];
    assert!(result.is_final);
    assert!(!result.is_partial);
    assert_eq!(result.original_text, "simulated recognition result");
    assert_eq!(result.translated_text, "simulated translation: simulated recognition result");
    assert_eq!(result.asr_confidence, 900);
    assert_eq!(result.mt_confidence, 850);
}

#[test]
fn test_pipeline_emits_partial_result_for_frame() {
    let mut pipeline = TranslationPipeline::new(
        "./models/whisper-tiny.bin".to_string(),
        "./models/qwen2.5-0.5b.bin".to_string(),
    );
    pipeline.initialize().unwrap();
    pipeline.start().unwrap();

    let (processed, result) = pipeline.process_frame(&[1i16; 320]);
    assert!(processed);
    let result = result.unwrap();
    assert!(result.is_partial);
    assert!(!result.is_final);
    assert_eq!(result.original_text, "simulated frame recognition result");
    assert_eq!(result.translated_text, "");
    assert_eq!(result.mt_confidence, 0);
}

#[test]
fn test_pipeline_stop_is_idempotent() {
    let mut pipeline = TranslationPipeline::new(
        "./models/whisper-tiny.bin".to_string(),
        "./models/qwen2.5-0.5b.bin".to_string(),
    );
    pipeline.initialize().unwrap();
    pipeline.start().unwrap();
    pipeline.stop().unwrap();
    pipeline.stop().unwrap();
    assert!(!pipeline.is_running());
    // Restarting after a stop works: the collaborators stay initialized.
    pipeline.start().unwrap();
    assert!(pipeline.is_running());
}
