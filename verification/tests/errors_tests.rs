use real_trans::errors::TranslatorError;

#[test]
fn test_error_messages_are_distinct() {
    let variants = [
        TranslatorError::Configuration,
        TranslatorError::NotInitialized,
        TranslatorError::NotRunning,
        TranslatorError::Device,
        TranslatorError::CollaboratorNotReady,
    ];
    for v in &variants {
        assert!(!v.message().is_empty());
    }
    for (i, a) in variants.iter().enumerate() {
        for b in &variants[i + 1..] {
            assert_ne!(a.message(), b.message());
        }
    }
}
