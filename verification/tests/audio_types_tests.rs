use real_trans::audio_types::{
    AudioFrame, BITS_PER_SAMPLE, CHANNELS, FRAME_SIZE_MS, SAMPLES_PER_FRAME, SAMPLE_RATE,
};

#[test]
fn test_audio_constants() {
    assert_eq!(SAMPLE_RATE, 16000);
    assert_eq!(CHANNELS, 1);
    assert_eq!(BITS_PER_SAMPLE, 16);
    assert_eq!(FRAME_SIZE_MS, 20);
    assert_eq!(SAMPLES_PER_FRAME, 320); // 16000 * 20 / 1000 = 320
}

#[test]
fn test_audio_frame_new_is_one_silent_frame() {
    let frame = AudioFrame::new();
    assert_eq!(frame.samples.len(), SAMPLES_PER_FRAME);
    assert!(frame.samples.iter().all(|&s| s == 0));
}
