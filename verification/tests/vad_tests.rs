use real_trans::vad::{Vad, VadDecision};

#[test]
fn test_vad_creation() {
    let vad = Vad::new(16000, 30);
    assert_eq!(vad.sample_rate, 16000);
    assert_eq!(vad.frame_duration_ms, 30);
}

#[test]
fn test_vad_process_frame() {
    let mut vad = Vad::new(16000, 30);

    // A silent frame: 30 ms at 16 kHz = 480 samples.
    let silent_frame = vec![0i16; 480];

    let (result, _segment) = vad.process_frame(&silent_frame);
    assert_eq!(result.decision, VadDecision::Silence);
}

#[test]
fn test_vad_probability_formula() {
    let mut vad = Vad::new(16000, 20);
    // Constant amplitude 50: energy 2500, probability 2500*1000/5000 = 500.
    let frame = vec![50i16; 320];
    let (result, _) = vad.process_frame(&frame);
    assert_eq!(result.decision, VadDecision::Speech);
    assert_eq!(result.probability, 500);
    // Constant amplitude 200: energy 40000, probability capped at 1000.
    let loud = vec![200i16; 320];
    let (result, _) = vad.process_frame(&loud);
    assert_eq!(result.probability, 1000);
}

#[test]
fn test_vad_all_silence_never_starts_or_emits() {
    let mut vad = Vad::new(16000, 20);
    let quiet = vec![3i16; 320]; // energy 9, far below the threshold of 1000
    for _ in 0..200 {
        let (result, segment) = vad.process_frame(&quiet);
        assert!(!result.is_start_of_speech);
        assert!(!result.is_end_of_speech);
        assert!(segment.is_none());
    }
    assert!(vad.get_current_speech_segment().is_empty());
}

#[test]
fn test_vad_end_of_speech_fires_exactly_at_threshold() {
    // 200 ms frames; the default maximum silence is 800 ms, so the end flag
    // must fire on exactly the fourth sub-threshold frame, never earlier.
    let mut vad = Vad::new(16000, 200);
    let speech = vec![100i16; 3200]; // energy 10000 > 1000
    let silence = vec![0i16; 3200];

    let (start, _) = vad.process_frame(&speech);
    assert!(start.is_start_of_speech);

    for i in 1..=4 {
        let (result, _) = vad.process_frame(&silence);
        if i < 4 {
            assert!(!result.is_end_of_speech, "fired after {} * 200 ms", i);
        } else {
            assert!(result.is_end_of_speech, "did not fire at 800 ms");
        }
    }
}

#[test]
fn test_vad_short_segment_not_emitted_but_state_resets() {
    // One 20 ms speech frame is far below the 300 ms minimum duration.
    let mut vad = Vad::new(16000, 400);
    let speech = vec![100i16; 320];
    let silence = vec![0i16; 320];

    let (start, _) = vad.process_frame(&speech);
    assert!(start.is_start_of_speech);
    assert_eq!(vad.get_current_speech_segment().len(), 320);

    let (_one, seg_one) = vad.process_frame(&silence);
    assert!(seg_one.is_none());
    let (end, seg_two) = vad.process_frame(&silence);
    assert!(end.is_end_of_speech);
    // Too short to hand back, yet the accumulation state still resets.
    assert!(seg_two.is_none());
    assert!(vad.get_current_speech_segment().is_empty());
    // A later speech frame starts a fresh segment.
    let (again, _) = vad.process_frame(&speech);
    assert!(again.is_start_of_speech);
}

#[test]
fn test_vad_long_segment_emitted_once() {
    // 400 ms frames: one speech frame already exceeds the 300 ms minimum,
    // and one silent frame reaches the 800 ms silence limit at 800 ms.
    let mut vad = Vad::new(16000, 400);
    let speech = vec![100i16; 6400];
    let silence = vec![0i16; 6400];

    vad.process_frame(&speech);
    let (mid, seg_mid) = vad.process_frame(&silence);
    assert!(!mid.is_end_of_speech);
    assert!(seg_mid.is_none());
    let (end, segment) = vad.process_frame(&silence);
    assert!(end.is_end_of_speech);
    let segment = segment.expect("segment long enough to be handed back");
    assert_eq!(segment, vec![100i16; 6400]);
    assert!(vad.get_current_speech_segment().is_empty());
}

#[test]
fn test_vad_reset_clears_accumulation() {
    let mut vad = Vad::new(16000, 20);
    let speech = vec![100i16; 320];
    vad.process_frame(&speech);
    assert!(!vad.get_current_speech_segment().is_empty());
    vad.reset();
    assert!(vad.get_current_speech_segment().is_empty());
    // Configuration survives a reset.
    assert_eq!(vad.sample_rate, 16000);
    assert_eq!(vad.frame_duration_ms, 20);
}

#[test]
fn test_vad_threshold_equality() {
    // Energy of [20, 40] is (400 + 1600) / 2 = 1000, exactly the default
    // threshold. In the Silence state that does not start speech (speech
    // starts only above the threshold)...
    let mut vad = Vad::new(16000, 20);
    let borderline = vec![20i16, 40i16];
    let (result, _) = vad.process_frame(&borderline);
    assert_eq!(result.decision, VadDecision::Silence);
    assert!(!result.is_start_of_speech);
    assert!(vad.get_current_speech_segment().is_empty());

    // ...but while in speech, a frame at the threshold is appended and does
    // not advance the silence counter.
    let loud = vec![100i16; 320];
    let (start, _) = vad.process_frame(&loud);
    assert!(start.is_start_of_speech);
    let (held, segment) = vad.process_frame(&borderline);
    assert_eq!(held.decision, VadDecision::Speech);
    assert!(!held.is_end_of_speech);
    assert!(segment.is_none());
    assert_eq!(vad.get_current_speech_segment().len(), 322);
}

#[test]
fn test_vad_empty_frame_is_silence() {
    let mut vad = Vad::new(16000, 20);
    let (result, segment) = vad.process_frame(&[]);
    assert_eq!(result.decision, VadDecision::Silence);
    assert_eq!(result.probability, 0);
    assert!(segment.is_none());
}
