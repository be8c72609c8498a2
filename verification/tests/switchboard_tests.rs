use real_trans::switchboard::{AudioControl, AudioSwitchboard, AudioSwitchboardStatus};
use real_trans::translator::TranslationDirection;

#[test]
fn test_audio_switchboard_creation() {
    let switchboard = AudioSwitchboard::new("zh", "en");
    assert!(switchboard.is_ok());
}

#[test]
fn test_audio_switchboard_lifecycle() {
    let mut switchboard = AudioSwitchboard::new("zh", "en").unwrap();

    assert!(switchboard.initialize_devices().is_ok());

    assert!(switchboard.start().is_ok());

    assert_eq!(switchboard.get_status(), AudioSwitchboardStatus::Idle);

    assert!(switchboard.stop().is_ok());
}

#[test]
fn test_control_loop_applies_language_pair() {
    // start -> SetLanguagePair("en","fr") -> one control-loop iteration ->
    // the translator's pair becomes {en, fr} -> stop closes every endpoint
    // and the status returns to Idle.
    let mut switchboard = AudioSwitchboard::new("zh", "en").unwrap();
    switchboard.start().unwrap();

    switchboard
        .send_control(AudioControl::SetLanguagePair("en".to_string(), "fr".to_string()))
        .unwrap();
    assert!(switchboard.run_control_iteration());

    let pair = switchboard.translator.get_current_language_pair();
    assert_eq!(pair.source, "en");
    assert_eq!(pair.target, "fr");

    switchboard.stop().unwrap();
    assert_eq!(switchboard.get_status(), AudioSwitchboardStatus::Idle);

    let mic = switchboard.physical_mic.as_ref().unwrap();
    assert!(!mic.recording);
    assert!(!mic.input_open);
    let headphones = switchboard.physical_headphones.as_ref().unwrap();
    assert!(!headphones.output_open);
    let cable_in = switchboard.virtual_cable_input.as_ref().unwrap();
    assert!(!cable_in.recording && !cable_in.input_open && !cable_in.output_open);
    let cable_out = switchboard.virtual_cable_output.as_ref().unwrap();
    assert!(!cable_out.recording && !cable_out.input_open);
}

#[test]
fn test_lifecycle_without_control_messages() {
    let mut switchboard = AudioSwitchboard::new("zh", "en").unwrap();
    switchboard.start().unwrap();
    // No control message was ever sent: one iteration is a no-op.
    assert!(!switchboard.run_control_iteration());
    switchboard.stop().unwrap();
    assert_eq!(switchboard.get_status(), AudioSwitchboardStatus::Idle);
}

#[test]
fn test_inert_control_messages_change_nothing() {
    let mut switchboard = AudioSwitchboard::new("zh", "en").unwrap();
    switchboard.start().unwrap();
    switchboard.send_control(AudioControl::Start).unwrap();
    switchboard.send_control(AudioControl::ToggleMute).unwrap();
    switchboard.send_control(AudioControl::StatusRequest).unwrap();
    switchboard.send_control(AudioControl::Stop).unwrap();
    while switchboard.run_control_iteration() {}
    let pair = switchboard.translator.get_current_language_pair();
    assert_eq!(pair.source, "zh");
    assert_eq!(pair.target, "en");
    assert_eq!(switchboard.get_status(), AudioSwitchboardStatus::Idle);
}

#[test]
fn test_start_wires_both_legs() {
    let mut switchboard = AudioSwitchboard::new("zh", "en").unwrap();
    switchboard.start().unwrap();
    let mic = switchboard.physical_mic.as_ref().unwrap();
    assert!(mic.recording && mic.input_open);
    let cable_in = switchboard.virtual_cable_input.as_ref().unwrap();
    assert!(cable_in.output_open);
    let cable_out = switchboard.virtual_cable_output.as_ref().unwrap();
    assert!(cable_out.recording && cable_out.input_open);
    let headphones = switchboard.physical_headphones.as_ref().unwrap();
    assert!(headphones.output_open);
}

#[test]
fn test_switchboard_routes_mic_outbound_and_loopback_inbound() {
    let mut switchboard = AudioSwitchboard::new("zh", "en").unwrap();
    switchboard.start().unwrap();
    switchboard.translator.start().unwrap();

    let outbound = switchboard.simulate_physical_mic_input(&[100i16; 320]);
    assert_eq!(outbound.len(), 1);
    assert_eq!(outbound[0].direction, TranslationDirection::UserToOther);

    let inbound = switchboard.simulate_system_loopback_input(&[100i16; 320]);
    assert_eq!(inbound.len(), 1);
    assert_eq!(inbound[0].direction, TranslationDirection::OtherToUser);
}
