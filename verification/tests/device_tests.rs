use std::sync::{Arc, Mutex};

use real_trans::io::audio_capture::AudioCapture;
use real_trans::io::audio_device::{AudioDevice, MockAudioDevice};
use real_trans::io::virtual_audio_device::VirtualAudioDevice;

#[test]
fn test_virtual_audio_device_creation() {
    let device = VirtualAudioDevice::new("virtual_input", "virtual_output", 44100, 1);
    assert_eq!(device.get_default_input_device().id, "virtual_input");
    assert_eq!(device.get_default_output_device().id, "virtual_output");
}

#[test]
fn test_virtual_audio_device_callbacks() {
    let device = VirtualAudioDevice::new("virtual_input", "virtual_output", 44100, 1);
    let device_arc = Arc::new(Mutex::new(device));

    // Simulated input accumulates in the device's input buffer — the
    // stand-in for a driver's input callback — until the wiring layer
    // drains it and forwards the chunk.
    let mut locked = device_arc.lock().unwrap();
    locked.simulate_input_data(&[1, 2, 3]);
    locked.simulate_input_data(&[4]);
    assert_eq!(locked.input_buffer, vec![1, 2, 3, 4]);
    assert_eq!(locked.take_input_data(), vec![1, 2, 3, 4]);
    assert!(locked.input_buffer.is_empty());
    // Draining leaves the output side and the stream state alone.
    assert!(locked.output_buffer.is_empty());
    assert!(!locked.is_recording());
}

#[test]
fn test_virtual_device_buffers_played_audio() {
    let mut device = VirtualAudioDevice::new("virtual_input", "virtual_output", 16000, 1);
    assert_eq!(device.play_audio(&[10, 20, 30]).unwrap(), 3);
    assert_eq!(device.play_audio(&[40]).unwrap(), 1);
    assert_eq!(device.get_output_data(), vec![10, 20, 30, 40]);
    // Draining empties the buffer.
    assert!(device.get_output_data().is_empty());
}

#[test]
fn test_mock_device_lifecycle() {
    let mut device = MockAudioDevice::new();
    assert!(!device.is_recording());
    device.open_input_stream(Some("physical_mic".to_string())).unwrap();
    device.start_recording().unwrap();
    assert!(device.is_recording());
    assert_eq!(device.play_audio(&[1, 2]).unwrap(), 2);
    assert_eq!(device.play_audio(&[]).unwrap(), 0);
    device.stop_recording().unwrap();
    device.close_input_stream().unwrap();
    assert!(!device.is_recording());
    assert_eq!(device.get_default_input_device().id, "mock_input");
    assert_eq!(device.get_available_output_devices().len(), 1);
}

#[test]
fn test_audio_capture_lifecycle_and_counting() {
    let mut capture = AudioCapture::new();
    assert!(!capture.is_capturing());
    assert_eq!(capture.get_total_samples(), 0);

    // Chunks are dropped while not capturing.
    capture.simulate_audio_input(&[1i16; 100]);
    assert_eq!(capture.get_total_samples(), 0);

    capture.initialize().unwrap();
    capture.start().unwrap();
    assert!(capture.is_capturing());
    capture.simulate_audio_input(&[1i16; 100]);
    capture.simulate_audio_input(&[1i16; 220]);
    assert_eq!(capture.get_total_samples(), 320);

    capture.stop().unwrap();
    assert!(!capture.is_capturing());
}

#[test]
fn test_audio_capture_start_initializes_on_demand() {
    let mut capture = AudioCapture::new();
    capture.start().unwrap();
    assert!(capture.is_capturing());
}
