//! The audio-device capability contract and a deterministic mock device.

use vstd::prelude::*;

use crate::errors::TranslatorError;

verus! {

/// What a device reports about itself or a sibling.
#[derive(Debug)]
pub struct DeviceInfo {
    pub name: String,
    pub id: String,
    pub sample_rate: u32,
    pub channels: u16,
    pub is_default: bool,
}

/// The capability contract every audio endpoint satisfies: enumerate
/// devices, open and close one input and one output stream, start and stop
/// recording, and play samples.
///
/// The three spec functions expose the endpoint's observable state; the
/// method contracts say how each call moves it.
pub trait AudioDevice: Sized {
    /// Whether the input stream is currently recording.
    spec fn sp_recording(&self) -> bool;

    /// Whether an input stream is open.
    spec fn sp_input_open(&self) -> bool;

    /// Whether an output stream is open.
    spec fn sp_output_open(&self) -> bool;

    /// All available input devices; at least one.
    fn get_available_input_devices(&self) -> (r: Vec<DeviceInfo>)
        ensures
            r@.len() > 0,
    ;

    /// All available output devices; at least one.
    fn get_available_output_devices(&self) -> (r: Vec<DeviceInfo>)
        ensures
            r@.len() > 0,
    ;

    /// The default input device.
    fn get_default_input_device(&self) -> DeviceInfo;

    /// The default output device.
    fn get_default_output_device(&self) -> DeviceInfo;

    /// Opens the input stream, optionally selecting a device by id.
    fn open_input_stream(&mut self, device_id: Option<String>) -> (r: Result<(), TranslatorError>)
        ensures
            r is Ok ==> final(self).sp_input_open(),
            final(self).sp_output_open() == old(self).sp_output_open(),
            final(self).sp_recording() == old(self).sp_recording(),
    ;

    /// Closes the input stream.
    fn close_input_stream(&mut self) -> (r: Result<(), TranslatorError>)
        ensures
            r is Ok ==> !final(self).sp_input_open(),
            final(self).sp_output_open() == old(self).sp_output_open(),
            final(self).sp_recording() == old(self).sp_recording(),
    ;

    /// Opens the output stream, optionally selecting a device by id.
    fn open_output_stream(&mut self, device_id: Option<String>) -> (r: Result<(), TranslatorError>)
        ensures
            r is Ok ==> final(self).sp_output_open(),
            final(self).sp_input_open() == old(self).sp_input_open(),
            final(self).sp_recording() == old(self).sp_recording(),
    ;

    /// Closes the output stream.
    fn close_output_stream(&mut self) -> (r: Result<(), TranslatorError>)
        ensures
            r is Ok ==> !final(self).sp_output_open(),
            final(self).sp_input_open() == old(self).sp_input_open(),
            final(self).sp_recording() == old(self).sp_recording(),
    ;

    /// Starts recording on the input stream.
    fn start_recording(&mut self) -> (r: Result<(), TranslatorError>)
        ensures
            r is Ok ==> final(self).sp_recording(),
            final(self).sp_input_open() == old(self).sp_input_open(),
            final(self).sp_output_open() == old(self).sp_output_open(),
    ;

    /// Stops recording on the input stream.
    fn stop_recording(&mut self) -> (r: Result<(), TranslatorError>)
        ensures
            r is Ok ==> !final(self).sp_recording(),
            final(self).sp_input_open() == old(self).sp_input_open(),
            final(self).sp_output_open() == old(self).sp_output_open(),
    ;

    /// Plays samples; returns how many the device accepted.
    fn play_audio(&mut self, data: &[i16]) -> (r: Result<usize, TranslatorError>)
        ensures
            r is Ok ==> r->Ok_0 <= data@.len(),
            final(self).sp_recording() == old(self).sp_recording(),
            final(self).sp_input_open() == old(self).sp_input_open(),
            final(self).sp_output_open() == old(self).sp_output_open(),
    ;

    /// Whether the input stream is running.
    fn is_recording(&self) -> (r: bool)
        ensures
            r == self.sp_recording(),
    ;
}

/// A deterministic in-memory device for tests and defaults: every operation
/// succeeds and no audio is stored.
pub struct MockAudioDevice {
    pub recording: bool,
    pub input_open: bool,
    pub output_open: bool,
    pub input_device_id: String,
    pub output_device_id: String,
}

impl MockAudioDevice {
    /// A closed, silent mock device.
    pub fn new() -> (r: MockAudioDevice)
        ensures
            !r.recording,
            !r.input_open,
            !r.output_open,
            r.input_device_id@ == "mock_input"@,
            r.output_device_id@ == "mock_output"@,
    {
        MockAudioDevice {
            recording: false,
            input_open: false,
            output_open: false,
            input_device_id: String::from_str("mock_input"),
            output_device_id: String::from_str("mock_output"),
        }
    }
}

impl AudioDevice for MockAudioDevice {
    open spec fn sp_recording(&self) -> bool {
        self.recording
    }

    open spec fn sp_input_open(&self) -> bool {
        self.input_open
    }

    open spec fn sp_output_open(&self) -> bool {
        self.output_open
    }

    fn get_available_input_devices(&self) -> (r: Vec<DeviceInfo>)
        ensures
            r@.len() == 1,
            r@[0].id@ == "mock_input"@,
            r@[0].is_default,
    {
        let info = DeviceInfo {
            name: String::from_str("Mock Input Device"),
            id: String::from_str("mock_input"),
            sample_rate: crate::audio_types::SAMPLE_RATE,
            channels: crate::audio_types::CHANNELS,
            is_default: true,
        };
        let mut r: Vec<DeviceInfo> = Vec::new();
        r.push(info);
        r
    }

    fn get_available_output_devices(&self) -> (r: Vec<DeviceInfo>)
        ensures
            r@.len() == 1,
            r@[0].id@ == "mock_output"@,
            r@[0].is_default,
    {
        let info = DeviceInfo {
            name: String::from_str("Mock Output Device"),
            id: String::from_str("mock_output"),
            sample_rate: crate::audio_types::SAMPLE_RATE,
            channels: crate::audio_types::CHANNELS,
            is_default: true,
        };
        let mut r: Vec<DeviceInfo> = Vec::new();
        r.push(info);
        r
    }

    fn get_default_input_device(&self) -> (r: DeviceInfo)
        ensures
            r.id@ == "mock_input"@,
            r.is_default,
    {
        DeviceInfo {
            name: String::from_str("Mock Input Device"),
            id: String::from_str("mock_input"),
            sample_rate: crate::audio_types::SAMPLE_RATE,
            channels: crate::audio_types::CHANNELS,
            is_default: true,
        }
    }

    fn get_default_output_device(&self) -> (r: DeviceInfo)
        ensures
            r.id@ == "mock_output"@,
            r.is_default,
    {
        DeviceInfo {
            name: String::from_str("Mock Output Device"),
            id: String::from_str("mock_output"),
            sample_rate: crate::audio_types::SAMPLE_RATE,
            channels: crate::audio_types::CHANNELS,
            is_default: true,
        }
    }

    fn open_input_stream(&mut self, device_id: Option<String>) -> (r: Result<(), TranslatorError>)
        ensures
            r is Ok,
    {
        if let Some(id) = device_id {
            self.input_device_id = id;
        }
        self.input_open = true;
        Ok(())
    }

    fn close_input_stream(&mut self) -> (r: Result<(), TranslatorError>)
        ensures
            r is Ok,
    {
        self.input_open = false;
        Ok(())
    }

    fn open_output_stream(&mut self, device_id: Option<String>) -> (r: Result<(), TranslatorError>)
        ensures
            r is Ok,
    {
        if let Some(id) = device_id {
            self.output_device_id = id;
        }
        self.output_open = true;
        Ok(())
    }

    fn close_output_stream(&mut self) -> (r: Result<(), TranslatorError>)
        ensures
            r is Ok,
    {
        self.output_open = false;
        Ok(())
    }

    fn start_recording(&mut self) -> (r: Result<(), TranslatorError>)
        ensures
            r is Ok,
    {
        self.recording = true;
        Ok(())
    }

    fn stop_recording(&mut self) -> (r: Result<(), TranslatorError>)
        ensures
            r is Ok,
    {
        self.recording = false;
        Ok(())
    }

    fn play_audio(&mut self, data: &[i16]) -> (r: Result<usize, TranslatorError>)
        ensures
            r is Ok,
            r->Ok_0 == data@.len(),
    {
        if data.len() == 0 {
            return Ok(0);
        }
        Ok(data.len())
    }

    fn is_recording(&self) -> (r: bool) {
        self.recording
    }
}

} // verus!
