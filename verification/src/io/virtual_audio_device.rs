//! A buffering in-memory virtual device, standing in for a virtual audio
//! cable: samples played into it accumulate in an output buffer that a test
//! harness or conferencing application can drain. The input buffer is the
//! stand-in for a driver's per-chunk input callback, which a verified type
//! cannot store: simulated input accumulates there, and the wiring layer
//! drains it with `take_input_data` and forwards each chunk onward.

use vstd::prelude::*;

use crate::errors::TranslatorError;
use crate::io::audio_device::{AudioDevice, DeviceInfo};

verus! {

/// Virtual audio endpoint with an input and an output buffer.
pub struct VirtualAudioDevice {
    pub recording: bool,
    pub input_open: bool,
    pub output_open: bool,
    pub input_device_id: String,
    pub output_device_id: String,
    pub sample_rate: u32,
    pub channels: u16,
    pub input_buffer: Vec<i16>,
    pub output_buffer: Vec<i16>,
}

impl VirtualAudioDevice {
    /// A closed, empty virtual device with the given ids and format.
    pub fn new(input_device_id: &str, output_device_id: &str, sample_rate: u32, channels: u16) -> (r:
        VirtualAudioDevice)
        ensures
            !r.recording,
            !r.input_open,
            !r.output_open,
            r.input_device_id@ == input_device_id@,
            r.output_device_id@ == output_device_id@,
            r.sample_rate == sample_rate,
            r.channels == channels,
            r.input_buffer@ == Seq::<i16>::empty(),
            r.output_buffer@ == Seq::<i16>::empty(),
    {
        VirtualAudioDevice {
            recording: false,
            input_open: false,
            output_open: false,
            input_device_id: String::from_str(input_device_id),
            output_device_id: String::from_str(output_device_id),
            sample_rate,
            channels,
            input_buffer: Vec::new(),
            output_buffer: Vec::new(),
        }
    }

    /// Feeds samples into the input buffer. Where a hardware device would
    /// invoke the registered input callback with this chunk, the virtual
    /// device queues it for the wiring layer to drain with `take_input_data`.
    pub fn simulate_input_data(&mut self, data: &[i16])
        ensures
            final(self).input_buffer@ == old(self).input_buffer@ + data@,
            *final(self) == (VirtualAudioDevice {
                input_buffer: final(self).input_buffer,
                ..*old(self)
            }),
    {
        crate::vad::append_samples(&mut self.input_buffer, data);
    }

    /// Drains and returns everything fed to the input buffer so far, in
    /// arrival order: the wiring layer's substitute for a stored callback.
    pub fn take_input_data(&mut self) -> (r: Vec<i16>)
        ensures
            r@ == old(self).input_buffer@,
            final(self).input_buffer@ == Seq::<i16>::empty(),
            *final(self) == (VirtualAudioDevice {
                input_buffer: final(self).input_buffer,
                ..*old(self)
            }),
    {
        let mut drained: Vec<i16> = Vec::new();
        core::mem::swap(&mut drained, &mut self.input_buffer);
        drained
    }

    /// Drains and returns everything played into the output buffer so far.
    pub fn get_output_data(&mut self) -> (r: Vec<i16>)
        ensures
            r@ == old(self).output_buffer@,
            final(self).output_buffer@ == Seq::<i16>::empty(),
            *final(self) == (VirtualAudioDevice {
                output_buffer: final(self).output_buffer,
                ..*old(self)
            }),
    {
        let mut drained: Vec<i16> = Vec::new();
        core::mem::swap(&mut drained, &mut self.output_buffer);
        drained
    }

    /// Appends samples to the output buffer.
    fn write_to_output(&mut self, data: &[i16])
        ensures
            final(self).output_buffer@ == old(self).output_buffer@ + data@,
            *final(self) == (VirtualAudioDevice {
                output_buffer: final(self).output_buffer,
                ..*old(self)
            }),
    {
        crate::vad::append_samples(&mut self.output_buffer, data);
    }
}

impl AudioDevice for VirtualAudioDevice {
    open spec fn sp_recording(&self) -> bool {
        self.recording
    }

    open spec fn sp_input_open(&self) -> bool {
        self.input_open
    }

    open spec fn sp_output_open(&self) -> bool {
        self.output_open
    }

    fn get_available_input_devices(&self) -> (r: Vec<DeviceInfo>)
        ensures
            r@.len() == 1,
            r@[0].id@ == self.input_device_id@,
            r@[0].is_default,
    {
        let info = DeviceInfo {
            name: String::from_str("Virtual Input Device"),
            id: self.input_device_id.clone(),
            sample_rate: self.sample_rate,
            channels: self.channels,
            is_default: true,
        };
        let mut r: Vec<DeviceInfo> = Vec::new();
        r.push(info);
        r
    }

    fn get_available_output_devices(&self) -> (r: Vec<DeviceInfo>)
        ensures
            r@.len() == 1,
            r@[0].id@ == self.output_device_id@,
            r@[0].is_default,
    {
        let info = DeviceInfo {
            name: String::from_str("Virtual Output Device"),
            id: self.output_device_id.clone(),
            sample_rate: self.sample_rate,
            channels: self.channels,
            is_default: true,
        };
        let mut r: Vec<DeviceInfo> = Vec::new();
        r.push(info);
        r
    }

    fn get_default_input_device(&self) -> (r: DeviceInfo)
        ensures
            r.id@ == self.input_device_id@,
            r.is_default,
    {
        DeviceInfo {
            name: String::from_str("Virtual Input Device"),
            id: self.input_device_id.clone(),
            sample_rate: self.sample_rate,
            channels: self.channels,
            is_default: true,
        }
    }

    fn get_default_output_device(&self) -> (r: DeviceInfo)
        ensures
            r.id@ == self.output_device_id@,
            r.is_default,
    {
        DeviceInfo {
            name: String::from_str("Virtual Output Device"),
            id: self.output_device_id.clone(),
            sample_rate: self.sample_rate,
            channels: self.channels,
            is_default: true,
        }
    }

    fn open_input_stream(&mut self, device_id: Option<String>) -> (r: Result<(), TranslatorError>)
        ensures
            r is Ok,
    {
        if let Some(id) = device_id {
            self.input_device_id = id;
        }
        self.input_open = true;
        Ok(())
    }

    fn close_input_stream(&mut self) -> (r: Result<(), TranslatorError>)
        ensures
            r is Ok,
    {
        self.input_open = false;
        Ok(())
    }

    fn open_output_stream(&mut self, device_id: Option<String>) -> (r: Result<(), TranslatorError>)
        ensures
            r is Ok,
    {
        if let Some(id) = device_id {
            self.output_device_id = id;
        }
        self.output_open = true;
        Ok(())
    }

    fn close_output_stream(&mut self) -> (r: Result<(), TranslatorError>)
        ensures
            r is Ok,
    {
        self.output_open = false;
        Ok(())
    }

    fn start_recording(&mut self) -> (r: Result<(), TranslatorError>)
        ensures
            r is Ok,
    {
        self.recording = true;
        Ok(())
    }

    fn stop_recording(&mut self) -> (r: Result<(), TranslatorError>)
        ensures
            r is Ok,
    {
        self.recording = false;
        Ok(())
    }

    fn play_audio(&mut self, data: &[i16]) -> (r: Result<usize, TranslatorError>)
        ensures
            r is Ok,
            r->Ok_0 == data@.len(),
            final(self).output_buffer@ == old(self).output_buffer@ + data@,
    {
        if data.len() == 0 {
            return Ok(0);
        }
        self.write_to_output(data);
        Ok(data.len())
    }

    fn is_recording(&self) -> (r: bool) {
        self.recording
    }
}

} // verus!
