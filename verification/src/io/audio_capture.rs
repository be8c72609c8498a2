//! Audio capture: owns one input device, tracks whether capture is live and
//! how many samples went through. Driver callbacks hand their chunks to the
//! owner of this struct, which forwards them to the translation core.

use vstd::prelude::*;

use crate::errors::TranslatorError;
use crate::io::audio_device::{AudioDevice, MockAudioDevice};

verus! {

/// Capture front-end over one input device.
pub struct AudioCapture {
    pub audio_device: Option<MockAudioDevice>,
    pub initialized: bool,
    pub capturing: bool,
    pub total_samples: u64,
    pub sample_buffer: Vec<i16>,
}

impl AudioCapture {
    /// Well-formedness: capturing implies initialized, and an initialized
    /// capture owns a device.
    pub open spec fn wf(&self) -> bool {
        &&& self.capturing ==> self.initialized
        &&& self.initialized ==> self.audio_device is Some
    }

    /// A capture with no device yet.
    pub fn new() -> (r: AudioCapture)
        ensures
            r.wf(),
            !r.initialized,
            !r.capturing,
            r.total_samples == 0,
    {
        AudioCapture {
            audio_device: None,
            initialized: false,
            capturing: false,
            total_samples: 0,
            sample_buffer: Vec::new(),
        }
    }

    /// Opens the input device; a no-op when already initialized.
    pub fn initialize(&mut self) -> (r: Result<(), TranslatorError>)
        requires
            old(self).wf(),
        ensures
            final(self).wf(),
            r is Ok,
            final(self).initialized,
            final(self).capturing == old(self).capturing,
            final(self).total_samples == old(self).total_samples,
    {
        if self.initialized {
            return Ok(());
        }
        let mut device = MockAudioDevice::new();
        let open_result = device.open_input_stream(None);
        if let Err(e) = open_result {
            return Err(e);
        }
        self.audio_device = Some(device);
        self.initialized = true;
        Ok(())
    }

    /// Starts capturing, initializing first if needed; a no-op when already
    /// capturing.
    pub fn start(&mut self) -> (r: Result<(), TranslatorError>)
        requires
            old(self).wf(),
        ensures
            final(self).wf(),
            r is Ok,
            final(self).capturing,
            final(self).initialized,
            final(self).total_samples == old(self).total_samples,
            old(self).capturing ==> *final(self) == *old(self),
            !old(self).capturing ==> final(self).audio_device is Some
                && final(self).audio_device->Some_0.recording,
    {
        if !self.initialized {
            let init_result = self.initialize();
            if let Err(e) = init_result {
                return Err(e);
            }
        }
        if self.capturing {
            return Ok(());
        }
        match &mut self.audio_device {
            Some(device) => {
                let rec = device.start_recording();
                if let Err(e) = rec {
                    return Err(e);
                }
            },
            None => {
                return Err(TranslatorError::Device);
            },
        }
        self.capturing = true;
        Ok(())
    }

    /// Stops capturing; a no-op when already stopped.
    pub fn stop(&mut self) -> (r: Result<(), TranslatorError>)
        requires
            old(self).wf(),
        ensures
            final(self).wf(),
            r is Ok,
            !final(self).capturing,
            final(self).initialized == old(self).initialized,
            final(self).total_samples == old(self).total_samples,
            !old(self).capturing ==> *final(self) == *old(self),
            old(self).capturing ==> final(self).audio_device is Some
                && !final(self).audio_device->Some_0.recording,
    {
        if !self.capturing {
            return Ok(());
        }
        match &mut self.audio_device {
            Some(device) => {
                let rec = device.stop_recording();
                if let Err(e) = rec {
                    return Err(e);
                }
            },
            None => {
                return Err(TranslatorError::Device);
            },
        }
        self.capturing = false;
        Ok(())
    }

    /// Whether capture is live.
    pub fn is_capturing(&self) -> (r: bool)
        ensures
            r == self.capturing,
    {
        self.capturing
    }

    /// How many samples have been fed through this capture.
    pub fn get_total_samples(&self) -> (r: u64)
        ensures
            r == self.total_samples,
    {
        self.total_samples
    }

    /// Accounts for one chunk of captured audio: a no-op unless capturing,
    /// else the sample count grows by the chunk length (saturating at the
    /// counter's maximum).
    pub fn simulate_audio_input(&mut self, audio_data: &[i16])
        requires
            old(self).wf(),
        ensures
            final(self).wf(),
            !old(self).capturing ==> *final(self) == *old(self),
            old(self).capturing ==> final(self).total_samples == (if old(self).total_samples
                + audio_data@.len() <= u64::MAX {
                old(self).total_samples + audio_data@.len()
            } else {
                u64::MAX as int
            }),
            final(self).capturing == old(self).capturing,
            final(self).initialized == old(self).initialized,
    {
        if !self.capturing {
            return ;
        }
        let len = audio_data.len() as u64;
        if self.total_samples <= u64::MAX - len {
            self.total_samples = self.total_samples + len;
        } else {
            self.total_samples = u64::MAX;
        }
    }
}

} // verus!
