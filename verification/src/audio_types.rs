//! Audio constants and basic types shared by every component boundary:
//! mono, 16 kHz, 16-bit signed PCM, 20 ms (320-sample) frames.

use vstd::prelude::*;

verus! {

/// Sample rate in Hz.
pub const SAMPLE_RATE: u32 = 16000;

/// Number of channels (mono).
pub const CHANNELS: u16 = 1;

/// Bit depth of one sample.
pub const BITS_PER_SAMPLE: u16 = 16;

/// Canonical frame length in milliseconds.
pub const FRAME_SIZE_MS: u32 = 20;

/// Samples in one canonical frame: 16000 * 20 / 1000.
pub const SAMPLES_PER_FRAME: usize = 320;

/// Default capacity of the bounded audio queue.
pub const DEFAULT_RING_BUFFER_SIZE: usize = 8192;

/// One audio sample: 16-bit signed PCM.
pub type AudioSample = i16;

/// One canonical frame of audio with its capture timestamp (milliseconds).
pub struct AudioFrame {
    pub samples: Vec<AudioSample>,
    pub timestamp: u64,
}

impl AudioFrame {
    /// A zeroed frame of the canonical length.
    pub fn new() -> (r: AudioFrame)
        ensures
            r.samples@.len() == SAMPLES_PER_FRAME,
            forall|i: int| 0 <= i < r.samples@.len() ==> r.samples@[i] == 0i16,
            r.timestamp == 0u64,
    {
        let mut samples: Vec<AudioSample> = Vec::new();
        let mut i: usize = 0;
        while i < SAMPLES_PER_FRAME
            invariant
                i <= SAMPLES_PER_FRAME,
                samples@.len() == i,
                forall|j: int| 0 <= j < i ==> samples@[j] == 0i16,
            decreases SAMPLES_PER_FRAME - i,
        {
            samples.push(0i16);
            i = i + 1;
        }
        AudioFrame { samples, timestamp: 0 }
    }
}

} // verus!
