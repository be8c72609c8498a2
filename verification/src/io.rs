//! Audio input/output: the device capability contract and the in-process
//! implementations used by the core (a deterministic mock and a buffering
//! virtual device). Hardware-backed devices live outside the library behind
//! the same contract.

pub mod audio_capture;
pub mod audio_device;
pub mod virtual_audio_device;
