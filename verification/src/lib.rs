//! Core of a full-duplex, low-latency speech-translation pipeline.
//!
//! The library routes live audio between endpoints, segments speech with an
//! energy-based voice-activity detector, and dispatches direction-aware
//! translation so that a device never hears a translation of its own input.
//! Every component here is synchronous and verified; asynchronous plumbing,
//! device callbacks and real model inference live outside the library.

pub mod asr;
pub mod audio_types;
pub mod clock;
pub mod errors;
pub mod io;
pub mod model_loader;
pub mod mt;
pub mod pipeline;
pub mod ring_buffer;
pub mod switchboard;
pub mod translator;
pub mod tts;
pub mod vad;

pub use audio_types::AudioSample;
pub use ring_buffer::RingBuffer;
