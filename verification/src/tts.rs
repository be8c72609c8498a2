//! Text-to-speech collaborator (optional output path).
//!
//! The synthesis itself is a deterministic placeholder; any compliant engine
//! may be substituted.

use vstd::prelude::*;

use crate::clock::now_millis;
use crate::errors::TranslatorError;

verus! {

/// Result of synthesizing one text.
#[derive(Debug)]
pub struct TtsResult {
    pub text: String,
    pub audio_data: Vec<i16>,
    pub success: bool,
    pub timestamp: u64,
}

/// Text-to-speech synthesizer.
pub struct Tts {
    pub model_path: String,
    pub model_type: String,
    pub initialized: bool,
    pub model_loaded: bool,
}

impl Tts {
    /// Creates a synthesizer that has not yet loaded its model.
    pub fn new(model_path: String, model_type: String) -> (r: Tts)
        ensures
            r.model_path@ == model_path@,
            r.model_type@ == model_type@,
            !r.initialized,
            !r.model_loaded,
    {
        Tts { model_path, model_type, initialized: false, model_loaded: false }
    }

    /// Loads the model. Succeeds at once if already initialized; fails with
    /// a configuration error exactly when the model path is empty.
    pub fn initialize(&mut self) -> (r: Result<(), TranslatorError>)
        ensures
            r is Ok <==> (old(self).initialized || old(self).model_path@.len() > 0),
            r is Err ==> r->Err_0 == TranslatorError::Configuration && *final(self) == *old(self),
            old(self).initialized ==> *final(self) == *old(self),
            !old(self).initialized && old(self).model_path@.len() > 0 ==> *final(self) == (Tts {
                initialized: true,
                model_loaded: true,
                ..*old(self)
            }),
    {
        if self.initialized {
            return Ok(());
        }
        if self.model_path.as_str().is_empty() {
            return Err(TranslatorError::Configuration);
        }
        self.model_loaded = true;
        self.initialized = true;
        Ok(())
    }

    /// Synthesizes one text: before initialization a failed result with no
    /// audio; once initialized a successful result carrying 100 ms of
    /// placeholder audio (1600 zero samples at 16 kHz).
    pub fn generate_speech(&self, text: &str) -> (r: TtsResult)
        ensures
            r.text@ == text@,
            r.success == (self.initialized && self.model_loaded),
            !(self.initialized && self.model_loaded) ==> r.audio_data@.len() == 0,
            self.initialized && self.model_loaded ==> {
                &&& r.audio_data@.len() == 1600
                &&& forall|i: int| 0 <= i < r.audio_data@.len() ==> r.audio_data@[i] == 0i16
            },
    {
        if !self.initialized || !self.model_loaded {
            return TtsResult {
                text: String::from_str(text),
                audio_data: Vec::new(),
                success: false,
                timestamp: now_millis(),
            };
        }
        let mut audio_data: Vec<i16> = Vec::new();
        let mut i: usize = 0;
        while i < 1600
            invariant
                i <= 1600,
                audio_data@.len() == i,
                forall|j: int| 0 <= j < i ==> audio_data@[j] == 0i16,
            decreases 1600 - i,
        {
            audio_data.push(0i16);
            i = i + 1;
        }
        TtsResult { text: String::from_str(text), audio_data, success: true, timestamp: now_millis() }
    }

    /// Whether `initialize` has succeeded.
    pub fn is_initialized(&self) -> (r: bool)
        ensures
            r == self.initialized,
    {
        self.initialized
    }

    /// Whether the model has been loaded.
    pub fn is_model_loaded(&self) -> (r: bool)
        ensures
            r == self.model_loaded,
    {
        self.model_loaded
    }
}

} // verus!
