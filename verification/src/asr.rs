//! Speech-recognition collaborator.
//!
//! Consumed through a fixed contract: initialize, feed audio, receive
//! partial/final results tagged with a confidence. The recognition itself is
//! a deterministic placeholder; any compliant engine may be substituted.

use vstd::prelude::*;

use crate::clock::now_millis;
use crate::errors::TranslatorError;

verus! {

/// The placeholder text produced for a finalized stretch of audio.
pub open spec fn sim_recognition_text() -> Seq<char> {
    "simulated recognition result"@
}

/// The placeholder text produced for a single frame.
pub open spec fn sim_frame_recognition_text() -> Seq<char> {
    "simulated frame recognition result"@
}

/// One recognition result.
///
/// `confidence` is in thousandths (0..=1000); `timestamp` and the optional
/// `word_timings` are in milliseconds.
#[derive(Debug)]
pub struct AsrResult {
    pub text: String,
    pub confidence: u32,
    pub is_partial: bool,
    pub is_final: bool,
    pub timestamp: u64,
    pub word_timings: Vec<u32>,
}

impl AsrResult {
    /// A field-for-field copy.
    pub fn clone(&self) -> (r: AsrResult)
        ensures
            r.text@ == self.text@,
            r.confidence == self.confidence,
            r.is_partial == self.is_partial,
            r.is_final == self.is_final,
            r.timestamp == self.timestamp,
            r.word_timings@ == self.word_timings@,
    {
        AsrResult {
            text: self.text.clone(),
            confidence: self.confidence,
            is_partial: self.is_partial,
            is_final: self.is_final,
            timestamp: self.timestamp,
            word_timings: self.word_timings.clone(),
        }
    }
}

/// Automatic speech recognizer.
pub struct Asr {
    pub model_path: String,
    pub model_type: String,
    pub language: String,
    pub enable_punctuation: bool,
    pub initialized: bool,
    pub model_loaded: bool,
    pub partial_text: String,
    pub final_text: String,
}

impl Asr {
    /// Well-formedness: the model is loaded exactly when initialized.
    pub open spec fn wf(&self) -> bool {
        self.initialized == self.model_loaded
    }

    /// Creates a recognizer that has not yet loaded its model. The language
    /// defaults to automatic detection.
    pub fn new(model_path: String, model_type: String) -> (r: Asr)
        ensures
            r.model_path@ == model_path@,
            r.model_type@ == model_type@,
            r.language@ == "auto"@,
            r.enable_punctuation,
            !r.initialized,
            !r.model_loaded,
            r.wf(),
            r.partial_text@ == Seq::<char>::empty(),
            r.final_text@ == Seq::<char>::empty(),
    {
        Asr {
            model_path,
            model_type,
            language: String::from_str("auto"),
            enable_punctuation: true,
            initialized: false,
            model_loaded: false,
            partial_text: String::new(),
            final_text: String::new(),
        }
    }

    /// Loads the model. Succeeds at once if already initialized; fails with
    /// a configuration error exactly when the model path is empty.
    pub fn initialize(&mut self) -> (r: Result<(), TranslatorError>)
        requires
            old(self).wf(),
        ensures
            final(self).wf(),
            r is Ok <==> (old(self).initialized || old(self).model_path@.len() > 0),
            r is Ok ==> final(self).initialized && final(self).model_loaded,
            r is Err ==> r->Err_0 == TranslatorError::Configuration && *final(self) == *old(self),
            old(self).initialized ==> *final(self) == *old(self),
            !old(self).initialized && old(self).model_path@.len() > 0 ==> *final(self) == (Asr {
                initialized: true,
                model_loaded: true,
                ..*old(self)
            }),
    {
        if self.initialized {
            return Ok(());
        }
        if self.model_path.as_str().is_empty() {
            return Err(TranslatorError::Configuration);
        }
        self.model_loaded = true;
        self.initialized = true;
        Ok(())
    }

    /// Feeds a stretch of audio and returns the recognition results.
    ///
    /// Before initialization this is a no-op returning no results; once
    /// initialized it yields exactly one finalized result carrying the
    /// placeholder text with confidence 900.
    pub fn process_audio(&mut self, audio_data: &[i16]) -> (r: Vec<AsrResult>)
        ensures
            *final(self) == *old(self),
            !(old(self).initialized && old(self).model_loaded) ==> r@.len() == 0,
            old(self).initialized && old(self).model_loaded ==> {
                &&& r@.len() == 1
                &&& r@[0].text@ == sim_recognition_text()
                &&& r@[0].confidence == 900
                &&& !r@[0].is_partial
                &&& r@[0].is_final
                &&& r@[0].word_timings@.len() == 0
            },
    {
        let mut results: Vec<AsrResult> = Vec::new();
        if !self.initialized || !self.model_loaded {
            return results;
        }
        let result = AsrResult {
            text: String::from_str("simulated recognition result"),
            confidence: 900,
            is_partial: false,
            is_final: true,
            timestamp: now_millis(),
            word_timings: Vec::new(),
        };
        results.push(result);
        results
    }

    /// Feeds one frame and returns a single result: an empty non-final
    /// result before initialization, else a partial placeholder result with
    /// confidence 850.
    pub fn process_frame(&mut self, audio_frame: &[i16]) -> (r: AsrResult)
        ensures
            *final(self) == *old(self),
            !(old(self).initialized && old(self).model_loaded) ==> {
                &&& r.text@ == Seq::<char>::empty()
                &&& r.confidence == 0
                &&& !r.is_partial
                &&& !r.is_final
            },
            old(self).initialized && old(self).model_loaded ==> {
                &&& r.text@ == sim_frame_recognition_text()
                &&& r.confidence == 850
                &&& r.is_partial
                &&& !r.is_final
            },
            r.word_timings@.len() == 0,
    {
        if !self.initialized || !self.model_loaded {
            return AsrResult {
                text: String::new(),
                confidence: 0,
                is_partial: false,
                is_final: false,
                timestamp: now_millis(),
                word_timings: Vec::new(),
            };
        }
        AsrResult {
            text: String::from_str("simulated frame recognition result"),
            confidence: 850,
            is_partial: true,
            is_final: false,
            timestamp: now_millis(),
            word_timings: Vec::new(),
        }
    }

    /// The accumulated intermediate text as a partial result (confidence 700).
    pub fn get_partial_result(&self) -> (r: AsrResult)
        ensures
            r.text@ == self.partial_text@,
            r.confidence == 700,
            r.is_partial,
            !r.is_final,
            r.word_timings@.len() == 0,
    {
        AsrResult {
            text: self.partial_text.clone(),
            confidence: 700,
            is_partial: true,
            is_final: false,
            timestamp: now_millis(),
            word_timings: Vec::new(),
        }
    }

    /// The accumulated final text as a finalized result (confidence 900).
    pub fn get_final_result(&self) -> (r: AsrResult)
        ensures
            r.text@ == self.final_text@,
            r.confidence == 900,
            !r.is_partial,
            r.is_final,
            r.word_timings@.len() == 0,
    {
        AsrResult {
            text: self.final_text.clone(),
            confidence: 900,
            is_partial: false,
            is_final: true,
            timestamp: now_millis(),
            word_timings: Vec::new(),
        }
    }

    /// Clears the accumulated texts; initialization is kept.
    pub fn reset(&mut self)
        ensures
            *final(self) == (Asr {
                partial_text: final(self).partial_text,
                final_text: final(self).final_text,
                ..*old(self)
            }),
            final(self).partial_text@ == Seq::<char>::empty(),
            final(self).final_text@ == Seq::<char>::empty(),
    {
        self.partial_text = String::new();
        self.final_text = String::new();
    }

    /// Sets the recognition language tag (for example "zh" or "en").
    pub fn set_language(&mut self, language: String)
        ensures
            *final(self) == (Asr { language: final(self).language, ..*old(self) }),
            final(self).language@ == language@,
    {
        self.language = language;
    }

    /// Enables or disables punctuation in recognized text.
    pub fn set_enable_punctuation(&mut self, enable_punctuation: bool)
        ensures
            *final(self) == (Asr { enable_punctuation, ..*old(self) }),
    {
        self.enable_punctuation = enable_punctuation;
    }

    /// Whether `initialize` has succeeded.
    pub fn is_initialized(&self) -> (r: bool)
        ensures
            r == self.initialized,
    {
        self.initialized
    }

    /// Whether the model has been loaded.
    pub fn is_model_loaded(&self) -> (r: bool)
        ensures
            r == self.model_loaded,
    {
        self.model_loaded
    }
}

} // verus!
