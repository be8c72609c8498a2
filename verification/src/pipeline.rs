//! Single-direction translation pipeline.
//!
//! Orchestrates the recognition and translation collaborators: audio goes to
//! the recognizer synchronously; every non-final recognition surfaces at once
//! as a partial result (empty translated text), and every final recognition
//! triggers a translation whose completion yields a final result carrying
//! both confidence scores. States: Uninitialized -> Initialized -> Running
//! -> Stopped, driven by `initialize`, `start` and `stop`.

use vstd::prelude::*;

use crate::asr::{Asr, AsrResult};
use crate::clock::now_millis;
use crate::errors::TranslatorError;
use crate::mt::{bounded_push, translated_view, Mt};
use crate::vad::Vad;

verus! {

/// One emitted translation result: either a partial result (recognition
/// only, empty translated text) or a final one (recognition and translation,
/// with both confidences in thousandths).
#[derive(Debug)]
pub struct TranslationResult {
    pub original_text: String,
    pub translated_text: String,
    pub asr_confidence: u32,
    pub mt_confidence: u32,
    pub is_partial: bool,
    pub is_final: bool,
    pub timestamp: u64,
}

/// Whether an emitted result correctly reflects a recognition result.
pub open spec fn reflects_recognition(t: TranslationResult, text: Seq<char>, is_final: bool) -> bool {
    if is_final {
        &&& t.original_text@ == text
        &&& t.translated_text@ == translated_view(text)
        &&& !t.is_partial
        &&& t.is_final
    } else {
        &&& t.original_text@ == text
        &&& t.translated_text@ == Seq::<char>::empty()
        &&& t.is_partial
        &&& !t.is_final
        &&& t.mt_confidence == 0
    }
}

/// Single-direction orchestrator over one recognizer and one translator.
pub struct TranslationPipeline {
    pub asr: Asr,
    pub mt: Mt,
    pub vad: Vad,
    pub running: bool,
    pub source_language: String,
    pub target_language: String,
}

impl TranslationPipeline {
    /// Well-formedness of the owned collaborators.
    pub open spec fn wf(&self) -> bool {
        &&& self.asr.wf()
        &&& self.mt.wf()
        &&& self.vad.wf()
    }

    /// Both collaborators report initialized with their models loaded.
    pub open spec fn collaborators_ready(&self) -> bool {
        &&& self.asr.initialized
        &&& self.asr.model_loaded
        &&& self.mt.initialized
        &&& self.mt.model_loaded
    }

    /// Creates a pipeline in the Uninitialized state for the given model
    /// paths, with the default language pair zh -> en.
    pub fn new(asr_model_path: String, mt_model_path: String) -> (r: TranslationPipeline)
        ensures
            r.wf(),
            !r.running,
            !r.collaborators_ready(),
            r.asr.model_path@ == asr_model_path@,
            r.mt.model_path@ == mt_model_path@,
            r.source_language@ == "zh"@,
            r.target_language@ == "en"@,
    {
        let asr = Asr::new(asr_model_path, String::from_str("whisper-tiny"));
        let mt = Mt::new(mt_model_path, String::from_str("qwen2.5-0.5b"));
        let vad = Vad::new(crate::audio_types::SAMPLE_RATE, 30);
        TranslationPipeline {
            asr,
            mt,
            vad,
            running: false,
            source_language: String::from_str("zh"),
            target_language: String::from_str("en"),
        }
    }

    /// Initializes both collaborators. Fails with a configuration error
    /// exactly when a not-yet-initialized collaborator has an empty model
    /// path; on success both collaborators report initialized.
    pub fn initialize(&mut self) -> (r: Result<(), TranslatorError>)
        requires
            old(self).wf(),
        ensures
            final(self).wf(),
            r is Ok <==> {
                &&& (old(self).asr.initialized || old(self).asr.model_path@.len() > 0)
                &&& (old(self).mt.initialized || old(self).mt.model_path@.len() > 0)
            },
            r is Ok ==> final(self).collaborators_ready(),
            r is Err ==> r->Err_0 == TranslatorError::Configuration,
            r is Err ==> final(self).mt == old(self).mt,
            r is Err && !(old(self).asr.initialized || old(self).asr.model_path@.len() > 0)
                ==> final(self).asr == old(self).asr,
            final(self).vad == old(self).vad,
            final(self).running == old(self).running,
            final(self).source_language@ == old(self).source_language@,
            final(self).target_language@ == old(self).target_language@,
    {
        self.asr.initialize()?;
        self.mt.initialize()?;
        Ok(())
    }

    /// Starts the pipeline: fails, remaining non-running, unless both
    /// collaborators report initialized; on success both collaborators'
    /// accumulation state is reset and the pipeline is Running.
    pub fn start(&mut self) -> (r: Result<(), TranslatorError>)
        requires
            old(self).wf(),
        ensures
            final(self).wf(),
            old(self).running ==> r is Ok && *final(self) == *old(self),
            r is Ok <==> (old(self).running || (old(self).asr.initialized
                && old(self).mt.initialized)),
            r is Err ==> r->Err_0 == TranslatorError::CollaboratorNotReady && *final(self) == *old(
                self,
            ),
            r is Ok ==> final(self).running,
            r is Ok && !old(self).running ==> {
                &&& final(self).asr.partial_text@ == Seq::<char>::empty()
                &&& final(self).asr.final_text@ == Seq::<char>::empty()
                &&& final(self).mt.contexts() == Seq::<(Seq<char>, Seq<char>)>::empty()
            },
            final(self).collaborators_ready() == old(self).collaborators_ready(),
            final(self).source_language@ == old(self).source_language@,
            final(self).target_language@ == old(self).target_language@,
    {
        if self.running {
            return Ok(());
        }
        if !self.asr.is_initialized() {
            return Err(TranslatorError::CollaboratorNotReady);
        }
        if !self.mt.is_initialized() {
            return Err(TranslatorError::CollaboratorNotReady);
        }
        self.running = true;
        self.asr.reset();
        self.mt.reset();
        Ok(())
    }

    /// Stops the pipeline; a no-op when already stopped. Both collaborators'
    /// accumulation state is reset.
    pub fn stop(&mut self) -> (r: Result<(), TranslatorError>)
        requires
            old(self).wf(),
        ensures
            final(self).wf(),
            r is Ok,
            !final(self).running,
            old(self).running ==> {
                &&& final(self).asr.partial_text@ == Seq::<char>::empty()
                &&& final(self).asr.final_text@ == Seq::<char>::empty()
                &&& final(self).mt.contexts() == Seq::<(Seq<char>, Seq<char>)>::empty()
            },
            final(self).collaborators_ready() == old(self).collaborators_ready(),
            !old(self).running ==> *final(self) == *old(self),
            final(self).source_language@ == old(self).source_language@,
            final(self).target_language@ == old(self).target_language@,
    {
        if !self.running {
            return Ok(());
        }
        self.running = false;
        self.asr.reset();
        self.mt.reset();
        Ok(())
    }

    /// Resets both collaborators' accumulation state.
    pub fn reset(&mut self)
        requires
            old(self).wf(),
        ensures
            final(self).wf(),
            final(self).running == old(self).running,
            final(self).collaborators_ready() == old(self).collaborators_ready(),
            final(self).source_language@ == old(self).source_language@,
            final(self).target_language@ == old(self).target_language@,
    {
        self.asr.reset();
        self.mt.reset();
    }

    /// Feeds a stretch of audio through recognition and translation.
    ///
    /// A no-op returning `(false, [])` unless Running. When Running, returns
    /// `true` and the emitted results: one per recognition result, partial
    /// results for non-final recognitions and translated final results for
    /// final ones, in recognition order. With the placeholder recognizer this
    /// is exactly one final result whose translated text is never empty.
    pub fn process_audio(&mut self, audio_data: &[i16]) -> (r: (bool, Vec<TranslationResult>))
        requires
            old(self).wf(),
        ensures
            final(self).wf(),
            r.0 == old(self).running,
            final(self).running == old(self).running,
            final(self).collaborators_ready() == old(self).collaborators_ready(),
            final(self).source_language@ == old(self).source_language@,
            final(self).target_language@ == old(self).target_language@,
            final(self).asr == old(self).asr,
            final(self).vad == old(self).vad,
            !old(self).running ==> r.1@.len() == 0 && *final(self) == *old(self),
            old(self).running && !(old(self).asr.initialized && old(self).asr.model_loaded)
                ==> r.1@.len() == 0 && *final(self) == *old(self),
            old(self).running && old(self).collaborators_ready() ==> {
                &&& r.1@.len() == 1
                &&& reflects_recognition(r.1@[0], crate::asr::sim_recognition_text(), true)
                &&& r.1@[0].mt_confidence == 850
                &&& r.1@[0].translated_text@.len() > 0
                &&& final(self).mt.contexts() == bounded_push(
                    old(self).mt.contexts(),
                    (crate::asr::sim_recognition_text(), translated_view(
                        crate::asr::sim_recognition_text(),
                    )),
                    old(self).mt.max_context_size as int,
                )
                &&& final(self).mt == (Mt {
                    context_history: final(self).mt.context_history,
                    ..old(self).mt
                })
            },
    {
        if !self.running {
            return (false, Vec::new());
        }
        let asr_results = self.asr.process_audio(audio_data);
        let mut results: Vec<TranslationResult> = Vec::new();
        let mut i: usize = 0;
        while i < asr_results.len()
            invariant
                i <= asr_results@.len(),
                results@.len() == i,
                self.wf(),
                self.running == old(self).running,
                self.collaborators_ready() == old(self).collaborators_ready(),
                self.source_language@ == old(self).source_language@,
                self.target_language@ == old(self).target_language@,
                self.asr == old(self).asr,
                self.vad == old(self).vad,
                old(self).collaborators_ready() ==> asr_results@.len() == 1
                    && asr_results@[0].text@ == crate::asr::sim_recognition_text()
                    && asr_results@[0].is_final,
                old(self).collaborators_ready() && i == 0 ==> self.mt == old(self).mt,
                old(self).collaborators_ready() && i == 1 ==> {
                    &&& self.mt.contexts() == bounded_push(
                        old(self).mt.contexts(),
                        (crate::asr::sim_recognition_text(), translated_view(
                            crate::asr::sim_recognition_text(),
                        )),
                        old(self).mt.max_context_size as int,
                    )
                    &&& self.mt == (Mt { context_history: self.mt.context_history, ..old(self).mt })
                },
                !(old(self).asr.initialized && old(self).asr.model_loaded) ==> *self == *old(self)
                    && asr_results@.len() == 0,
                forall|j: int| 0 <= j < i ==> reflects_recognition(
                    #[trigger] results@[j],
                    asr_results@[j].text@,
                    asr_results@[j].is_final,
                ),
                forall|j: int| 0 <= j < i ==> (asr_results@[j].is_final ==> #[trigger] results@[j].mt_confidence
                    == 850),
            decreases asr_results@.len() - i,
        {
            let one = self.on_asr_result(&asr_results[i]);
            results.push(one);
            i = i + 1;
        }
        proof {
            if old(self).collaborators_ready() {
                reveal_strlit("simulated translation: ");
            }
        }
        (true, results)
    }

    /// Feeds one frame through recognition.
    ///
    /// A no-op returning `(false, None)` unless Running; when Running the
    /// emitted result reflects the recognizer's single (partial or final)
    /// result for the frame.
    pub fn process_frame(&mut self, audio_frame: &[i16]) -> (r: (bool, Option<TranslationResult>))
        requires
            old(self).wf(),
        ensures
            final(self).wf(),
            r.0 == old(self).running,
            final(self).running == old(self).running,
            final(self).collaborators_ready() == old(self).collaborators_ready(),
            final(self).asr == old(self).asr,
            final(self).vad == old(self).vad,
            !old(self).running ==> r.1 is None && *final(self) == *old(self),
            old(self).running ==> r.1 is Some,
            old(self).running && !(old(self).asr.initialized && old(self).asr.model_loaded)
                ==> reflects_recognition(r.1->Some_0, Seq::<char>::empty(), false),
            old(self).running && old(self).collaborators_ready() ==> reflects_recognition(
                r.1->Some_0,
                crate::asr::sim_frame_recognition_text(),
                false,
            ),
    {
        if !self.running {
            return (false, None);
        }
        let asr_result = self.asr.process_frame(audio_frame);
        let one = self.on_asr_result(&asr_result);
        (true, Some(one))
    }

    /// Turns one recognition result into the emitted translation result: a
    /// partial display result when the recognition is not final, else the
    /// translation of the recognized text with both confidences.
    fn on_asr_result(&mut self, result: &AsrResult) -> (r: TranslationResult)
        requires
            old(self).wf(),
        ensures
            final(self).wf(),
            final(self).running == old(self).running,
            final(self).collaborators_ready() == old(self).collaborators_ready(),
            final(self).source_language@ == old(self).source_language@,
            final(self).target_language@ == old(self).target_language@,
            reflects_recognition(r, result.text@, result.is_final),
            final(self).asr == old(self).asr,
            final(self).vad == old(self).vad,
            !result.is_final ==> r.asr_confidence == result.confidence && *final(self) == *old(self),
            result.is_final ==> r.asr_confidence == 900 && r.mt_confidence == 850,
            result.is_final ==> final(self).mt.contexts() == bounded_push(
                old(self).mt.contexts(),
                (result.text@, translated_view(result.text@)),
                old(self).mt.max_context_size as int,
            ),
            result.is_final ==> final(self).mt == (Mt {
                context_history: final(self).mt.context_history,
                ..old(self).mt
            }),
    {
        if !result.is_final {
            return TranslationResult {
                original_text: result.text.clone(),
                translated_text: String::new(),
                asr_confidence: result.confidence,
                mt_confidence: 0,
                is_partial: true,
                is_final: false,
                timestamp: result.timestamp,
            };
        }
        let source_lang = self.source_language.clone();
        let target_lang = self.target_language.clone();
        let mt_result = self.mt.translate(
            result.text.as_str(),
            Some(source_lang.as_str()),
            Some(target_lang.as_str()),
        );
        TranslationResult {
            original_text: mt_result.source_text,
            translated_text: mt_result.translated_text,
            asr_confidence: 900,
            mt_confidence: mt_result.confidence,
            is_partial: false,
            is_final: true,
            timestamp: now_millis(),
        }
    }

    /// Sets the source-language tag and propagates it to the recognizer;
    /// takes effect for subsequent utterances only.
    pub fn set_source_language(&mut self, lang: &str)
        requires
            old(self).wf(),
        ensures
            final(self).wf(),
            final(self).source_language@ == lang@,
            final(self).target_language@ == old(self).target_language@,
            final(self).asr.language@ == lang@,
            final(self).asr == (Asr { language: final(self).asr.language, ..old(self).asr }),
            final(self).mt == old(self).mt,
            final(self).vad == old(self).vad,
            final(self).running == old(self).running,
            final(self).collaborators_ready() == old(self).collaborators_ready(),
    {
        self.source_language = String::from_str(lang);
        self.asr.set_language(String::from_str(lang));
    }

    /// Sets the target-language tag; takes effect for subsequent utterances.
    pub fn set_target_language(&mut self, lang: &str)
        requires
            old(self).wf(),
        ensures
            final(self).wf(),
            final(self).target_language@ == lang@,
            final(self).source_language@ == old(self).source_language@,
            final(self).asr == old(self).asr,
            final(self).mt == old(self).mt,
            final(self).vad == old(self).vad,
            final(self).running == old(self).running,
            final(self).collaborators_ready() == old(self).collaborators_ready(),
    {
        self.target_language = String::from_str(lang);
    }

    /// Whether the pipeline is Running.
    pub fn is_running(&self) -> (r: bool)
        ensures
            r == self.running,
    {
        self.running
    }
}

} // verus!
