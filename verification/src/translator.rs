//! Bidirectional translator: two mirrored single-direction pipelines.
//!
//! Pipeline A translates the user's speech into the other party's language;
//! pipeline B translates the other party's speech into the user's language.
//! The direction-explicit entry points `handle_outbound_audio` and
//! `handle_inbound_audio` each route to a fixed pipeline, never consulting
//! the shared direction indicator; that indicator exists only for the legacy
//! single-stream path and is updated as a side effect for compatibility.

use vstd::prelude::*;

use crate::errors::TranslatorError;
use crate::io::audio_capture::AudioCapture;
use crate::asr::sim_recognition_text;
use crate::mt::{bounded_push, translated_view};
use crate::pipeline::{TranslationPipeline, TranslationResult};

verus! {

/// The session's language pair: the user's language and the other party's.
#[derive(Debug)]
pub struct LanguagePair {
    pub source: String,
    pub target: String,
}

impl LanguagePair {
    /// A field-for-field copy.
    pub fn clone(&self) -> (r: LanguagePair)
        ensures
            r.source@ == self.source@,
            r.target@ == self.target@,
    {
        LanguagePair { source: self.source.clone(), target: self.target.clone() }
    }
}

/// Which way a chunk of audio is translated.
#[derive(Debug, Clone, Copy, PartialEq, Eq, Structural)]
pub enum TranslationDirection {
    UserToOther,
    OtherToUser,
}

/// One translation result tagged with its direction.
#[derive(Debug)]
pub struct BidirectionalResult {
    pub original_text: String,
    pub translated_text: String,
    pub direction: TranslationDirection,
    pub timestamp: u64,
}

/// Counters for an embedding application; populated by instrumentation
/// outside this core, so a fresh snapshot reads zero.
#[derive(Debug, Clone, Copy, PartialEq, Eq, Structural)]
pub struct TranslationStats {
    pub total_processed: u64,
    pub successful_translations: u64,
    pub error_count: u64,
    pub avg_latency_ms: u64,
}

/// Owns the two mirrored pipelines, the audio capture, the stored language
/// pair and the legacy shared direction indicator.
pub struct BidirectionalTranslator {
    pub user_to_other_pipeline: TranslationPipeline,
    pub other_to_user_pipeline: TranslationPipeline,
    pub audio_capture: AudioCapture,
    pub current_pair: LanguagePair,
    pub running: bool,
    pub current_direction: TranslationDirection,
}

/// The routed pipeline processed one finalized placeholder utterance: its
/// rolling context grew by that utterance's (source, translation) pair and
/// nothing else of it changed.
pub open spec fn pipeline_processed_one(
    before: TranslationPipeline,
    after: TranslationPipeline,
) -> bool {
    &&& after.mt.contexts() == bounded_push(
        before.mt.contexts(),
        (sim_recognition_text(), translated_view(sim_recognition_text())),
        before.mt.max_context_size as int,
    )
    &&& after.mt == (crate::mt::Mt { context_history: after.mt.context_history, ..before.mt })
    &&& after.asr == before.asr
    &&& after.vad == before.vad
    &&& after.running == before.running
    &&& after.source_language@ == before.source_language@
    &&& after.target_language@ == before.target_language@
}

impl BidirectionalTranslator {
    /// The two pipelines hold mirror-image tags of the stored pair.
    pub open spec fn pipelines_mirrored(&self) -> bool {
        &&& self.user_to_other_pipeline.source_language@ == self.current_pair.source@
        &&& self.user_to_other_pipeline.target_language@ == self.current_pair.target@
        &&& self.other_to_user_pipeline.source_language@ == self.current_pair.target@
        &&& self.other_to_user_pipeline.target_language@ == self.current_pair.source@
    }

    /// Well-formedness: mirrored pipelines, ready collaborators, and
    /// well-formed parts.
    pub open spec fn wf(&self) -> bool {
        &&& self.user_to_other_pipeline.wf()
        &&& self.other_to_user_pipeline.wf()
        &&& self.audio_capture.wf()
        &&& self.pipelines_mirrored()
        &&& self.user_to_other_pipeline.collaborators_ready()
        &&& self.other_to_user_pipeline.collaborators_ready()
        &&& self.running ==> self.user_to_other_pipeline.running
            && self.other_to_user_pipeline.running
    }

    /// Creates a translator for one session: builds both pipelines with
    /// mirror-image tags, initializes their collaborators and the audio
    /// capture. Succeeds on every input, since the built-in model paths are
    /// fixed and non-empty.
    pub fn new(user_lang: &str, other_lang: &str) -> (r: Result<BidirectionalTranslator, TranslatorError>)
        ensures
            r is Ok,
            r->Ok_0.wf(),
            !r->Ok_0.running,
            r->Ok_0.current_pair.source@ == user_lang@,
            r->Ok_0.current_pair.target@ == other_lang@,
            r->Ok_0.current_direction == TranslationDirection::UserToOther,
            !r->Ok_0.user_to_other_pipeline.running,
            !r->Ok_0.other_to_user_pipeline.running,
    {
        proof {
            reveal_strlit("./models/whisper-tiny.bin");
            reveal_strlit("./models/qwen2.5-0.5b.bin");
        }
        let mut user_to_other_pipeline = TranslationPipeline::new(
            String::from_str("./models/whisper-tiny.bin"),
            String::from_str("./models/qwen2.5-0.5b.bin"),
        );
        let mut other_to_user_pipeline = TranslationPipeline::new(
            String::from_str("./models/whisper-tiny.bin"),
            String::from_str("./models/qwen2.5-0.5b.bin"),
        );

        user_to_other_pipeline.set_source_language(user_lang);
        user_to_other_pipeline.set_target_language(other_lang);
        other_to_user_pipeline.set_source_language(other_lang);
        other_to_user_pipeline.set_target_language(user_lang);

        let init_a = user_to_other_pipeline.initialize();
        if let Err(e) = init_a {
            return Err(e);
        }
        let init_b = other_to_user_pipeline.initialize();
        if let Err(e) = init_b {
            return Err(e);
        }

        let mut audio_capture = AudioCapture::new();
        let init_c = audio_capture.initialize();
        if let Err(e) = init_c {
            return Err(e);
        }

        Ok(BidirectionalTranslator {
            user_to_other_pipeline,
            other_to_user_pipeline,
            audio_capture,
            current_pair: LanguagePair {
                source: String::from_str(user_lang),
                target: String::from_str(other_lang),
            },
            running: false,
            current_direction: TranslationDirection::UserToOther,
        })
    }

    /// Starts both pipelines and the audio capture; idempotent. Succeeds
    /// whenever the translator is well formed, since both pipelines'
    /// collaborators are then ready.
    pub fn start(&mut self) -> (r: Result<(), TranslatorError>)
        requires
            old(self).wf(),
        ensures
            final(self).wf(),
            r is Ok,
            final(self).running,
            old(self).running ==> *final(self) == *old(self),
            final(self).current_pair.source@ == old(self).current_pair.source@,
            final(self).current_pair.target@ == old(self).current_pair.target@,
            final(self).current_direction == old(self).current_direction,
            r is Ok ==> final(self).user_to_other_pipeline.running
                && final(self).other_to_user_pipeline.running,
            !old(self).running ==> final(self).audio_capture.capturing,
    {
        if self.running {
            return Ok(());
        }
        let start_a = self.user_to_other_pipeline.start();
        if let Err(e) = start_a {
            return Err(e);
        }
        let start_b = self.other_to_user_pipeline.start();
        if let Err(e) = start_b {
            return Err(e);
        }
        let start_c = self.audio_capture.start();
        if let Err(e) = start_c {
            return Err(e);
        }
        self.running = true;
        Ok(())
    }

    /// Stops the audio capture, then both pipelines; idempotent. Work already
    /// dispatched is not awaited.
    pub fn stop(&mut self) -> (r: Result<(), TranslatorError>)
        requires
            old(self).wf(),
        ensures
            final(self).wf(),
            r is Ok,
            !final(self).running,
            old(self).running ==> !final(self).user_to_other_pipeline.running,
            old(self).running ==> !final(self).other_to_user_pipeline.running,
            old(self).running ==> !final(self).audio_capture.capturing,
            !old(self).running ==> *final(self) == *old(self),
            final(self).current_pair.source@ == old(self).current_pair.source@,
            final(self).current_pair.target@ == old(self).current_pair.target@,
    {
        if !self.running {
            return Ok(());
        }
        let stop_c = self.audio_capture.stop();
        if let Err(e) = stop_c {
            return Err(e);
        }
        let stop_a = self.user_to_other_pipeline.stop();
        if let Err(e) = stop_a {
            return Err(e);
        }
        let stop_b = self.other_to_user_pipeline.stop();
        if let Err(e) = stop_b {
            return Err(e);
        }
        self.running = false;
        Ok(())
    }

    /// Flips the legacy shared direction indicator.
    pub fn switch_direction(&mut self)
        ensures
            final(self).current_direction == (if old(self).current_direction
                == TranslationDirection::UserToOther {
                TranslationDirection::OtherToUser
            } else {
                TranslationDirection::UserToOther
            }),
            *final(self) == (BidirectionalTranslator {
                current_direction: final(self).current_direction,
                ..*old(self)
            }),
    {
        self.current_direction = match self.current_direction {
            TranslationDirection::UserToOther => TranslationDirection::OtherToUser,
            TranslationDirection::OtherToUser => TranslationDirection::UserToOther,
        };
    }

    /// Sets the legacy shared direction indicator to user-to-other.
    pub fn switch_to_user_mode(&mut self)
        ensures
            final(self).current_direction == TranslationDirection::UserToOther,
            *final(self) == (BidirectionalTranslator {
                current_direction: final(self).current_direction,
                ..*old(self)
            }),
    {
        self.current_direction = TranslationDirection::UserToOther;
    }

    /// Atomically updates the stored pair and reconfigures both pipelines to
    /// remain mirror images; translations already in flight keep their tags.
    pub fn update_language_pair(&mut self, user_lang: &str, other_lang: &str) -> (r: Result<
        (),
        TranslatorError,
    >)
        requires
            old(self).wf(),
        ensures
            final(self).wf(),
            r is Ok,
            final(self).current_pair.source@ == user_lang@,
            final(self).current_pair.target@ == other_lang@,
            final(self).pipelines_mirrored(),
            final(self).running == old(self).running,
            final(self).current_direction == old(self).current_direction,
    {
        self.current_pair = LanguagePair {
            source: String::from_str(user_lang),
            target: String::from_str(other_lang),
        };
        self.user_to_other_pipeline.set_source_language(user_lang);
        self.user_to_other_pipeline.set_target_language(other_lang);
        self.other_to_user_pipeline.set_source_language(other_lang);
        self.other_to_user_pipeline.set_target_language(user_lang);
        Ok(())
    }

    /// Whether the translator is running.
    pub fn is_running(&self) -> (r: bool)
        ensures
            r == self.running,
    {
        self.running
    }

    /// The stored language pair.
    pub fn get_current_language_pair(&self) -> (r: LanguagePair)
        ensures
            r.source@ == self.current_pair.source@,
            r.target@ == self.current_pair.target@,
    {
        self.current_pair.clone()
    }

    /// Legacy single-stream entry point: routes by the explicit per-call
    /// flag, never by the shared indicator. A no-op returning no results
    /// unless the translator is running.
    pub fn handle_incoming_audio(&mut self, audio_data: &[i16], is_user_speaking: bool) -> (r: Vec<
        BidirectionalResult,
    >)
        requires
            old(self).wf(),
        ensures
            final(self).wf(),
            !old(self).running ==> r@.len() == 0 && *final(self) == *old(self),
            final(self).current_direction == old(self).current_direction,
            final(self).running == old(self).running,
            is_user_speaking ==> final(self).other_to_user_pipeline
                == old(self).other_to_user_pipeline,
            !is_user_speaking ==> final(self).user_to_other_pipeline
                == old(self).user_to_other_pipeline,
            old(self).running && is_user_speaking && old(self).user_to_other_pipeline.running
                ==> {
                &&& r@.len() == 1
                &&& r@[0].original_text@ == sim_recognition_text()
                &&& r@[0].translated_text@ == translated_view(sim_recognition_text())
                &&& pipeline_processed_one(
                    old(self).user_to_other_pipeline,
                    final(self).user_to_other_pipeline,
                )
            },
            old(self).running && !is_user_speaking && old(self).other_to_user_pipeline.running
                ==> {
                &&& r@.len() == 1
                &&& r@[0].original_text@ == sim_recognition_text()
                &&& r@[0].translated_text@ == translated_view(sim_recognition_text())
                &&& pipeline_processed_one(
                    old(self).other_to_user_pipeline,
                    final(self).other_to_user_pipeline,
                )
            },
            old(self).running && is_user_speaking && !old(self).user_to_other_pipeline.running
                ==> r@.len() == 0 && final(self).user_to_other_pipeline
                == old(self).user_to_other_pipeline,
            old(self).running && !is_user_speaking && !old(self).other_to_user_pipeline.running
                ==> r@.len() == 0 && final(self).other_to_user_pipeline
                == old(self).other_to_user_pipeline,
            forall|i: int| 0 <= i < r@.len() ==> #[trigger] r@[i].direction == (if is_user_speaking {
                TranslationDirection::UserToOther
            } else {
                TranslationDirection::OtherToUser
            }),
    {
        if !self.running {
            return Vec::new();
        }
        if is_user_speaking {
            let (_processed, results) = self.user_to_other_pipeline.process_audio(audio_data);
            tag_results(results, TranslationDirection::UserToOther)
        } else {
            let (_processed, results) = self.other_to_user_pipeline.process_audio(audio_data);
            tag_results(results, TranslationDirection::OtherToUser)
        }
    }

    /// Direction-explicit outbound entry point: always routes to the
    /// user-to-other pipeline, whatever the shared indicator held before the
    /// call; the indicator is set to user-to-other only as a side effect for
    /// the legacy path. The other pipeline is untouched.
    pub fn handle_outbound_audio(&mut self, audio_data: &[i16]) -> (r: Vec<BidirectionalResult>)
        requires
            old(self).wf(),
        ensures
            final(self).wf(),
            final(self).other_to_user_pipeline == old(self).other_to_user_pipeline,
            final(self).current_direction == TranslationDirection::UserToOther,
            final(self).running == old(self).running,
            forall|i: int| 0 <= i < r@.len() ==> #[trigger] r@[i].direction
                == TranslationDirection::UserToOther,
            old(self).user_to_other_pipeline.running ==> {
                &&& r@.len() == 1
                &&& r@[0].original_text@ == sim_recognition_text()
                &&& r@[0].translated_text@ == translated_view(sim_recognition_text())
                &&& r@[0].translated_text@.len() > 0
                &&& pipeline_processed_one(
                    old(self).user_to_other_pipeline,
                    final(self).user_to_other_pipeline,
                )
            },
            !old(self).user_to_other_pipeline.running ==> r@.len() == 0
                && final(self).user_to_other_pipeline == old(self).user_to_other_pipeline,
    {
        self.current_direction = TranslationDirection::UserToOther;
        let (_processed, results) = self.user_to_other_pipeline.process_audio(audio_data);
        tag_results(results, TranslationDirection::UserToOther)
    }

    /// Direction-explicit inbound entry point: always routes to the
    /// other-to-user pipeline, whatever the shared indicator held before the
    /// call; the indicator is set to other-to-user only as a side effect for
    /// the legacy path. The other pipeline is untouched.
    pub fn handle_inbound_audio(&mut self, audio_data: &[i16]) -> (r: Vec<BidirectionalResult>)
        requires
            old(self).wf(),
        ensures
            final(self).wf(),
            final(self).user_to_other_pipeline == old(self).user_to_other_pipeline,
            final(self).current_direction == TranslationDirection::OtherToUser,
            final(self).running == old(self).running,
            forall|i: int| 0 <= i < r@.len() ==> #[trigger] r@[i].direction
                == TranslationDirection::OtherToUser,
            old(self).other_to_user_pipeline.running ==> {
                &&& r@.len() == 1
                &&& r@[0].original_text@ == sim_recognition_text()
                &&& r@[0].translated_text@ == translated_view(sim_recognition_text())
                &&& r@[0].translated_text@.len() > 0
                &&& pipeline_processed_one(
                    old(self).other_to_user_pipeline,
                    final(self).other_to_user_pipeline,
                )
            },
            !old(self).other_to_user_pipeline.running ==> r@.len() == 0
                && final(self).other_to_user_pipeline == old(self).other_to_user_pipeline,
    {
        self.current_direction = TranslationDirection::OtherToUser;
        let (_processed, results) = self.other_to_user_pipeline.process_audio(audio_data);
        tag_results(results, TranslationDirection::OtherToUser)
    }

    /// Simulates the user speaking: sets the indicator and accounts the
    /// chunk in the audio capture.
    pub fn simulate_user_speaking(&mut self, audio_data: &[i16])
        requires
            old(self).wf(),
        ensures
            final(self).wf(),
            final(self).current_direction == TranslationDirection::UserToOther,
            final(self).running == old(self).running,
    {
        self.current_direction = TranslationDirection::UserToOther;
        self.audio_capture.simulate_audio_input(audio_data);
    }

    /// Simulates the other party speaking: sets the indicator and accounts
    /// the chunk in the audio capture.
    pub fn simulate_other_speaking(&mut self, audio_data: &[i16])
        requires
            old(self).wf(),
        ensures
            final(self).wf(),
            final(self).current_direction == TranslationDirection::OtherToUser,
            final(self).running == old(self).running,
    {
        self.current_direction = TranslationDirection::OtherToUser;
        self.audio_capture.simulate_audio_input(audio_data);
    }

    /// A statistics snapshot; this core does not instrument, so all counters
    /// read zero.
    pub fn get_stats(&self) -> (r: TranslationStats)
        ensures
            r == (TranslationStats {
                total_processed: 0u64,
                successful_translations: 0u64,
                error_count: 0u64,
                avg_latency_ms: 0u64,
            }),
    {
        TranslationStats {
            total_processed: 0,
            successful_translations: 0,
            error_count: 0,
            avg_latency_ms: 0,
        }
    }
}

/// Wraps raw pipeline results with a direction tag, keeping order and texts.
fn tag_results(results: Vec<TranslationResult>, direction: TranslationDirection) -> (r: Vec<
    BidirectionalResult,
>)
    ensures
        r@.len() == results@.len(),
        forall|i: int| #![trigger r@[i]] 0 <= i < r@.len() ==> {
            &&& r@[i].direction == direction
            &&& r@[i].original_text@ == results@[i].original_text@
            &&& r@[i].translated_text@ == results@[i].translated_text@
        },
{
    let mut r: Vec<BidirectionalResult> = Vec::new();
    let mut i: usize = 0;
    while i < results.len()
        invariant
            i <= results@.len(),
            r@.len() == i,
            forall|j: int| #![trigger r@[j]] 0 <= j < i ==> {
                &&& r@[j].direction == direction
                &&& r@[j].original_text@ == results@[j].original_text@
                &&& r@[j].translated_text@ == results@[j].translated_text@
            },
        decreases results@.len() - i,
    {
        let item = &results[i];
        let tagged = BidirectionalResult {
            original_text: item.original_text.clone(),
            translated_text: item.translated_text.clone(),
            direction,
            timestamp: item.timestamp,
        };
        r.push(tagged);
        i = i + 1;
    }
    r
}

} // verus!
