//! Voice activity segmenter.
//!
//! A two-state machine over audio frames: Silence and Speech. Speech starts
//! when a frame's mean squared amplitude exceeds the energy threshold; while
//! in speech, frames at or above the threshold are appended to the pending
//! segment and frames below it add to a silence counter. Once that counter
//! reaches the configured maximum the segment ends; a completed segment is
//! handed back only when it is at least the configured minimum duration.

use vstd::prelude::*;

use crate::clock::now_millis;

verus! {

/// Per-frame classification.
#[derive(Debug, Clone, PartialEq, Eq, Structural)]
pub enum VadDecision {
    Speech,
    Silence,
    Unclear,
}

/// Result of classifying one frame.
///
/// `probability` is the speech probability in thousandths (0..=1000), and
/// `timestamp` is in milliseconds.
#[derive(Debug, Clone)]
pub struct VadResult {
    pub decision: VadDecision,
    pub probability: u32,
    pub is_start_of_speech: bool,
    pub is_end_of_speech: bool,
    pub timestamp: u64,
}

/// A completed or pending run of speech samples.
pub type AudioSegment = Vec<i16>;

/// The segmenter's mutable state, as contracts see it.
pub struct VadModel {
    pub in_speech: bool,
    pub silence_ms: int,
    pub segment: Seq<i16>,
}

/// The segmenter's configuration, as contracts see it.
pub struct VadConfig {
    pub threshold: int,
    pub frame_ms: int,
    pub max_silence_ms: int,
    pub min_speech_ms: int,
    pub sample_rate: int,
}

/// Sum of squared sample amplitudes.
pub open spec fn sum_squares(s: Seq<i16>) -> int
    decreases s.len(),
{
    if s.len() == 0 {
        0
    } else {
        sum_squares(s.drop_last()) + (s.last() as int) * (s.last() as int)
    }
}

/// Mean squared amplitude of a frame; an empty frame has energy 0.
pub open spec fn frame_energy(s: Seq<i16>) -> int {
    if s.len() == 0 {
        0
    } else {
        sum_squares(s) / s.len() as int
    }
}

/// Whether a frame's energy exceeds the threshold: such a frame starts
/// speech.
pub open spec fn frame_starts_speech(s: Seq<i16>, threshold: int) -> bool {
    frame_energy(s) > threshold
}

/// Whether a frame's energy is at or above the threshold: while in speech,
/// such a frame is appended to the pending segment.
pub open spec fn frame_extends_speech(s: Seq<i16>, threshold: int) -> bool {
    frame_energy(s) >= threshold
}

/// How the state machine classifies a frame: at or above the threshold
/// while in speech, strictly above it while in silence.
pub open spec fn frame_treated_as_speech(m: VadModel, s: Seq<i16>, threshold: int) -> bool {
    if m.in_speech {
        frame_extends_speech(s, threshold)
    } else {
        frame_starts_speech(s, threshold)
    }
}

/// Speech probability heuristic in thousandths: min(1000, energy / (5 * threshold)).
pub open spec fn speech_probability_permille(energy: int, threshold: int) -> int {
    vstd::math::min(1000, energy * 1000 / (5 * threshold))
}

/// Implied duration of a segment of `len` samples, in milliseconds.
pub open spec fn segment_duration_ms(len: int, sample_rate: int) -> int {
    len * 1000 / sample_rate
}

/// One step of the segmenter's state machine.
pub open spec fn vad_step(m: VadModel, frame: Seq<i16>, cfg: VadConfig) -> VadModel {
    if frame_treated_as_speech(m, frame, cfg.threshold) {
        VadModel {
            in_speech: true,
            silence_ms: if m.in_speech {
                m.silence_ms
            } else {
                0
            },
            segment: if m.in_speech {
                m.segment + frame
            } else {
                frame
            },
        }
    } else if m.in_speech {
        if m.silence_ms + cfg.frame_ms >= cfg.max_silence_ms {
            VadModel { in_speech: false, silence_ms: 0, segment: Seq::empty() }
        } else {
            VadModel { in_speech: true, silence_ms: m.silence_ms + cfg.frame_ms, segment: m.segment }
        }
    } else {
        m
    }
}

/// Whether a step sets `is_start_of_speech`.
pub open spec fn vad_start_flag(m: VadModel, frame: Seq<i16>, cfg: VadConfig) -> bool {
    frame_starts_speech(frame, cfg.threshold) && !m.in_speech
}

/// Whether a step sets `is_end_of_speech`: the frame on which the
/// cumulative sub-threshold duration first reaches the maximum.
pub open spec fn vad_end_flag(m: VadModel, frame: Seq<i16>, cfg: VadConfig) -> bool {
    &&& !frame_extends_speech(frame, cfg.threshold)
    &&& m.in_speech
    &&& m.silence_ms + cfg.frame_ms >= cfg.max_silence_ms
}

/// Whether a step hands back the completed segment: speech ended and the
/// accumulated segment lasts at least the minimum speech duration.
pub open spec fn vad_emits(m: VadModel, frame: Seq<i16>, cfg: VadConfig) -> bool {
    &&& vad_end_flag(m, frame, cfg)
    &&& segment_duration_ms(m.segment.len() as int, cfg.sample_rate) >= cfg.min_speech_ms
}

/// The state after feeding a sequence of frames, one step each.
pub open spec fn vad_run(m: VadModel, frames: Seq<Seq<i16>>, cfg: VadConfig) -> VadModel
    decreases frames.len(),
{
    if frames.len() == 0 {
        m
    } else {
        vad_step(vad_run(m, frames.drop_last(), cfg), frames.last(), cfg)
    }
}

/// Energy-based voice activity segmenter.
pub struct Vad {
    pub sample_rate: u32,
    pub frame_duration_ms: u32,
    pub current_segment: Vec<i16>,
    pub min_speech_duration_ms: u32,
    pub max_silence_duration_ms: u32,
    pub silence_count_ms: u32,
    pub in_speech: bool,
    pub energy_threshold: u64,
}

impl Vad {
    /// The segmenter's mutable state.
    pub open spec fn model(&self) -> VadModel {
        VadModel {
            in_speech: self.in_speech,
            silence_ms: self.silence_count_ms as int,
            segment: self.current_segment@,
        }
    }

    /// The segmenter's configuration.
    pub open spec fn cfg(&self) -> VadConfig {
        VadConfig {
            threshold: self.energy_threshold as int,
            frame_ms: self.frame_duration_ms as int,
            max_silence_ms: self.max_silence_duration_ms as int,
            min_speech_ms: self.min_speech_duration_ms as int,
            sample_rate: self.sample_rate as int,
        }
    }

    /// Well-formedness: a positive sample rate and a usable threshold.
    pub open spec fn wf(&self) -> bool {
        &&& 1 <= self.cfg().threshold <= 0xFFFF_FFFF
        &&& self.cfg().sample_rate >= 1
    }

    /// Creates a segmenter in the Silence state with the default thresholds:
    /// energy 1000, minimum speech 300 ms, maximum silence 800 ms.
    pub fn new(sample_rate: u32, frame_duration_ms: u32) -> (r: Vad)
        requires
            sample_rate >= 1,
        ensures
            r.wf(),
            r.model() == (VadModel { in_speech: false, silence_ms: 0, segment: Seq::<i16>::empty() }),
            r.cfg() == (VadConfig {
                threshold: 1000,
                frame_ms: frame_duration_ms as int,
                max_silence_ms: 800,
                min_speech_ms: 300,
                sample_rate: sample_rate as int,
            }),
            r.sample_rate == sample_rate,
            r.frame_duration_ms == frame_duration_ms,
    {
        Vad {
            sample_rate,
            frame_duration_ms,
            current_segment: Vec::new(),
            min_speech_duration_ms: 300,
            max_silence_duration_ms: 800,
            silence_count_ms: 0,
            in_speech: false,
            energy_threshold: 1000,
        }
    }

    /// Classifies one frame and advances the state machine.
    ///
    /// The returned segment is present exactly when this frame ends a speech
    /// run whose accumulated segment lasts at least the minimum duration; the
    /// pending segment and silence counter are cleared on every speech end,
    /// whether or not the segment was long enough to hand back.
    pub fn process_frame(&mut self, audio_frame: &[i16]) -> (r: (VadResult, Option<AudioSegment>))
        requires
            old(self).wf(),
        ensures
            final(self).wf(),
            final(self).cfg() == old(self).cfg(),
            final(self).model() == vad_step(old(self).model(), audio_frame@, old(self).cfg()),
            r.0.decision == (if frame_treated_as_speech(
                old(self).model(),
                audio_frame@,
                old(self).cfg().threshold,
            ) {
                VadDecision::Speech
            } else {
                VadDecision::Silence
            }),
            r.0.probability as int == speech_probability_permille(
                frame_energy(audio_frame@),
                old(self).cfg().threshold,
            ),
            r.0.is_start_of_speech == vad_start_flag(old(self).model(), audio_frame@, old(self).cfg()),
            r.0.is_end_of_speech == vad_end_flag(old(self).model(), audio_frame@, old(self).cfg()),
            (r.1 is Some) == vad_emits(old(self).model(), audio_frame@, old(self).cfg()),
            r.1 is Some ==> r.1->Some_0@ == old(self).model().segment,
    {
        let energy = frame_energy_exec(audio_frame);
        let is_speech = if self.in_speech {
            energy >= self.energy_threshold
        } else {
            energy > self.energy_threshold
        };

        let scaled: u64 = energy * 1000;
        let denom: u64 = 5 * self.energy_threshold;
        let quotient: u64 = scaled / denom;
        let probability: u32 = if quotient > 1000 {
            1000
        } else {
            quotient as u32
        };

        let mut start_of_speech = false;
        let mut end_of_speech = false;
        let mut emitted: Option<AudioSegment> = None;

        if is_speech {
            if !self.in_speech {
                start_of_speech = true;
                self.in_speech = true;
                self.silence_count_ms = 0;
                self.current_segment = Vec::new();
            }
            append_samples(&mut self.current_segment, audio_frame);
        } else {
            if self.in_speech {
                let count: u64 = self.silence_count_ms as u64 + self.frame_duration_ms as u64;
                if count >= self.max_silence_duration_ms as u64 {
                    end_of_speech = true;
                    let duration: u128 =
                        (self.current_segment.len() as u128) * 1000 / (self.sample_rate as u128);
                    if duration >= self.min_speech_duration_ms as u128 {
                        emitted = Some(copy_samples(&self.current_segment));
                    }
                    self.in_speech = false;
                    self.silence_count_ms = 0;
                    self.current_segment = Vec::new();
                } else {
                    self.silence_count_ms = count as u32;
                }
            }
        }

        let result = VadResult {
            decision: if is_speech {
                VadDecision::Speech
            } else {
                VadDecision::Silence
            },
            probability,
            is_start_of_speech: start_of_speech,
            is_end_of_speech: end_of_speech,
            timestamp: now_millis(),
        };
        (result, emitted)
    }

    /// Clears the accumulation state without touching the configuration.
    pub fn reset(&mut self)
        ensures
            final(self).cfg() == old(self).cfg(),
            final(self).model() == (VadModel {
                in_speech: false,
                silence_ms: 0,
                segment: Seq::<i16>::empty(),
            }),
            final(self).wf() == old(self).wf(),
            final(self).sample_rate == old(self).sample_rate,
            final(self).frame_duration_ms == old(self).frame_duration_ms,
    {
        self.current_segment = Vec::new();
        self.silence_count_ms = 0;
        self.in_speech = false;
    }

    /// The speech samples accumulated so far.
    pub fn get_current_speech_segment(&self) -> (r: AudioSegment)
        ensures
            r@ == self.model().segment,
    {
        copy_samples(&self.current_segment)
    }

    /// Sets the minimum duration a segment must last to be handed back.
    pub fn set_min_speech_duration(&mut self, duration_ms: u32)
        ensures
            final(self).cfg() == (VadConfig { min_speech_ms: duration_ms as int, ..old(self).cfg() }),
            final(self).model() == old(self).model(),
            final(self).wf() == old(self).wf(),
            final(self).sample_rate == old(self).sample_rate,
            final(self).frame_duration_ms == old(self).frame_duration_ms,
    {
        self.min_speech_duration_ms = duration_ms;
    }

    /// Sets how much silence ends a speech run.
    pub fn set_max_silence_duration(&mut self, duration_ms: u32)
        ensures
            final(self).cfg() == (VadConfig { max_silence_ms: duration_ms as int, ..old(self).cfg() }),
            final(self).model() == old(self).model(),
            final(self).wf() == old(self).wf(),
            final(self).sample_rate == old(self).sample_rate,
            final(self).frame_duration_ms == old(self).frame_duration_ms,
    {
        self.max_silence_duration_ms = duration_ms;
    }
}

/// Mean squared amplitude of a frame, computed without overflow.
fn frame_energy_exec(frame: &[i16]) -> (e: u64)
    ensures
        e as int == frame_energy(frame@),
        e <= 0x4000_0000,
{
    let n = frame.len();
    if n == 0 {
        return 0;
    }
    let mut sum: u128 = 0;
    let mut i: usize = 0;
    while i < n
        invariant
            i <= n,
            n == frame@.len(),
            sum as int == sum_squares(frame@.subrange(0, i as int)),
            sum <= (i as u128) * 0x4000_0000,
        decreases n - i,
    {
        let s = frame[i] as i64;
        proof {
            let v = frame@[i as int] as int;
            assert(0 <= v * v <= 0x4000_0000) by (nonlinear_arith)
                requires
                    -0x8000 <= v <= 0x7FFF,
            ;
            assert(sum as int + v * v <= (i + 1) * 0x4000_0000);
            assert((i + 1) * 0x4000_0000 < u128::MAX as int) by (nonlinear_arith)
                requires
                    0 <= i < 0x1_0000_0000_0000_0000,
            ;
            assert(frame@.subrange(0, i + 1 as int).drop_last() =~= frame@.subrange(0, i as int));
        }
        let sq = (s * s) as u128;
        sum = sum + sq;
        i = i + 1;
    }
    proof {
        assert(frame@.subrange(0, n as int) =~= frame@);
        assert(sum as int <= n as int * 0x4000_0000);
        assert(sum as int / n as int <= 0x4000_0000) by (nonlinear_arith)
            requires
                n as int >= 1,
                sum as int >= 0,
                sum as int <= n as int * 0x4000_0000,
        ;
    }
    let e = sum / (n as u128);
    e as u64
}

/// Appends all samples of `data` to `dst`.
pub(crate) fn append_samples(dst: &mut Vec<i16>, data: &[i16])
    ensures
        final(dst)@ == old(dst)@ + data@,
{
    let mut i: usize = 0;
    while i < data.len()
        invariant
            i <= data@.len(),
            dst@ == old(dst)@ + data@.subrange(0, i as int),
        decreases data@.len() - i,
    {
        dst.push(data[i]);
        proof {
            assert(dst@ =~= old(dst)@ + data@.subrange(0, i + 1 as int));
        }
        i = i + 1;
    }
    proof {
        assert(dst@ =~= old(dst)@ + data@);
    }
}

/// Copies a sample buffer.
fn copy_samples(src: &Vec<i16>) -> (r: Vec<i16>)
    ensures
        r@ == src@,
{
    let mut r: Vec<i16> = Vec::new();
    let mut i: usize = 0;
    while i < src.len()
        invariant
            i <= src@.len(),
            r@ == src@.subrange(0, i as int),
        decreases src@.len() - i,
    {
        r.push(src[i]);
        proof {
            assert(r@ =~= src@.subrange(0, i + 1 as int));
        }
        i = i + 1;
    }
    proof {
        assert(r@ =~= src@);
    }
    r
}

/// State of a segmenter that is in speech after feeding `j` sub-threshold
/// frames: the silence counter grows by the frame duration each step until
/// it first reaches the maximum, at which point the machine resets to the
/// Silence state and stays there.
proof fn lemma_silent_run_state(m: VadModel, frames: Seq<Seq<i16>>, cfg: VadConfig, j: int)
    requires
        m.in_speech,
        0 <= m.silence_ms < cfg.max_silence_ms,
        cfg.frame_ms >= 1,
        forall|i: int| 0 <= i < frames.len() ==> frame_energy(frames[i]) < cfg.threshold,
        0 <= j <= frames.len(),
    ensures
        m.silence_ms + j * cfg.frame_ms < cfg.max_silence_ms ==> vad_run(m, frames.take(j), cfg)
            == (VadModel { in_speech: true, silence_ms: m.silence_ms + j * cfg.frame_ms, segment: m.segment }),
        m.silence_ms + j * cfg.frame_ms >= cfg.max_silence_ms ==> vad_run(m, frames.take(j), cfg)
            == (VadModel { in_speech: false, silence_ms: 0, segment: Seq::<i16>::empty() }),
    decreases j,
{
    if j == 0 {
        assert(frames.take(0) =~= Seq::<Seq<i16>>::empty());
        assert(j * cfg.frame_ms == 0);
    } else {
        lemma_silent_run_state(m, frames, cfg, j - 1);
        assert(frames.take(j).drop_last() =~= frames.take(j - 1));
        assert(frames.take(j).last() == frames[j - 1]);
        assert(j * cfg.frame_ms == (j - 1) * cfg.frame_ms + cfg.frame_ms) by (nonlinear_arith);
        assert((j - 1) * cfg.frame_ms <= j * cfg.frame_ms);
        let prev = vad_run(m, frames.take(j - 1), cfg);
        if m.silence_ms + (j - 1) * cfg.frame_ms < cfg.max_silence_ms {
            assert(prev.in_speech && prev.silence_ms == m.silence_ms + (j - 1) * cfg.frame_ms);
        } else {
            assert(!prev.in_speech);
        }
    }
}

/// Law: a frame sequence entirely below the energy threshold, fed to a
/// segmenter that is not in speech, leaves the state unchanged, never sets
/// `is_start_of_speech`, and never hands back a segment.
pub proof fn lemma_all_silence_is_inert(m: VadModel, frames: Seq<Seq<i16>>, cfg: VadConfig)
    requires
        !m.in_speech,
        forall|i: int| 0 <= i < frames.len() ==> frame_energy(frames[i]) < cfg.threshold,
    ensures
        vad_run(m, frames, cfg) == m,
        forall|i: int| 0 <= i < frames.len() ==> !vad_start_flag(
            vad_run(m, frames.take(i), cfg),
            frames[i],
            cfg,
        ),
        forall|i: int| 0 <= i < frames.len() ==> !vad_emits(
            vad_run(m, frames.take(i), cfg),
            frames[i],
            cfg,
        ),
    decreases frames.len(),
{
    if frames.len() > 0 {
        lemma_all_silence_is_inert(m, frames.drop_last(), cfg);
        assert(frames.drop_last() =~= frames.take(frames.len() - 1));
        assert forall|i: int| 0 <= i < frames.len() implies !vad_start_flag(
            vad_run(m, frames.take(i), cfg),
            frames[i],
            cfg,
        ) && !vad_emits(vad_run(m, frames.take(i), cfg), frames[i], cfg) by {
            if i < frames.len() - 1 {
                assert(frames.take(i) =~= frames.drop_last().take(i));
                assert(frames[i] == frames.drop_last()[i]);
            } else {
                assert(frames.take(i) =~= frames.drop_last());
                assert(vad_run(m, frames.take(i), cfg) == m);
            }
        }
    }
}

/// Law: while in speech, over a run of sub-threshold frames,
/// `is_end_of_speech` fires on exactly the frame where the cumulative
/// sub-threshold duration first reaches the maximum silence duration,
/// never earlier and never again afterwards.
pub proof fn lemma_end_of_speech_fires_exactly_at_threshold(
    m: VadModel,
    frames: Seq<Seq<i16>>,
    cfg: VadConfig,
    k: int,
)
    requires
        m.in_speech,
        0 <= m.silence_ms < cfg.max_silence_ms,
        cfg.frame_ms >= 1,
        forall|i: int| 0 <= i < frames.len() ==> frame_energy(frames[i]) < cfg.threshold,
        0 <= k < frames.len(),
    ensures
        vad_end_flag(vad_run(m, frames.take(k), cfg), frames[k], cfg) <==> {
            &&& m.silence_ms + (k + 1) * cfg.frame_ms >= cfg.max_silence_ms
            &&& m.silence_ms + k * cfg.frame_ms < cfg.max_silence_ms
        },
{
    lemma_silent_run_state(m, frames, cfg, k);
    assert((k + 1) * cfg.frame_ms == k * cfg.frame_ms + cfg.frame_ms) by (nonlinear_arith);
}

} // verus!
