//! Audio switchboard: wires four endpoints onto two translation directions.
//!
//! Topology (the rule that prevents self-translation): the outbound leg runs
//! physical microphone -> user-to-other translation -> virtual-cable output,
//! which a conferencing application reads as its microphone; the inbound leg
//! runs virtual-cable/system-loopback input -> other-to-user translation ->
//! physical headphones. The status is informational only and never gates
//! routing. Control messages queue up and are applied one per control-loop
//! iteration; `SetLanguagePair` is the only variant with a wired effect, the
//! others are deliberate stubs.

use vstd::prelude::*;

use crate::asr::sim_recognition_text;
use crate::errors::TranslatorError;
use crate::io::audio_device::{AudioDevice, MockAudioDevice};
use crate::io::virtual_audio_device::VirtualAudioDevice;
use crate::mt::translated_view;
use crate::translator::{
    pipeline_processed_one, BidirectionalResult, BidirectionalTranslator, TranslationDirection,
};

verus! {

/// Informational processing state; it does not gate routing.
#[derive(Debug, Clone, Copy, PartialEq, Eq, Structural)]
pub enum AudioSwitchboardStatus {
    Idle,
    ProcessingOutbound,
    ProcessingInbound,
    Correcting,
}

/// A runtime reconfiguration message, delivered in order to one control loop.
#[derive(Debug)]
pub enum AudioControl {
    Start,
    Stop,
    ToggleMute,
    SetLanguagePair(String, String),
    StatusRequest,
}

/// Owns the four endpoints and the bidirectional translator; endpoints are
/// opened at `start()` and closed at `stop()`.
pub struct AudioSwitchboard {
    pub translator: BidirectionalTranslator,
    pub physical_mic: Option<MockAudioDevice>,
    pub physical_headphones: Option<MockAudioDevice>,
    pub virtual_cable_input: Option<VirtualAudioDevice>,
    pub virtual_cable_output: Option<VirtualAudioDevice>,
    pub status: AudioSwitchboardStatus,
    pub pending_controls: Vec<AudioControl>,
}

impl AudioSwitchboard {
    /// Well-formedness of the owned translator.
    pub open spec fn wf(&self) -> bool {
        self.translator.wf()
    }

    /// All four endpoints exist.
    pub open spec fn devices_present(&self) -> bool {
        &&& self.physical_mic is Some
        &&& self.physical_headphones is Some
        &&& self.virtual_cable_input is Some
        &&& self.virtual_cable_output is Some
    }

    /// Both legs are wired: the microphone and the loopback input record,
    /// and both output streams are open.
    pub open spec fn legs_wired(&self) -> bool {
        &&& self.devices_present()
        &&& self.physical_mic->Some_0.recording
        &&& self.physical_mic->Some_0.input_open
        &&& self.virtual_cable_input->Some_0.output_open
        &&& self.virtual_cable_output->Some_0.recording
        &&& self.virtual_cable_output->Some_0.input_open
        &&& self.physical_headphones->Some_0.output_open
    }

    /// Every endpoint is closed and silent.
    pub open spec fn endpoints_closed(&self) -> bool {
        &&& (self.physical_mic is Some ==> !self.physical_mic->Some_0.recording
            && !self.physical_mic->Some_0.input_open)
        &&& (self.physical_headphones is Some ==> !self.physical_headphones->Some_0.output_open)
        &&& (self.virtual_cable_input is Some ==> !self.virtual_cable_input->Some_0.recording
            && !self.virtual_cable_input->Some_0.input_open
            && !self.virtual_cable_input->Some_0.output_open)
        &&& (self.virtual_cable_output is Some ==> !self.virtual_cable_output->Some_0.recording
            && !self.virtual_cable_output->Some_0.input_open)
    }

    /// Creates a switchboard for one session: a translator for the pair, no
    /// endpoints yet, status Idle, no pending control messages.
    pub fn new(user_language: &str, other_language: &str) -> (r: Result<
        AudioSwitchboard,
        TranslatorError,
    >)
        ensures
            r is Ok,
            r->Ok_0.wf(),
            r->Ok_0.status == AudioSwitchboardStatus::Idle,
            r->Ok_0.translator.current_pair.source@ == user_language@,
            r->Ok_0.translator.current_pair.target@ == other_language@,
            !r->Ok_0.translator.running,
            r->Ok_0.pending_controls@.len() == 0,
            !r->Ok_0.devices_present(),
    {
        let translator_result = BidirectionalTranslator::new(user_language, other_language);
        let translator = match translator_result {
            Ok(t) => t,
            Err(e) => {
                return Err(e);
            },
        };
        Ok(AudioSwitchboard {
            translator,
            physical_mic: None,
            physical_headphones: None,
            virtual_cable_input: None,
            virtual_cable_output: None,
            status: AudioSwitchboardStatus::Idle,
            pending_controls: Vec::new(),
        })
    }

    /// Creates the four endpoints: mock physical microphone and headphones,
    /// and the two virtual cable ends.
    pub fn initialize_devices(&mut self) -> (r: Result<(), TranslatorError>)
        requires
            old(self).wf(),
        ensures
            final(self).wf(),
            r is Ok,
            final(self).devices_present(),
            final(self).translator == old(self).translator,
            final(self).status == old(self).status,
            final(self).pending_controls@ == old(self).pending_controls@,
            !final(self).physical_mic->Some_0.recording,
            !final(self).virtual_cable_output->Some_0.recording,
            final(self).virtual_cable_input->Some_0.input_device_id@ == "virtual_mic_input"@,
            final(self).virtual_cable_input->Some_0.output_device_id@ == "virtual_mic_output"@,
            final(self).virtual_cable_output->Some_0.input_device_id@ == "virtual_spk_input"@,
            final(self).virtual_cable_output->Some_0.output_device_id@ == "virtual_spk_output"@,
    {
        self.physical_mic = Some(MockAudioDevice::new());
        self.physical_headphones = Some(MockAudioDevice::new());
        self.virtual_cable_input = Some(
            VirtualAudioDevice::new(
                "virtual_mic_input",
                "virtual_mic_output",
                crate::audio_types::SAMPLE_RATE,
                crate::audio_types::CHANNELS,
            ),
        );
        self.virtual_cable_output = Some(
            VirtualAudioDevice::new(
                "virtual_spk_input",
                "virtual_spk_output",
                crate::audio_types::SAMPLE_RATE,
                crate::audio_types::CHANNELS,
            ),
        );
        Ok(())
    }

    /// Wires the outbound leg: opens and starts the physical microphone's
    /// input stream and opens the virtual-cable output that a conferencing
    /// application reads as its microphone.
    fn setup_outbound_pipeline(&mut self) -> (r: Result<(), TranslatorError>)
        requires
            old(self).wf(),
            old(self).devices_present(),
        ensures
            final(self).wf(),
            r is Ok,
            final(self).devices_present(),
            final(self).translator == old(self).translator,
            final(self).status == old(self).status,
            final(self).pending_controls@ == old(self).pending_controls@,
            final(self).physical_mic->Some_0.recording,
            final(self).physical_mic->Some_0.input_open,
            final(self).virtual_cable_input->Some_0.output_open,
            final(self).physical_headphones == old(self).physical_headphones,
            final(self).virtual_cable_output == old(self).virtual_cable_output,
            final(self).virtual_cable_input->Some_0.recording == old(
                self,
            ).virtual_cable_input->Some_0.recording,
            final(self).virtual_cable_input->Some_0.input_open == old(
                self,
            ).virtual_cable_input->Some_0.input_open,
    {
        match &mut self.physical_mic {
            Some(mic) => {
                let open_result = mic.open_input_stream(Some(String::from_str("physical_mic")));
                if let Err(e) = open_result {
                    return Err(e);
                }
                let rec_result = mic.start_recording();
                if let Err(e) = rec_result {
                    return Err(e);
                }
            },
            None => {
                return Err(TranslatorError::Device);
            },
        }
        match &mut self.virtual_cable_input {
            Some(virtual_mic) => {
                let open_result = virtual_mic.open_output_stream(
                    Some(String::from_str("virtual_mic_output")),
                );
                if let Err(e) = open_result {
                    return Err(e);
                }
            },
            None => {
                return Err(TranslatorError::Device);
            },
        }
        Ok(())
    }

    /// Wires the inbound leg: opens and starts the system-loopback input on
    /// the virtual cable and opens the physical headphones' output stream.
    fn setup_inbound_pipeline(&mut self) -> (r: Result<(), TranslatorError>)
        requires
            old(self).wf(),
            old(self).devices_present(),
        ensures
            final(self).wf(),
            r is Ok,
            final(self).devices_present(),
            final(self).translator == old(self).translator,
            final(self).status == old(self).status,
            final(self).pending_controls@ == old(self).pending_controls@,
            final(self).virtual_cable_output->Some_0.recording,
            final(self).virtual_cable_output->Some_0.input_open,
            final(self).physical_headphones->Some_0.output_open,
            final(self).physical_mic == old(self).physical_mic,
            final(self).virtual_cable_input == old(self).virtual_cable_input,
    {
        match &mut self.virtual_cable_output {
            Some(virtual_spk) => {
                let open_result = virtual_spk.open_input_stream(
                    Some(String::from_str("virtual_spk_input")),
                );
                if let Err(e) = open_result {
                    return Err(e);
                }
                let rec_result = virtual_spk.start_recording();
                if let Err(e) = rec_result {
                    return Err(e);
                }
            },
            None => {
                return Err(TranslatorError::Device);
            },
        }
        match &mut self.physical_headphones {
            Some(headphones) => {
                let open_result = headphones.open_output_stream(
                    Some(String::from_str("physical_headphones")),
                );
                if let Err(e) = open_result {
                    return Err(e);
                }
            },
            None => {
                return Err(TranslatorError::Device);
            },
        }
        Ok(())
    }

    /// Starts the switchboard: creates the endpoints and wires both legs.
    /// The status is set to Idle; the control loop is driven by the embedder
    /// through `run_control_iteration`.
    pub fn start(&mut self) -> (r: Result<(), TranslatorError>)
        requires
            old(self).wf(),
        ensures
            final(self).wf(),
            r is Ok,
            final(self).status == AudioSwitchboardStatus::Idle,
            final(self).legs_wired(),
            final(self).translator == old(self).translator,
            final(self).pending_controls@ == old(self).pending_controls@,
    {
        self.status = AudioSwitchboardStatus::Idle;
        let init_result = self.initialize_devices();
        if let Err(e) = init_result {
            return Err(e);
        }
        let outbound_result = self.setup_outbound_pipeline();
        if let Err(e) = outbound_result {
            return Err(e);
        }
        let inbound_result = self.setup_inbound_pipeline();
        if let Err(e) = inbound_result {
            return Err(e);
        }
        Ok(())
    }

    /// Stops the switchboard: sequentially closes and stops all four
    /// endpoints and sets the status back to Idle. In-flight background work
    /// is not joined.
    pub fn stop(&mut self) -> (r: Result<(), TranslatorError>)
        requires
            old(self).wf(),
        ensures
            final(self).wf(),
            r is Ok,
            final(self).status == AudioSwitchboardStatus::Idle,
            final(self).endpoints_closed(),
            final(self).translator == old(self).translator,
            final(self).pending_controls@ == old(self).pending_controls@,
            final(self).devices_present() == old(self).devices_present(),
    {
        self.status = AudioSwitchboardStatus::Idle;
        match &mut self.physical_mic {
            Some(mic) => {
                let r1 = mic.stop_recording();
                if let Err(e) = r1 {
                    return Err(e);
                }
                let r2 = mic.close_input_stream();
                if let Err(e) = r2 {
                    return Err(e);
                }
            },
            None => {},
        }
        match &mut self.physical_headphones {
            Some(headphones) => {
                let r1 = headphones.close_output_stream();
                if let Err(e) = r1 {
                    return Err(e);
                }
            },
            None => {},
        }
        match &mut self.virtual_cable_input {
            Some(virtual_mic) => {
                let r1 = virtual_mic.stop_recording();
                if let Err(e) = r1 {
                    return Err(e);
                }
                let r2 = virtual_mic.close_input_stream();
                if let Err(e) = r2 {
                    return Err(e);
                }
                let r3 = virtual_mic.close_output_stream();
                if let Err(e) = r3 {
                    return Err(e);
                }
            },
            None => {},
        }
        match &mut self.virtual_cable_output {
            Some(virtual_spk) => {
                let r1 = virtual_spk.stop_recording();
                if let Err(e) = r1 {
                    return Err(e);
                }
                let r2 = virtual_spk.close_input_stream();
                if let Err(e) = r2 {
                    return Err(e);
                }
            },
            None => {},
        }
        Ok(())
    }

    /// The informational status.
    pub fn get_status(&self) -> (r: AudioSwitchboardStatus)
        ensures
            r == self.status,
    {
        self.status
    }

    /// Queues one control message for the control loop.
    pub fn send_control(&mut self, control: AudioControl) -> (r: Result<(), TranslatorError>)
        ensures
            r is Ok,
            final(self).pending_controls@ == old(self).pending_controls@.push(control),
            final(self).translator == old(self).translator,
            final(self).status == old(self).status,
            *final(self) == (AudioSwitchboard {
                pending_controls: final(self).pending_controls,
                ..*old(self)
            }),
    {
        self.pending_controls.push(control);
        Ok(())
    }

    /// Applies one control message. `SetLanguagePair` reconfigures the
    /// translator's pair (both pipelines staying mirror images); `Start`,
    /// `Stop`, `ToggleMute` and `StatusRequest` are deliberate stubs that
    /// change nothing.
    fn apply_control(&mut self, control: AudioControl) -> (r: Result<(), TranslatorError>)
        requires
            old(self).wf(),
        ensures
            final(self).wf(),
            r is Ok,
            final(self).status == old(self).status,
            final(self).pending_controls@ == old(self).pending_controls@,
            control matches AudioControl::SetLanguagePair(src, tgt) ==> {
                &&& final(self).translator.current_pair.source@ == src@
                &&& final(self).translator.current_pair.target@ == tgt@
                &&& final(self).translator.pipelines_mirrored()
                &&& final(self).translator.running == old(self).translator.running
            },
            !(control matches AudioControl::SetLanguagePair(..)) ==> *final(self) == *old(self),
    {
        match control {
            AudioControl::SetLanguagePair(src, tgt) => {
                let update = self.translator.update_language_pair(src.as_str(), tgt.as_str());
                if let Err(e) = update {
                    return Err(e);
                }
                Ok(())
            },
            AudioControl::Start => Ok(()),
            AudioControl::Stop => Ok(()),
            AudioControl::ToggleMute => Ok(()),
            AudioControl::StatusRequest => Ok(()),
        }
    }

    /// Runs one control-loop iteration: takes the oldest pending message and
    /// applies it. Returns false, changing nothing, when no message waits.
    pub fn run_control_iteration(&mut self) -> (r: bool)
        requires
            old(self).wf(),
        ensures
            final(self).wf(),
            r == (old(self).pending_controls@.len() > 0),
            !r ==> *final(self) == *old(self),
            r ==> final(self).pending_controls@ == old(self).pending_controls@.skip(1),
            r ==> final(self).status == old(self).status,
            r ==> (old(self).pending_controls@[0] matches AudioControl::SetLanguagePair(src, tgt)
                ==> {
                &&& final(self).translator.current_pair.source@ == src@
                &&& final(self).translator.current_pair.target@ == tgt@
                &&& final(self).translator.pipelines_mirrored()
            }),
            r ==> (!(old(self).pending_controls@[0] matches AudioControl::SetLanguagePair(..))
                ==> final(self).translator == old(self).translator),
    {
        if self.pending_controls.len() == 0 {
            return false;
        }
        let control = self.pending_controls.remove(0);
        let apply_result = self.apply_control(control);
        if let Err(_e) = apply_result {
            return true;
        }
        true
    }

    /// Hands a chunk from the physical microphone to the outbound leg:
    /// always the user-to-other pipeline, whatever the shared indicator
    /// held; the inbound pipeline is untouched.
    pub fn simulate_physical_mic_input(&mut self, audio_data: &[i16]) -> (r: Vec<
        BidirectionalResult,
    >)
        requires
            old(self).wf(),
        ensures
            final(self).wf(),
            forall|i: int| 0 <= i < r@.len() ==> #[trigger] r@[i].direction
                == TranslationDirection::UserToOther,
            final(self).translator.other_to_user_pipeline == old(
                self,
            ).translator.other_to_user_pipeline,
            old(self).translator.user_to_other_pipeline.running ==> {
                &&& r@.len() == 1
                &&& r@[0].original_text@ == sim_recognition_text()
                &&& r@[0].translated_text@ == translated_view(sim_recognition_text())
                &&& pipeline_processed_one(
                    old(self).translator.user_to_other_pipeline,
                    final(self).translator.user_to_other_pipeline,
                )
            },
            !old(self).translator.user_to_other_pipeline.running ==> r@.len() == 0
                && final(self).translator.user_to_other_pipeline
                == old(self).translator.user_to_other_pipeline,
            final(self).status == old(self).status,
    {
        self.translator.handle_outbound_audio(audio_data)
    }

    /// Hands a chunk from the system loopback to the inbound leg: always the
    /// other-to-user pipeline, whatever the shared indicator held; the
    /// outbound pipeline is untouched.
    pub fn simulate_system_loopback_input(&mut self, audio_data: &[i16]) -> (r: Vec<
        BidirectionalResult,
    >)
        requires
            old(self).wf(),
        ensures
            final(self).wf(),
            forall|i: int| 0 <= i < r@.len() ==> #[trigger] r@[i].direction
                == TranslationDirection::OtherToUser,
            final(self).translator.user_to_other_pipeline == old(
                self,
            ).translator.user_to_other_pipeline,
            old(self).translator.other_to_user_pipeline.running ==> {
                &&& r@.len() == 1
                &&& r@[0].original_text@ == sim_recognition_text()
                &&& r@[0].translated_text@ == translated_view(sim_recognition_text())
                &&& pipeline_processed_one(
                    old(self).translator.other_to_user_pipeline,
                    final(self).translator.other_to_user_pipeline,
                )
            },
            !old(self).translator.other_to_user_pipeline.running ==> r@.len() == 0
                && final(self).translator.other_to_user_pipeline
                == old(self).translator.other_to_user_pipeline,
            final(self).status == old(self).status,
    {
        self.translator.handle_inbound_audio(audio_data)
    }
}

} // verus!
