//! Voice input of the pet window: settings, events, levels and the talk key.

use vstd::prelude::*;

use crate::desktop_pet::state::{
    if_due, push_if, ChatRequest, PetAction, PetVoice, VoiceMode, VoicePhase,
};

verus! {

/// What the voice controller reports. Each event carries the revision of the
/// configuration under which it arose.
#[derive(Debug)]
#[allow(inconsistent_fields)]
pub enum VoiceEvent {
    /// The controller is now in `phase`.
    ActivityChanged { revision: u64, phase: VoicePhase },
    SpeechStarted { revision: u64, utterance_id: u64 },
    UtteranceCancelled { revision: u64, utterance_id: u64 },
    TranscriptReady { revision: u64, utterance_id: u64, text: String },
    TranscriptionRequested { revision: u64, utterance_id: u64, model_id: String },
    Error { revision: u64, message: String },
}

impl VoiceEvent {
    /// The revision under which the event arose.
    pub open spec fn event_revision(self) -> u64 {
        match self {
            VoiceEvent::ActivityChanged { revision, .. } => revision,
            VoiceEvent::SpeechStarted { revision, .. } => revision,
            VoiceEvent::UtteranceCancelled { revision, .. } => revision,
            VoiceEvent::TranscriptReady { revision, .. } => revision,
            VoiceEvent::TranscriptionRequested { revision, .. } => revision,
            VoiceEvent::Error { revision, .. } => revision,
        }
    }

    /// Returns the revision under which the event arose.
    pub fn revision(&self) -> (result: u64)
        ensures
            result == self.event_revision(),
    {
        match self {
            VoiceEvent::ActivityChanged { revision, .. } => *revision,
            VoiceEvent::SpeechStarted { revision, .. } => *revision,
            VoiceEvent::UtteranceCancelled { revision, .. } => *revision,
            VoiceEvent::TranscriptReady { revision, .. } => *revision,
            VoiceEvent::TranscriptionRequested { revision, .. } => *revision,
            VoiceEvent::Error { revision, .. } => *revision,
        }
    }
}

impl PetVoice {
    /// Whether the talk key reaches a controller that listens to it.
    pub open spec fn talk_key_works(self) -> bool {
        self.mode.push_to_talk && self.available
    }

    /// The state with level sampling brought in line with the phase.
    pub open spec fn with_levels_synced(self) -> PetVoice {
        PetVoice {
            levels: self.phase == VoicePhase::Recording && (self.levels || self.available),
            ..self
        }
    }

    /// What bringing level sampling in line takes.
    pub open spec fn level_sync_actions(self) -> Seq<PetAction> {
        if self.levels == self.with_levels_synced().levels {
            Seq::empty()
        } else if self.levels {
            seq![PetAction::StopVoiceLevels]
        } else {
            seq![PetAction::StartVoiceLevels]
        }
    }

    /// What letting go of the talk key takes.
    pub open spec fn release_actions(self) -> Seq<PetAction> {
        if_due(self.release_timer, PetAction::StopVoiceReleaseTimer) + if_due(
            self.talk_key_works(),
            PetAction::SetPushToTalk(false),
        )
    }

    /// The state after the settings asked for `mode`. The revision follows once the
    /// controller has been configured.
    pub open spec fn with_settings(self, mode: VoiceMode) -> PetVoice {
        PetVoice {
            mode,
            revision: if self.available {
                self.revision
            } else {
                0
            },
            phase: VoicePhase::Idle,
            levels: false,
            release_timer: false,
            ..self
        }
    }

    /// What a change of settings takes, in a window that is visible or not.
    #[verifier::opaque]
    pub open spec fn settings_actions(self, visible: bool) -> Seq<PetAction> {
        self.release_actions() + if_due(
            self.available,
            PetAction::ConfigureVoice { off: !visible },
        ) + seq![
            PetAction::Chat(ChatRequest::CancelPendingVoice),
            PetAction::Chat(ChatRequest::SetVoiceIndicator(false)),
        ] + if_due(self.playback_available, PetAction::StopPlayback) + if_due(
            self.levels,
            PetAction::StopVoiceLevels,
        ) + seq![PetAction::Notify]
    }

    /// Starts or stops sampling the recording level, as the phase asks.
    pub fn sync_voice_level_task(&mut self) -> (actions: Vec<PetAction>)
        ensures
            *final(self) == old(self).with_levels_synced(),
            actions@ == old(self).level_sync_actions(),
    {
        if self.phase != VoicePhase::Recording {
            if self.levels {
                self.levels = false;
                return vec![PetAction::StopVoiceLevels];
            }
            return Vec::new();
        }
        if self.levels || !self.available {
            return Vec::new();
        }
        self.levels = true;
        vec![PetAction::StartVoiceLevels]
    }

    /// Takes a sampled phase while a recording is watched, and tells whether to go on.
    pub fn sample_voice_level(&mut self, phase: VoicePhase) -> (result: (bool, Vec<PetAction>))
        ensures
            *final(self) == (PetVoice { phase, ..*old(self) }),
            result.0 == (phase == VoicePhase::Recording),
            result.1@ == if_due(phase == VoicePhase::Recording, PetAction::Notify),
    {
        self.phase = phase;
        if self.phase != VoicePhase::Recording {
            return (false, Vec::new());
        }
        (true, vec![PetAction::Notify])
    }

    /// Presses or lets go of the talk key, where there is one.
    pub fn set_push_to_talk(&self, pressed: bool) -> (actions: Vec<PetAction>)
        ensures
            actions@ == if_due(self.talk_key_works(), PetAction::SetPushToTalk(pressed)),
    {
        if self.mode.supports_push_to_talk() && self.available {
            vec![PetAction::SetPushToTalk(pressed)]
        } else {
            Vec::new()
        }
    }

    /// Lets go of the talk key and of the timer that would have done so.
    pub fn release_voice_shortcut(&mut self) -> (actions: Vec<PetAction>)
        ensures
            *final(self) == (PetVoice { release_timer: false, ..*old(self) }),
            actions@ == old(self).release_actions(),
    {
        let mut actions: Vec<PetAction> = Vec::new();
        push_if(&mut actions, self.release_timer, PetAction::StopVoiceReleaseTimer);
        self.release_timer = false;
        let mut release = self.set_push_to_talk(false);
        actions.append(&mut release);
        proof {
            assert(actions@ =~= old(self).release_actions());
        }
        actions
    }

    /// Follows new settings: whatever was spoken under the old ones is dropped. In a
    /// hidden window the controller is switched off.
    pub fn apply_voice_settings(&mut self, mode: VoiceMode, visible: bool) -> (actions: Vec<
        PetAction,
    >)
        ensures
            *final(self) == old(self).with_settings(mode),
            actions@ == old(self).settings_actions(visible),
    {
        let mut actions = self.release_voice_shortcut();
        self.mode = mode;
        if self.available {
            actions.push(PetAction::ConfigureVoice { off: !visible });
        } else {
            self.revision = 0;
        }
        self.phase = VoicePhase::Idle;
        actions.push(PetAction::Chat(ChatRequest::CancelPendingVoice));
        actions.push(PetAction::Chat(ChatRequest::SetVoiceIndicator(false)));
        push_if(&mut actions, self.playback_available, PetAction::StopPlayback);
        let mut levels = self.sync_voice_level_task();
        actions.append(&mut levels);
        actions.push(PetAction::Notify);
        proof {
            reveal(PetVoice::settings_actions);
            assert(actions@ =~= old(self).settings_actions(visible));
        }
        actions
    }

    /// Takes the revision that the controller handed out for its last configuration.
    pub fn voice_configured(&mut self, revision: u64)
        ensures
            *final(self) == (PetVoice { revision, ..*old(self) }),
    {
        self.revision = revision;
    }

    /// The state after an event.
    pub open spec fn after_event(self, event: VoiceEvent) -> PetVoice {
        match event {
            VoiceEvent::ActivityChanged { revision, phase } => if revision == self.revision
                && self.available {
                (PetVoice { phase, ..self }).with_levels_synced()
            } else {
                self
            },
            _ => self,
        }
    }

    /// What an event takes. An event of an earlier configuration takes nothing.
    pub open spec fn event_actions(self, event: VoiceEvent) -> Seq<PetAction> {
        if event.event_revision() != self.revision {
            Seq::empty()
        } else {
            match event {
                VoiceEvent::ActivityChanged { phase, .. } => if self.available {
                    seq![
                        PetAction::Chat(
                            ChatRequest::SetVoiceIndicator(phase != VoicePhase::Idle),
                        ),
                    ] + (PetVoice { phase, ..self }).level_sync_actions() + seq![PetAction::Notify]
                } else {
                    Seq::empty()
                },
                VoiceEvent::SpeechStarted { utterance_id, .. } => if_due(
                    self.playback_available,
                    PetAction::StopPlayback,
                ) + seq![PetAction::Chat(ChatRequest::VoiceSpeechStarted { utterance_id })],
                VoiceEvent::UtteranceCancelled { utterance_id, .. } => seq![
                    PetAction::Chat(ChatRequest::VoiceUtteranceCancelled { utterance_id }),
                ],
                VoiceEvent::TranscriptReady { utterance_id, text, .. } => seq![
                    PetAction::Chat(ChatRequest::VoiceTranscript { utterance_id, text }),
                ],
                VoiceEvent::TranscriptionRequested { revision, utterance_id, model_id } => if_due(
                    self.available,
                    PetAction::Chat(
                        ChatRequest::TranscribeVoice { revision, utterance_id, model_id },
                    ),
                ),
                VoiceEvent::Error { message, .. } => seq![
                    PetAction::Chat(ChatRequest::VoiceFailed { message }),
                ],
            }
        }
    }

    /// Follows an event of the voice controller.
    pub fn handle_voice_event(&mut self, event: VoiceEvent) -> (actions: Vec<PetAction>)
        ensures
            *final(self) == old(self).after_event(event),
            actions@ == old(self).event_actions(event),
    {
        if event.revision() != self.revision {
            return Vec::new();
        }
        match event {
            VoiceEvent::ActivityChanged { phase, .. } => {
                if !self.available {
                    return Vec::new();
                }
                self.phase = phase;
                let recording = match phase {
                    VoicePhase::Recording => true,
                    VoicePhase::Transcribing => true,
                    VoicePhase::Idle => false,
                };
                let mut actions = vec![PetAction::Chat(ChatRequest::SetVoiceIndicator(recording))];
                let mut levels = self.sync_voice_level_task();
                actions.append(&mut levels);
                actions.push(PetAction::Notify);
                proof {
                    assert(actions@ =~= old(self).event_actions(event));
                }
                actions
            },
            VoiceEvent::SpeechStarted { utterance_id, .. } => {
                let mut actions: Vec<PetAction> = Vec::new();
                push_if(&mut actions, self.playback_available, PetAction::StopPlayback);
                actions.push(PetAction::Chat(ChatRequest::VoiceSpeechStarted { utterance_id }));
                proof {
                    assert(actions@ =~= old(self).event_actions(event));
                }
                actions
            },
            VoiceEvent::UtteranceCancelled { utterance_id, .. } => {
                vec![PetAction::Chat(ChatRequest::VoiceUtteranceCancelled { utterance_id })]
            },
            VoiceEvent::TranscriptReady { utterance_id, text, .. } => {
                vec![PetAction::Chat(ChatRequest::VoiceTranscript { utterance_id, text })]
            },
            VoiceEvent::TranscriptionRequested { revision, utterance_id, model_id } => {
                if self.available {
                    vec![
                        PetAction::Chat(
                            ChatRequest::TranscribeVoice { revision, utterance_id, model_id },
                        ),
                    ]
                } else {
                    Vec::new()
                }
            },
            VoiceEvent::Error { message, .. } => {
                vec![PetAction::Chat(ChatRequest::VoiceFailed { message })]
            },
        }
    }

    /// Ends the current voice exchange; `pending_utterance` is what the chat still waits
    /// for.
    pub fn stop_voice_interaction(&self, pending_utterance: Option<u64>) -> (actions: Vec<
        PetAction,
    >)
        ensures
            actions@ == (match pending_utterance {
                Some(utterance_id) => if_due(
                    self.available,
                    PetAction::CancelRemoteTranscription { revision: self.revision, utterance_id },
                ),
                None => Seq::empty(),
            }) + seq![PetAction::Chat(ChatRequest::StopVoiceInteraction)] + if_due(
                self.playback_available,
                PetAction::StopPlayback,
            ) + seq![PetAction::Notify],
    {
        let mut actions: Vec<PetAction> = Vec::new();
        if let Some(utterance_id) = pending_utterance {
            if self.available {
                actions.push(
                    PetAction::CancelRemoteTranscription { revision: self.revision, utterance_id },
                );
            }
        }
        actions.push(PetAction::Chat(ChatRequest::StopVoiceInteraction));
        push_if(&mut actions, self.playback_available, PetAction::StopPlayback);
        actions.push(PetAction::Notify);
        actions
    }

    /// The state after the talk key of the shortcut went down or up.
    pub open spec fn after_shortcut(self, pressed: bool) -> PetVoice {
        PetVoice { release_timer: pressed && self.mode.push_to_talk, ..self }
    }

    /// What the talk key of the shortcut takes.
    #[verifier::opaque]
    pub open spec fn shortcut_actions(self, pressed: bool) -> Seq<PetAction> {
        if pressed && self.mode.push_to_talk {
            self.release_actions() + seq![PetAction::Chat(ChatRequest::VoiceInputPressed)] + if_due(
                self.available,
                PetAction::SetPushToTalk(true),
            ) + seq![PetAction::StartVoiceReleaseTimer]
        } else {
            self.release_actions()
        }
    }

    /// Follows the talk key of the shortcut. A key that is held is let go of by a timer
    /// in the end.
    pub fn set_voice_shortcut_pressed(&mut self, pressed: bool) -> (actions: Vec<PetAction>)
        ensures
            *final(self) == old(self).after_shortcut(pressed),
            actions@ == old(self).shortcut_actions(pressed),
    {
        let mut actions = self.release_voice_shortcut();
        if !pressed || !self.mode.supports_push_to_talk() {
            proof {
                reveal(PetVoice::shortcut_actions);
            }
            return actions;
        }
        actions.push(PetAction::Chat(ChatRequest::VoiceInputPressed));
        let mut press = self.set_push_to_talk(true);
        actions.append(&mut press);
        self.release_timer = true;
        actions.push(PetAction::StartVoiceReleaseTimer);
        proof {
            reveal(PetVoice::shortcut_actions);
            assert(actions@ =~= old(self).shortcut_actions(pressed));
        }
        actions
    }
}

/// An event that arose under an earlier configuration changes nothing and takes
/// nothing.
pub proof fn outdated_voice_event_is_ignored(voice: PetVoice, event: VoiceEvent)
    requires
        event.event_revision() != voice.revision,
    ensures
        voice.after_event(event) == voice,
        voice.event_actions(event) == Seq::<PetAction>::empty(),
{
}

/// After a change of settings nothing is being recorded and no key is held.
pub proof fn settings_end_recording(voice: PetVoice, mode: VoiceMode)
    ensures
        voice.with_settings(mode).phase == VoicePhase::Idle,
        !voice.with_settings(mode).levels,
        !voice.with_settings(mode).release_timer,
{
}

} // verus!
