//! Voice input and speech output, and keeping what comes late apart from what is current.

use vstd::prelude::*;

use crate::agent::message::{AppLanguage, ChatMessageState};
use crate::agent::reply::ThinkingFeedback;
use crate::agent::screenshot::AgentGrants;
use crate::agent::view::{
    AgentAction, AgentPanel, AgentStatus, AgentView, AgentVoice, RemoteTranscriptionRequest,
};
use crate::revision::{next_revision, revision_after};
use crate::settings::llm::{LlmSettings, LlmSettingsView};
use crate::settings::persona::config::{PersonaConfig, PersonaView};

verus! {

impl AgentView {
    /// The overlay with no transcription under way.
    pub open spec fn without_transcription(self) -> AgentView {
        AgentView { voice: AgentVoice { transcription: None, ..self.voice }, ..self }
    }

    /// What stopping a transcription takes.
    pub open spec fn stop_transcription_actions(self) -> Seq<AgentAction> {
        match self.voice.transcription {
            Some(request) => seq![
                AgentAction::CancelTranscription {
                    revision: request.revision,
                    utterance_id: request.utterance_id,
                },
            ],
            None => Seq::empty(),
        }
    }

    /// Stops a transcription.
    pub fn cancel_remote_transcription(&mut self) -> (actions: Vec<AgentAction>)
        ensures
            *final(self) == old(self).without_transcription(),
            actions@ == old(self).stop_transcription_actions(),
    {
        match self.voice.transcription {
            Some(request) => {
                self.voice.transcription = None;
                vec![
                    AgentAction::CancelTranscription {
                        revision: request.revision,
                        utterance_id: request.utterance_id,
                    },
                ]
            },
            None => Vec::new(),
        }
    }

    /// The overlay with nothing being heard or said.
    pub open spec fn silenced(self) -> AgentView {
        self.without_transcription().without_speech()
    }

    /// What hearing and saying nothing takes.
    pub open spec fn silence_actions(self) -> Seq<AgentAction> {
        self.stop_transcription_actions() + self.stop_speech_actions()
    }

    fn silence(&mut self) -> (actions: Vec<AgentAction>)
        ensures
            *final(self) == old(self).silenced(),
            actions@ == old(self).silence_actions(),
    {
        let mut actions = self.cancel_remote_transcription();
        let mut speech = self.cancel_speech();
        actions.append(&mut speech);
        actions
    }

    /// What somebody beginning to speak takes. Where the configuration has changed, it is
    /// taken up first, and what is spoken is not heard.
    pub open spec fn speech_started_actions(
        self,
        utterance_id: u64,
        language: AppLanguage,
        generation: u64,
    ) -> Seq<AgentAction> {
        self.silence_actions() + (if generation != self.config.generation {
            seq![AgentAction::StopSpeech, AgentAction::RefreshSettings]
        } else {
            seq![
                AgentAction::StopSpeech,
                AgentAction::VoiceStarted { utterance_id, language },
                AgentAction::SyncSnapshot,
                AgentAction::Notify,
            ]
        })
    }

    /// Listens to somebody who has begun to speak; `generation` is that of the configuration.
    pub fn voice_speech_started(
        &mut self,
        utterance_id: u64,
        language: AppLanguage,
        generation: u64,
    ) -> (actions: Vec<AgentAction>)
        ensures
            *final(self) == old(self).silenced(),
            actions@ == old(self).speech_started_actions(utterance_id, language, generation),
    {
        let mut actions = self.silence();
        let mut rest = if generation != self.config.generation {
            vec![AgentAction::StopSpeech, AgentAction::RefreshSettings]
        } else {
            vec![
                AgentAction::StopSpeech,
                AgentAction::VoiceStarted { utterance_id, language },
                AgentAction::SyncSnapshot,
                AgentAction::Notify,
            ]
        };
        actions.append(&mut rest);
        actions
    }

    /// Falls silent as the talk key goes down, before anything is heard.
    pub fn voice_input_pressed(&mut self) -> (actions: Vec<AgentAction>)
        ensures
            *final(self) == old(self).without_speech(),
            actions@ == old(self).stop_speech_actions().push(AgentAction::StopSpeech),
    {
        let mut actions = self.cancel_speech();
        actions.push(AgentAction::StopSpeech);
        actions
    }

    /// Sends what was spoken, and tells whether it was sent. `language` is that in which it
    /// was spoken; it is missing where what was spoken is no longer wanted.
    pub fn send_voice_transcript(
        &mut self,
        language: Option<AppLanguage>,
        text: String,
        grants: AgentGrants,
    ) -> (sent: (bool, Vec<AgentAction>))
        ensures
            match language {
                Some(language) => {
                    &&& sent.0 == old(self).snapshot.takes_messages()
                    &&& *final(self) == old(self).after_send(Some(ThinkingFeedback::Voice))
                    &&& sent.1@ == old(self).send_actions(text, None, language, grants)
                },
                None => {
                    &&& !sent.0
                    &&& *final(self) == *old(self)
                    &&& sent.1@ == Seq::<AgentAction>::empty()
                },
            },
    {
        let Some(language) = language else {
            return (false, Vec::new());
        };
        self.send_message(text, None, language, Some(ThinkingFeedback::Voice), grants)
    }

    /// Whether the transcription under way is of what was spoken under a number.
    pub open spec fn transcribes(self, utterance_id: u64) -> bool {
        self.voice.transcription matches Some(request) && request.utterance_id == utterance_id
    }

    /// Forgets what was spoken under a number.
    pub fn voice_utterance_cancelled(&mut self, utterance_id: u64) -> (actions: Vec<AgentAction>)
        ensures
            ({
                let stopped = if old(self).transcribes(utterance_id) {
                    old(self).without_transcription()
                } else {
                    *old(self)
                };
                let stop = if old(self).transcribes(utterance_id) {
                    old(self).stop_transcription_actions()
                } else {
                    Seq::empty()
                };
                &&& *final(self) == stopped.without_speech()
                &&& actions@ == (stop + old(self).stop_speech_actions()).push(
                    AgentAction::CancelVoice { utterance_id },
                )
            }),
    {
        let current = match self.voice.transcription {
            Some(request) => request.utterance_id == utterance_id,
            None => false,
        };
        let mut actions: Vec<AgentAction> = Vec::new();
        if current {
            actions = self.cancel_remote_transcription();
        }
        let mut speech = self.cancel_speech();
        actions.append(&mut speech);
        actions.push(AgentAction::CancelVoice { utterance_id });
        actions
    }

    /// Forgets whatever was spoken.
    pub fn cancel_pending_voice(&mut self) -> (actions: Vec<AgentAction>)
        ensures
            *final(self) == old(self).silenced(),
            actions@ == old(self).silence_actions().push(AgentAction::CancelPendingVoice),
    {
        let mut actions = self.silence();
        actions.push(AgentAction::CancelPendingVoice);
        actions
    }

    /// Has a model turn what was spoken into text. What was under way before is outdated.
    pub fn transcribe_voice(
        &mut self,
        revision: u64,
        utterance_id: u64,
        model_id: &String,
        settings: &LlmSettings,
    ) -> (actions: Vec<AgentAction>)
        ensures
            match settings@.position_of(model_id@) {
                Some(index) => {
                    &&& *final(self) == (AgentView {
                        voice: AgentVoice {
                            transcription: Some(
                                RemoteTranscriptionRequest { revision, utterance_id },
                            ),
                            ..old(self).silenced().voice
                        },
                        ..*old(self)
                    })
                    &&& actions@ == old(self).silence_actions() + seq![
                        AgentAction::StopSpeech,
                        AgentAction::Transcribe { revision, utterance_id, model: index as usize },
                    ]
                },
                None => {
                    &&& *final(self) == old(self).silenced()
                    &&& actions@ == old(self).silence_actions() + seq![
                        AgentAction::StopSpeech,
                        AgentAction::ReportMissingModel { revision, utterance_id },
                    ]
                },
            },
    {
        let mut actions = self.silence();
        let mut rest = match settings.model_index(model_id) {
            Some(model) => {
                self.voice.transcription = Some(
                    RemoteTranscriptionRequest { revision, utterance_id },
                );
                vec![
                    AgentAction::StopSpeech,
                    AgentAction::Transcribe { revision, utterance_id, model },
                ]
            },
            None => vec![
                AgentAction::StopSpeech,
                AgentAction::ReportMissingModel { revision, utterance_id },
            ],
        };
        actions.append(&mut rest);
        actions
    }

    /// Whether a transcription is the one under way.
    pub open spec fn awaits_transcription(self, revision: u64, utterance_id: u64) -> bool {
        self.voice.transcription == Some(RemoteTranscriptionRequest { revision, utterance_id })
    }

    /// Passes on what a transcription came to, unless it is outdated.
    pub fn transcription_finished(&mut self, revision: u64, utterance_id: u64) -> (actions: Vec<
        AgentAction,
    >)
        ensures
            old(self).awaits_transcription(revision, utterance_id) ==> {
                &&& *final(self) == old(self).without_transcription()
                &&& actions@ == seq![AgentAction::CompleteTranscription { revision, utterance_id }]
            },
            !old(self).awaits_transcription(revision, utterance_id) ==> {
                &&& *final(self) == *old(self)
                &&& actions@ == Seq::<AgentAction>::empty()
            },
    {
        match self.voice.transcription {
            Some(request) => {
                if request.revision == revision && request.utterance_id == utterance_id {
                    self.voice.transcription = None;
                    return vec![AgentAction::CompleteTranscription { revision, utterance_id }];
                }
                Vec::new()
            },
            None => Vec::new(),
        }
    }

    /// Reports that voice input failed.
    pub fn voice_failed(&mut self, message: String) -> (actions: Vec<AgentAction>)
        ensures
            *final(self) == old(self).silenced(),
            actions@ == old(self).silence_actions() + seq![
                AgentAction::StopSpeech,
                AgentAction::CancelPendingVoice,
                AgentAction::SetStatus(Some(AgentStatus::Text(message))),
                AgentAction::SyncSnapshot,
            ],
    {
        let mut actions = self.silence();
        let mut rest = vec![
            AgentAction::StopSpeech,
            AgentAction::CancelPendingVoice,
            AgentAction::SetStatus(Some(AgentStatus::Text(message))),
            AgentAction::SyncSnapshot,
        ];
        actions.append(&mut rest);
        actions
    }

    /// Stops listening, thinking and answering.
    pub fn stop_voice_interaction(&mut self) -> (actions: Vec<AgentAction>)
        ensures
            *final(self) == (AgentView {
                panel: AgentPanel {
                    thinking_feedback: None,
                    thinking_feedback_revision: revision_after(
                        old(self).panel.thinking_feedback_revision,
                    ),
                    ..old(self).panel
                },
                ..old(self).without_transcription()
            }),
            actions@ == old(self).stop_transcription_actions() + seq![
                AgentAction::CancelPendingVoice,
                AgentAction::StopSpeech,
                AgentAction::CancelReply,
                AgentAction::Notify,
            ],
    {
        self.panel.thinking_feedback_revision = next_revision(
            self.panel.thinking_feedback_revision,
        );
        self.panel.thinking_feedback = None;
        let mut actions = self.cancel_remote_transcription();
        let mut rest = vec![
            AgentAction::CancelPendingVoice,
            AgentAction::StopSpeech,
            AgentAction::CancelReply,
            AgentAction::Notify,
        ];
        actions.append(&mut rest);
        actions
    }

    /// What is to be said, and with which model: the answer to the last question, once it is
    /// complete, with the speech model of the persona that gave it.
    pub open spec fn speech_source(
        self,
        persona: Option<PersonaView>,
        settings: LlmSettingsView,
    ) -> Option<(int, int)> {
        match persona {
            Some(persona) => if persona.id != self.snapshot.active_persona@ {
                None
            } else {
                match (persona.tts_model, self.snapshot.reply_position()) {
                    (Some(model_id), Some(message)) => if self.snapshot.messages@[message].state is Complete {
                        match settings.position_of(model_id) {
                            Some(model) => Some((message, model)),
                            None => None,
                        }
                    } else {
                        None
                    },
                    _ => None,
                }
            },
            None => None,
        }
    }

    /// Says the answer aloud, where there is something to say and a voice to say it with.
    pub fn start_speech(&mut self, persona: Option<&PersonaConfig>, settings: &LlmSettings) -> (actions:
        Vec<AgentAction>)
        ensures
            ({
                let active = match persona {
                    Some(persona) => Some(persona@),
                    None => None,
                };
                match old(self).speech_source(active, settings@) {
                    Some((message, model)) => {
                        &&& *final(self) == (AgentView {
                            voice: AgentVoice {
                                speech_running: true,
                                ..old(self).without_speech().voice
                            },
                            ..*old(self)
                        })
                        &&& actions@ == old(self).stop_speech_actions().push(
                            AgentAction::Synthesize {
                                revision: revision_after(old(self).voice.speech_revision),
                                message: message as usize,
                                model: model as usize,
                            },
                        )
                    },
                    None => {
                        &&& *final(self) == old(self).without_speech()
                        &&& actions@ == old(self).stop_speech_actions()
                    },
                }
            }),
    {
        let mut actions = self.cancel_speech();
        let Some(persona) = persona else {
            return actions;
        };
        if persona.id != self.snapshot.active_persona {
            return actions;
        }
        let Some(model_id) = &persona.tts_model else {
            return actions;
        };
        let Some(message) = self.snapshot.reply_index() else {
            return actions;
        };
        match self.snapshot.messages[message].state {
            ChatMessageState::Complete => {},
            _ => {
                return actions;
            },
        }
        let Some(model) = settings.model_index(model_id) else {
            return actions;
        };
        self.voice.speech_running = true;
        actions.push(
            AgentAction::Synthesize { revision: self.voice.speech_revision, message, model },
        );
        actions
    }

    /// Takes speech that has been made, `made` telling whether there is any. It is played
    /// unless it is outdated or the pet is hidden.
    pub fn speech_finished(&mut self, revision: u64, made: bool) -> (actions: Vec<AgentAction>)
        ensures
            *final(self) == (if old(self).voice.speech_revision == revision {
                AgentView {
                    voice: AgentVoice { speech_running: false, ..old(self).voice },
                    ..*old(self)
                }
            } else {
                *old(self)
            }),
            actions@ == (if made && !old(self).panel.suspended && old(self).voice.speech_revision
                == revision {
                seq![AgentAction::PlaySpeech]
            } else {
                Seq::empty()
            }),
    {
        if self.voice.speech_revision != revision {
            return Vec::new();
        }
        self.voice.speech_running = false;
        if made && !self.panel.suspended {
            vec![AgentAction::PlaySpeech]
        } else {
            Vec::new()
        }
    }
}

} // verus!
