//! Taking up a configuration: only newer ones, one at a time, and none twice.

use vstd::prelude::*;

use crate::agent::view::{AgentAction, AgentStatus, AgentView, AgentVoice, ConfigState};
use crate::revision::{next_revision, revision_after};
use crate::settings::llm::{LlmSettings, LlmSettingsView};
use crate::settings::persona::config::{PersonaConfig, PersonaView};

verus! {

impl ConfigState {
    /// Whether a configuration is newer than the one the companion has and the one that it
    /// is about to get.
    pub open spec fn wants(self, generation: u64) -> bool {
        generation > self.generation && (self.pending_generation matches Some(pending)
            ==> generation > pending)
    }

    /// The state with a configuration about to be taken up.
    pub open spec fn begun(self, generation: u64) -> ConfigState {
        ConfigState {
            pending_generation: Some(generation),
            refresh_revision: revision_after(self.refresh_revision),
            ..self
        }
    }

    /// Whether news of a configuration are about the one that is being taken up.
    pub open spec fn awaits(self, revision: u64, generation: u64) -> bool {
        self.refresh_revision == revision && self.pending_generation == Some(generation)
    }

    /// The state after a configuration was taken up, or not.
    pub open spec fn finished(self, revision: u64, generation: u64, applied: bool) -> ConfigState {
        if self.awaits(revision, generation) {
            ConfigState {
                pending_generation: None,
                generation: if applied {
                    generation
                } else {
                    self.generation
                },
                ..self
            }
        } else {
            self
        }
    }

    /// Begins to take up a configuration, and returns the revision of doing so, unless it is
    /// not newer.
    pub fn begin_agent_config_refresh(&mut self, generation: u64) -> (revision: Option<u64>)
        ensures
            old(self).wants(generation) ==> {
                &&& *final(self) == old(self).begun(generation)
                &&& revision == Some(final(self).refresh_revision)
            },
            !old(self).wants(generation) ==> {
                &&& *final(self) == *old(self)
                &&& revision is None
            },
    {
        if generation <= self.generation {
            return None;
        }
        if let Some(pending) = self.pending_generation {
            if generation <= pending {
                return None;
            }
        }
        self.pending_generation = Some(generation);
        self.refresh_revision = next_revision(self.refresh_revision);
        Some(self.refresh_revision)
    }

    /// Ends taking up a configuration, and tells whether it was the one that was being taken
    /// up.
    pub fn finish_agent_config_refresh(&mut self, revision: u64, generation: u64, applied: bool) -> (current:
        bool)
        ensures
            current == old(self).awaits(revision, generation),
            *final(self) == old(self).finished(revision, generation, applied),
    {
        if self.refresh_revision != revision || self.pending_generation != Some(generation) {
            return false;
        }
        self.pending_generation = None;
        if applied {
            self.generation = generation;
        }
        true
    }
}

/// Where the model of a persona is: the one that it is bound to, or else the one in use.
pub open spec fn model_for(persona: PersonaView, settings: LlmSettingsView) -> Option<int> {
    let bound = match persona.model {
        Some(id) => settings.position_of(id),
        None => None,
    };
    match bound {
        Some(index) => Some(index),
        None => match settings.selected_model {
            Some(id) => settings.position_of(id),
            None => None,
        },
    }
}

/// Returns where the model of a persona is.
pub fn model_of_persona(persona: &PersonaConfig, settings: &LlmSettings) -> (index: Option<usize>)
    ensures
        match index {
            Some(index) => model_for(persona@, settings@) == Some(index as int) && index
                < settings.models@.len(),
            None => model_for(persona@, settings@) is None,
        },
{
    if let Some(id) = &persona.model {
        if let Some(index) = settings.model_index(id) {
            return Some(index);
        }
    }
    match &settings.selected_model {
        Some(id) => settings.model_index(id),
        None => None,
    }
}

/// The position as it is handed on.
pub open spec fn position(index: Option<int>) -> Option<usize> {
    match index {
        Some(index) => Some(index as usize),
        None => None,
    }
}

impl AgentView {
    /// The overlay with speech stopped.
    pub open spec fn without_speech(self) -> AgentView {
        AgentView {
            voice: AgentVoice {
                speech_revision: revision_after(self.voice.speech_revision),
                speech_running: false,
                ..self.voice
            },
            ..self
        }
    }

    /// What stopping speech takes.
    pub open spec fn stop_speech_actions(self) -> Seq<AgentAction> {
        if self.voice.speech_running {
            seq![AgentAction::AbortSpeech]
        } else {
            Seq::empty()
        }
    }

    /// Stops speech. What comes of it later is outdated.
    pub fn cancel_speech(&mut self) -> (actions: Vec<AgentAction>)
        ensures
            *final(self) == old(self).without_speech(),
            actions@ == old(self).stop_speech_actions(),
    {
        self.voice.speech_revision = next_revision(self.voice.speech_revision);
        let running = self.voice.speech_running;
        self.voice.speech_running = false;
        if running {
            vec![AgentAction::AbortSpeech]
        } else {
            Vec::new()
        }
    }

    /// Takes up a configuration with its persona, unless it is not newer.
    pub fn refresh_settings(
        &mut self,
        generation: u64,
        persona: Option<&PersonaConfig>,
        settings: &LlmSettings,
    ) -> (actions: Vec<AgentAction>)
        ensures
            match persona {
                Some(persona) => if old(self).config.wants(generation) {
                    let begun = old(self).config.begun(generation);
                    &&& *final(self) == (AgentView {
                        config: begun,
                        ..old(self).without_speech()
                    })
                    &&& actions@ == (seq![AgentAction::CancelPendingVoice]
                        + old(self).stop_speech_actions()).push(
                        AgentAction::ApplyConfiguration {
                            revision: begun.refresh_revision,
                            generation,
                            model: position(model_for(persona@, settings@)),
                        },
                    )
                } else {
                    &&& *final(self) == *old(self)
                    &&& actions@ == Seq::<AgentAction>::empty()
                },
                None => {
                    &&& *final(self) == *old(self)
                    &&& actions@ == Seq::<AgentAction>::empty()
                },
            },
    {
        let Some(persona) = persona else {
            return Vec::new();
        };
        let Some(revision) = self.config.begin_agent_config_refresh(generation) else {
            return Vec::new();
        };
        let mut actions = vec![AgentAction::CancelPendingVoice];
        let mut stop = self.cancel_speech();
        actions.append(&mut stop);
        let model = model_of_persona(persona, settings);
        actions.push(AgentAction::ApplyConfiguration { revision, generation, model });
        actions
    }

    /// Takes what came of a configuration: whether it was taken up, or why not.
    pub fn configuration_finished(
        &mut self,
        revision: u64,
        generation: u64,
        result: Result<bool, String>,
    ) -> (actions: Vec<AgentAction>)
        ensures
            ({
                let applied = result == Ok::<bool, String>(true);
                &&& *final(self) == (AgentView {
                    config: old(self).config.finished(revision, generation, applied),
                    ..*old(self)
                })
                &&& actions@ == (if !old(self).config.awaits(revision, generation) {
                    Seq::empty()
                } else {
                    match result {
                        Ok(_) => seq![AgentAction::Notify],
                        Err(error) => seq![
                            AgentAction::SetStatus(
                                Some(AgentStatus::PersistenceUnavailable(error)),
                            ),
                            AgentAction::Notify,
                        ],
                    }
                })
            }),
    {
        let applied = match &result {
            Ok(applied) => *applied,
            Err(_) => false,
        };
        if !self.config.finish_agent_config_refresh(revision, generation, applied) {
            return Vec::new();
        }
        match result {
            Ok(_) => vec![AgentAction::Notify],
            Err(error) => vec![
                AgentAction::SetStatus(Some(AgentStatus::PersistenceUnavailable(error))),
                AgentAction::Notify,
            ],
        }
    }
}

/// A configuration is taken up only if it is newer than the one the companion has, and the
/// companion never goes back to an older one.
pub proof fn configurations_only_get_newer(
    config: ConfigState,
    begun: u64,
    revision: u64,
    generation: u64,
    applied: bool,
)
    requires
        config.pending_generation matches Some(pending) ==> pending > config.generation,
    ensures
        config.finished(revision, generation, applied).generation >= config.generation,
        config.wants(begun) ==> {
            &&& config.begun(begun).pending_generation matches Some(pending) && pending
                > config.begun(begun).generation
            &&& config.begun(begun).finished(
                config.begun(begun).refresh_revision,
                begun,
                true,
            ).generation == begun
        },
        config.finished(revision, generation, applied).pending_generation matches Some(pending)
            ==> pending > config.finished(revision, generation, applied).generation,
{
}

/// A configuration that could not be taken up can be tried again.
pub proof fn failed_configuration_can_be_retried(config: ConfigState, generation: u64)
    requires
        config.wants(generation),
    ensures
        ({
            let begun = config.begun(generation);
            let failed = begun.finished(begun.refresh_revision, generation, false);
            &&& failed.wants(generation)
            &&& failed.generation == config.generation
        }),
{
}

/// One that was taken up, or is about to be, is not taken up again.
pub proof fn configuration_is_applied_once(config: ConfigState, generation: u64)
    requires
        config.wants(generation),
    ensures
        ({
            let begun = config.begun(generation);
            &&& !begun.wants(generation)
            &&& !begun.finished(begun.refresh_revision, generation, true).wants(generation)
        }),
{
}

/// While a newer configuration is being taken up, news of an older one are ignored.
pub proof fn late_configuration_is_ignored(
    config: ConfigState,
    older: u64,
    newer: u64,
    applied: bool,
)
    requires
        config.wants(older),
        config.begun(older).wants(newer),
    ensures
        ({
            let first = config.begun(older);
            let second = first.begun(newer);
            second.finished(first.refresh_revision, older, applied) == second
        }),
{
}

} // verus!
