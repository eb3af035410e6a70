//! Asking questions: text, images, and clicks on the model.

use vstd::prelude::*;

use crate::agent::message::AppLanguage;
use crate::agent::reply::ThinkingFeedback;
use crate::agent::screenshot::{capability_under, host_screenshot_capability, AgentGrants};
use crate::agent::view::{AgentAction, AgentPanel, AgentStatus, AgentView};
use crate::revision::{next_revision, revision_after};

verus! {

impl AgentView {
    /// The overlay after a question was put: it shows that the companion is thinking, where
    /// the question was taken.
    pub open spec fn after_send(self, feedback: Option<ThinkingFeedback>) -> AgentView {
        if self.snapshot.takes_messages() {
            AgentView {
                panel: AgentPanel {
                    thinking_feedback: feedback,
                    thinking_feedback_revision: revision_after(
                        self.panel.thinking_feedback_revision,
                    ),
                    ..self.panel
                },
                ..self
            }
        } else {
            self
        }
    }

    /// What putting a question takes. It is not taken while an answer is being written, the
    /// memory is being changed, or everything is being shut down.
    pub open spec fn send_actions(
        self,
        text: String,
        image: Option<u64>,
        language: AppLanguage,
        grants: AgentGrants,
    ) -> Seq<AgentAction> {
        if self.snapshot.takes_messages() {
            seq![
                AgentAction::SendMessage {
                    text,
                    image,
                    with_outfits: grants.outfits,
                    screenshot: capability_under(grants.screenshots),
                    outfit_revision: self.outfit_revision,
                    language,
                    feedback_revision: revision_after(self.panel.thinking_feedback_revision),
                },
            ]
        } else {
            Seq::empty()
        }
    }

    /// Puts a question, and tells whether it was taken.
    pub fn send_message(
        &mut self,
        text: String,
        image: Option<u64>,
        language: AppLanguage,
        feedback: Option<ThinkingFeedback>,
        grants: AgentGrants,
    ) -> (sent: (bool, Vec<AgentAction>))
        ensures
            sent.0 == old(self).snapshot.takes_messages(),
            *final(self) == old(self).after_send(feedback),
            sent.1@ == old(self).send_actions(text, image, language, grants),
    {
        if self.snapshot.streaming || self.snapshot.switching_memory
            || self.snapshot.shutting_down {
            return (false, Vec::new());
        }
        self.panel.thinking_feedback = feedback;
        self.panel.thinking_feedback_revision = next_revision(
            self.panel.thinking_feedback_revision,
        );
        let actions = vec![
            AgentAction::SendMessage {
                text,
                image,
                with_outfits: grants.outfits,
                screenshot: host_screenshot_capability(grants.screenshots),
                outfit_revision: self.outfit_revision,
                language,
                feedback_revision: self.panel.thinking_feedback_revision,
            },
        ];
        (true, actions)
    }

    /// Takes what came of a question. The sign that the companion is thinking goes away,
    /// unless it belongs to a newer question; an error is reported.
    pub fn message_answered(&mut self, feedback_revision: u64, error: Option<String>) -> (actions:
        Vec<AgentAction>)
        ensures
            *final(self) == (if old(self).panel.thinking_feedback_revision == feedback_revision {
                AgentView {
                    panel: AgentPanel { thinking_feedback: None, ..old(self).panel },
                    ..*old(self)
                }
            } else {
                *old(self)
            }),
            actions@ == (match error {
                Some(error) => seq![AgentAction::SetStatus(Some(AgentStatus::Text(error)))],
                None => Seq::empty(),
            }) + (if old(self).panel.thinking_feedback_revision == feedback_revision {
                seq![AgentAction::Notify]
            } else {
                Seq::empty()
            }),
    {
        let mut actions: Vec<AgentAction> = Vec::new();
        if let Some(error) = error {
            actions.push(AgentAction::SetStatus(Some(AgentStatus::Text(error))));
        }
        let mut rest: Vec<AgentAction> = Vec::new();
        if self.panel.thinking_feedback_revision == feedback_revision {
            self.panel.thinking_feedback = None;
            rest.push(AgentAction::Notify);
        }
        actions.append(&mut rest);
        proof {
            assert(actions@ =~= (match error {
                Some(error) => seq![AgentAction::SetStatus(Some(AgentStatus::Text(error)))],
                None => Seq::empty(),
            }) + (if old(self).panel.thinking_feedback_revision == feedback_revision {
                seq![AgentAction::Notify]
            } else {
                Seq::empty()
            }));
        }
        actions
    }

    /// Returns the sign that the companion is thinking.
    pub fn thinking_feedback(&self) -> (feedback: Option<ThinkingFeedback>)
        ensures
            feedback == self.panel.thinking_feedback,
    {
        self.panel.thinking_feedback
    }

    /// Tells the companion that its model was clicked, and tells whether it took note.
    /// `prompt` says so in words.
    pub fn send_model_click_event(
        &mut self,
        prompt: String,
        language: AppLanguage,
        grants: AgentGrants,
    ) -> (sent: (bool, Vec<AgentAction>))
        ensures
            old(self).snapshot.streaming ==> {
                &&& !sent.0
                &&& *final(self) == *old(self)
                &&& sent.1@ == Seq::<AgentAction>::empty()
            },
            !old(self).snapshot.streaming ==> {
                &&& sent.0 == old(self).snapshot.takes_messages()
                &&& *final(self) == old(self).after_send(None)
                &&& sent.1@ == seq![AgentAction::CancelPendingVoice, AgentAction::RefreshSettings]
                    + old(self).send_actions(prompt, None, language, grants)
            },
    {
        if self.snapshot.streaming {
            return (false, Vec::new());
        }
        let mut actions = vec![AgentAction::CancelPendingVoice, AgentAction::RefreshSettings];
        let (taken, mut send) = self.send_message(prompt, None, language, None, grants);
        actions.append(&mut send);
        (taken, actions)
    }

    /// The overlay with no image waiting, and none being chosen.
    pub open spec fn without_image(self) -> AgentView {
        AgentView {
            panel: AgentPanel {
                image_picker_revision: revision_after(self.panel.image_picker_revision),
                pending_image: None,
                ..self.panel
            },
            ..self
        }
    }

    /// Puts the question in the input. Once it is taken, the input and its image are cleared.
    pub fn submit_from_input(
        &mut self,
        text: String,
        language: AppLanguage,
        grants: AgentGrants,
    ) -> (actions: Vec<AgentAction>)
        ensures
            ({
                let send = seq![AgentAction::CancelPendingVoice, AgentAction::RefreshSettings]
                    + old(self).send_actions(
                    text,
                    old(self).panel.pending_image,
                    language,
                    grants,
                );
                let sent = old(self).after_send(Some(ThinkingFeedback::Text));
                if old(self).snapshot.takes_messages() {
                    &&& *final(self) == sent.without_image()
                    &&& actions@ == send.push(AgentAction::ClearInput)
                } else {
                    &&& *final(self) == *old(self)
                    &&& actions@ == send
                }
            }),
    {
        let mut actions = vec![AgentAction::CancelPendingVoice, AgentAction::RefreshSettings];
        let image = self.panel.pending_image;
        let (taken, mut send) = self.send_message(
            text,
            image,
            language,
            Some(ThinkingFeedback::Text),
            grants,
        );
        actions.append(&mut send);
        if taken {
            self.panel.image_picker_revision = next_revision(self.panel.image_picker_revision);
            self.panel.pending_image = None;
            actions.push(AgentAction::ClearInput);
        }
        actions
    }

    /// Asks for the answer to be stopped.
    pub fn stop(&self) -> (actions: Vec<AgentAction>)
        ensures
            actions@ == seq![AgentAction::CancelReply],
    {
        vec![AgentAction::CancelReply]
    }

    /// Takes note whether there was an answer to stop: it is then shown as it is, and fades.
    pub fn reply_stopped(&self, cancelled: bool) -> (actions: Vec<AgentAction>)
        ensures
            actions@ == (if cancelled {
                seq![AgentAction::SyncSnapshot, AgentAction::PlanFade]
            } else {
                Seq::empty()
            }),
    {
        if cancelled {
            vec![AgentAction::SyncSnapshot, AgentAction::PlanFade]
        } else {
            Vec::new()
        }
    }

    /// Asks for an image, unless an answer is being written. An image asked for before is no
    /// longer wanted.
    pub fn choose_image(&mut self) -> (actions: Vec<AgentAction>)
        ensures
            old(self).snapshot.streaming ==> {
                &&& *final(self) == *old(self)
                &&& actions@ == Seq::<AgentAction>::empty()
            },
            !old(self).snapshot.streaming ==> {
                let revision = revision_after(old(self).panel.image_picker_revision);
                &&& *final(self) == (AgentView {
                    panel: AgentPanel { image_picker_revision: revision, ..old(self).panel },
                    ..*old(self)
                })
                &&& actions@ == seq![AgentAction::OpenImagePicker { revision }]
            },
    {
        if self.snapshot.streaming {
            return Vec::new();
        }
        self.panel.image_picker_revision = next_revision(self.panel.image_picker_revision);
        vec![AgentAction::OpenImagePicker { revision: self.panel.image_picker_revision }]
    }

    /// Reports that no image could be chosen, unless another is being chosen.
    pub fn image_picker_failed(&self, revision: u64) -> (actions: Vec<AgentAction>)
        ensures
            actions@ == (if self.panel.image_picker_revision == revision {
                seq![
                    AgentAction::SetStatus(Some(AgentStatus::ImagePicker)),
                    AgentAction::SyncSnapshot,
                ]
            } else {
                Seq::empty()
            }),
    {
        if self.panel.image_picker_revision != revision {
            return Vec::new();
        }
        vec![
            AgentAction::SetStatus(Some(AgentStatus::ImagePicker)),
            AgentAction::SyncSnapshot,
        ]
    }

    /// Takes the image that was chosen, unless another is being chosen. One without content
    /// cannot be used.
    pub fn image_loaded(&mut self, revision: u64, loaded: Result<Option<u64>, String>) -> (actions:
        Vec<AgentAction>)
        ensures
            *final(self) == (if old(self).panel.image_picker_revision == revision {
                match loaded {
                    Ok(Some(image)) => AgentView {
                        panel: AgentPanel { pending_image: Some(image), ..old(self).panel },
                        ..*old(self)
                    },
                    _ => *old(self),
                }
            } else {
                *old(self)
            }),
            actions@ == (if old(self).panel.image_picker_revision == revision {
                match loaded {
                    Ok(Some(_)) => seq![
                        AgentAction::SetStatus(None),
                        AgentAction::SyncSnapshot,
                        AgentAction::Notify,
                    ],
                    Ok(None) => seq![
                        AgentAction::SetStatus(Some(AgentStatus::ImagePrepare)),
                        AgentAction::SyncSnapshot,
                    ],
                    Err(error) => seq![
                        AgentAction::SetStatus(Some(AgentStatus::Text(error))),
                        AgentAction::SyncSnapshot,
                        AgentAction::Notify,
                    ],
                }
            } else {
                Seq::empty()
            }),
    {
        if self.panel.image_picker_revision != revision {
            return Vec::new();
        }
        match loaded {
            Ok(Some(image)) => {
                self.panel.pending_image = Some(image);
                vec![AgentAction::SetStatus(None), AgentAction::SyncSnapshot, AgentAction::Notify]
            },
            Ok(None) => vec![
                AgentAction::SetStatus(Some(AgentStatus::ImagePrepare)),
                AgentAction::SyncSnapshot,
            ],
            Err(error) => vec![
                AgentAction::SetStatus(Some(AgentStatus::Text(error))),
                AgentAction::SyncSnapshot,
                AgentAction::Notify,
            ],
        }
    }

    /// Drops the image, and whichever is being chosen.
    pub fn remove_pending_image(&mut self) -> (actions: Vec<AgentAction>)
        ensures
            *final(self) == old(self).without_image(),
            actions@ == seq![AgentAction::Notify],
    {
        self.panel.image_picker_revision = next_revision(self.panel.image_picker_revision);
        self.panel.pending_image = None;
        vec![AgentAction::Notify]
    }
}

} // verus!
