//! The chat overlay as a value, and what it asks of its surroundings.

use vstd::prelude::*;

use crate::agent::message::{AgentSnapshot, AppLanguage};
use crate::agent::reply::{ReplyLifecycle, ThinkingFeedback};
use crate::agent::screenshot::HostScreenshotCapability;
use crate::revision::{next_revision, revision_after};
use crate::text::{optional_view, same_optional};

verus! {

/// What the overlay reports in place of an answer.
#[derive(Debug, PartialEq, Eq)]
pub enum AgentStatus {
    /// A text that comes from elsewhere.
    Text(String),
    /// The conversation cannot be kept, and why.
    PersistenceUnavailable(String),
    /// No image could be chosen.
    ImagePicker,
    /// An image could not be made ready.
    ImagePrepare,
}

/// What the surroundings of the overlay have to do.
#[derive(Debug, PartialEq, Eq)]
#[allow(inconsistent_fields)]
pub enum AgentAction {
    Notify,
    /// Scroll the answer to its end.
    ScrollToEnd,
    /// Put the keyboard into the input.
    FocusInput,
    ClearInput,
    /// Read the configuration and hand it in.
    RefreshSettings,
    /// Set up the companion with a configuration; `model` is the position of its model.
    ApplyConfiguration { revision: u64, generation: u64, model: Option<usize> },
    /// Read the conversation and hand it in.
    SyncSnapshot,
    /// Have the companion report something, or nothing.
    SetStatus(Option<AgentStatus>),
    /// Send a question. `with_outfits` tells whether outfits may be changed, `screenshot`
    /// is the permission to take screenshots, where there is one.
    SendMessage {
        text: String,
        image: Option<u64>,
        with_outfits: bool,
        screenshot: Option<HostScreenshotCapability>,
        outfit_revision: u64,
        language: AppLanguage,
        feedback_revision: u64,
    },
    /// Stop the answer, and report whether there was one to stop.
    CancelReply,
    /// Forget about what is being spoken.
    CancelPendingVoice,
    VoiceStarted { utterance_id: u64, language: AppLanguage },
    CancelVoice { utterance_id: u64 },
    /// Stop the loudspeaker.
    StopSpeech,
    /// Stop making speech.
    AbortSpeech,
    /// Make speech of the answer at a position among the messages, with the model at a
    /// position among the models.
    Synthesize { revision: u64, message: usize, model: usize },
    /// Play speech.
    PlaySpeech,
    /// Turn what was spoken into text with the model at a position.
    Transcribe { revision: u64, utterance_id: u64, model: usize },
    /// Report that there is no model to transcribe with.
    ReportMissingModel { revision: u64, utterance_id: u64 },
    /// Stop transcribing.
    CancelTranscription { revision: u64, utterance_id: u64 },
    /// Report what a transcription came to.
    CompleteTranscription { revision: u64, utterance_id: u64 },
    /// Ask for an image.
    OpenImagePicker { revision: u64 },
    /// Drop the wait before a fade.
    CancelFade,
    /// Let the answer stand for a while before it fades.
    ScheduleFade { revision: u64 },
    /// Fade, and report when that is done.
    RunFade { revision: u64 },
    /// Plan the fade of what is shown.
    PlanFade,
}

/// Which configuration the companion has, and which it is about to get.
#[derive(Debug, Clone, Copy, PartialEq, Eq, Structural)]
pub struct ConfigState {
    pub generation: u64,
    pub pending_generation: Option<u64>,
    pub refresh_revision: u64,
}

/// A transcription under way.
#[derive(Debug, Clone, Copy, PartialEq, Eq, Structural)]
pub struct RemoteTranscriptionRequest {
    pub revision: u64,
    pub utterance_id: u64,
}

/// What is being heard and said.
#[derive(Debug, Clone, Copy, PartialEq, Eq, Structural)]
pub struct AgentVoice {
    pub transcription: Option<RemoteTranscriptionRequest>,
    /// Counts what makes earlier speech outdated.
    pub speech_revision: u64,
    /// Whether speech is being made.
    pub speech_running: bool,
}

/// What is shown beside the answer.
#[derive(Debug, Clone, Copy, PartialEq, Eq, Structural)]
pub struct AgentPanel {
    pub input_visible: bool,
    pub voice_indicator_visible: bool,
    /// Whether the pet is hidden, and nothing is to be said.
    pub suspended: bool,
    /// The image that goes with the next question, by number.
    pub pending_image: Option<u64>,
    pub image_picker_revision: u64,
    /// The sign that the companion is thinking.
    pub thinking_feedback: Option<ThinkingFeedback>,
    pub thinking_feedback_revision: u64,
}

/// The chat overlay.
#[derive(Debug)]
pub struct AgentView {
    pub snapshot: AgentSnapshot,
    pub config: ConfigState,
    pub available_outfits: Vec<String>,
    pub outfit_revision: u64,
    pub panel: AgentPanel,
    pub voice: AgentVoice,
    pub reply: ReplyLifecycle,
}

impl AgentView {
    /// A bubble fades only while it is on its way out.
    pub open spec fn well_formed(self) -> bool {
        self.reply.well_formed()
    }

    /// Opens the overlay on a conversation.
    pub fn new(snapshot: AgentSnapshot, generation: u64) -> (view: Self)
        ensures
            view.snapshot == snapshot,
            view.config == (ConfigState {
                generation,
                pending_generation: None,
                refresh_revision: 0,
            }),
            view.available_outfits@.len() == 0,
            view.outfit_revision == 0,
            view.panel == (AgentPanel {
                input_visible: false,
                voice_indicator_visible: false,
                suspended: false,
                pending_image: None,
                image_picker_revision: 0,
                thinking_feedback: None,
                thinking_feedback_revision: 0,
            }),
            view.voice == (AgentVoice {
                transcription: None,
                speech_revision: 0,
                speech_running: false,
            }),
            view.reply == (ReplyLifecycle {
                visible: snapshot.shows_something(),
                hovered: false,
                fading: false,
                revision: 0,
                display_generation: if snapshot.shows_something() {
                    1
                } else {
                    0
                },
            }),
            view.well_formed(),
    {
        let visible = snapshot.status.is_some() || snapshot.reply_message_id.is_some();
        AgentView {
            snapshot,
            config: ConfigState { generation, pending_generation: None, refresh_revision: 0 },
            available_outfits: Vec::new(),
            outfit_revision: 0,
            panel: AgentPanel {
                input_visible: false,
                voice_indicator_visible: false,
                suspended: false,
                pending_image: None,
                image_picker_revision: 0,
                thinking_feedback: None,
                thinking_feedback_revision: 0,
            },
            voice: AgentVoice { transcription: None, speech_revision: 0, speech_running: false },
            reply: ReplyLifecycle::new(visible),
        }
    }

    /// The overlay with the answer shown.
    pub open spec fn with_reply_shown(self) -> AgentView {
        AgentView { reply: self.reply.after_reveal(), ..self }
    }

    /// What showing the answer takes.
    pub open spec fn show_reply_actions() -> Seq<AgentAction> {
        seq![AgentAction::CancelFade, AgentAction::ScrollToEnd, AgentAction::Notify]
    }

    fn show_reply(&mut self) -> (actions: Vec<AgentAction>)
        ensures
            *final(self) == old(self).with_reply_shown(),
            actions@ == Self::show_reply_actions(),
    {
        self.reply.reveal_reply();
        vec![AgentAction::CancelFade, AgentAction::ScrollToEnd, AgentAction::Notify]
    }

    /// The overlay with a fade planned, where one is due.
    pub open spec fn with_fade_planned(self) -> AgentView {
        AgentView { reply: self.reply.after_plan(), ..self }
    }

    /// Whether what is shown may fade: it is complete, and the pointer is not on it.
    pub open spec fn may_fade(self) -> bool {
        self.reply.visible && !self.reply.hovered && self.snapshot.reply_is_terminal()
    }

    /// What planning a fade takes.
    pub open spec fn plan_fade_actions(self) -> Seq<AgentAction> {
        if self.may_fade() {
            seq![
                AgentAction::CancelFade,
                AgentAction::ScheduleFade { revision: revision_after(self.reply.revision) },
            ]
        } else {
            seq![AgentAction::CancelFade]
        }
    }

    /// Plans the fade of what is shown.
    pub fn schedule_reply_fade(&mut self) -> (actions: Vec<AgentAction>)
        ensures
            *final(self) == old(self).with_fade_planned(),
            actions@ == old(self).plan_fade_actions(),
            final(self).well_formed(),
    {
        let terminal = self.snapshot.visible_reply_is_terminal();
        match self.reply.plan_fade(terminal) {
            Some(revision) => vec![
                AgentAction::CancelFade,
                AgentAction::ScheduleFade { revision },
            ],
            None => vec![AgentAction::CancelFade],
        }
    }

    /// Whether the answer has to be shown when the conversation has become `next`: there is
    /// something new to show, or the answer was being written.
    pub open spec fn shows_reply_for(self, next: AgentSnapshot) -> bool {
        next.shows_something() && (next.reply_message_id != self.snapshot.reply_message_id
            || optional_view(next.status) != optional_view(
            self.snapshot.status,
        ) || self.snapshot.streaming)
    }

    /// Whether the answer is finished when the conversation has become `next`.
    pub open spec fn finishes_reply_for(self, next: AgentSnapshot) -> bool {
        self.snapshot.streaming && !next.streaming
    }

    /// The overlay with another state of the conversation.
    pub open spec fn with_snapshot(self, next: AgentSnapshot) -> AgentView {
        AgentView { snapshot: next, ..self }
    }

    /// The overlay with the answer shown, where it has to be.
    pub open spec fn with_snapshot_shown(self, next: AgentSnapshot) -> AgentView {
        if self.shows_reply_for(next) {
            self.with_snapshot(next).with_reply_shown()
        } else {
            self.with_snapshot(next)
        }
    }

    /// The overlay after the conversation has become `next`.
    pub open spec fn synced(self, next: AgentSnapshot) -> AgentView {
        if next.revision == self.snapshot.revision {
            self
        } else if self.finishes_reply_for(next) {
            self.with_snapshot_shown(next).with_fade_planned()
        } else {
            self.with_snapshot_shown(next)
        }
    }

    /// What following the conversation takes.
    pub open spec fn sync_actions(self, next: AgentSnapshot) -> Seq<AgentAction> {
        if next.revision == self.snapshot.revision {
            Seq::empty()
        } else {
            (if self.shows_reply_for(next) {
                Self::show_reply_actions()
            } else {
                Seq::empty()
            }) + (if self.finishes_reply_for(next) {
                self.with_snapshot_shown(next).plan_fade_actions()
            } else {
                Seq::empty()
            }) + seq![AgentAction::ScrollToEnd, AgentAction::Notify]
        }
    }

    /// Follows the conversation.
    pub fn sync_agent_snapshot(&mut self, next: AgentSnapshot) -> (actions: Vec<AgentAction>)
        ensures
            *final(self) == old(self).synced(next),
            actions@ == old(self).sync_actions(next),
            old(self).well_formed() ==> final(self).well_formed(),
    {
        if next.revision == self.snapshot.revision {
            return Vec::new();
        }
        let shows = (next.status.is_some() || next.reply_message_id.is_some()) && (
        next.reply_message_id != self.snapshot.reply_message_id || !same_optional(
            &next.status,
            &self.snapshot.status,
        ) || self.snapshot.streaming);
        let finishes = self.snapshot.streaming && !next.streaming;
        self.snapshot = next;
        let mut actions: Vec<AgentAction> = Vec::new();
        if shows {
            actions = self.show_reply();
        }
        if finishes {
            let mut fade = self.schedule_reply_fade();
            actions.append(&mut fade);
        }
        actions.push(AgentAction::ScrollToEnd);
        actions.push(AgentAction::Notify);
        proof {
            assert(actions@ =~= old(self).sync_actions(next));
        }
        actions
    }

    /// Takes the outfits that can be chosen. Requests made before are outdated.
    pub fn set_available_outfits(&mut self, outfits: Vec<String>)
        ensures
            *final(self) == (AgentView {
                available_outfits: outfits,
                outfit_revision: revision_after(old(self).outfit_revision),
                ..*old(self)
            }),
    {
        self.available_outfits = outfits;
        self.outfit_revision = next_revision(self.outfit_revision);
    }

    /// Tells whether a request to change the outfit still holds.
    pub fn outfit_request_is_current(&self, revision: u64, cancelled: bool) -> (current: bool)
        ensures
            current == (revision == self.outfit_revision && !cancelled),
    {
        revision == self.outfit_revision && !cancelled
    }

    /// Shows or hides the input. A configuration that has changed meanwhile is taken up as
    /// the input is shown.
    pub fn set_input_visible(&mut self, visible: bool) -> (actions: Vec<AgentAction>)
        ensures
            *final(self) == (AgentView {
                panel: AgentPanel { input_visible: visible, ..old(self).panel },
                ..*old(self)
            }),
            actions@ == (if visible {
                seq![AgentAction::RefreshSettings, AgentAction::FocusInput]
            } else {
                seq![AgentAction::Notify]
            }),
    {
        self.panel.input_visible = visible;
        if visible {
            vec![AgentAction::RefreshSettings, AgentAction::FocusInput]
        } else {
            vec![AgentAction::Notify]
        }
    }

    /// Takes note whether the pet is hidden.
    pub fn set_suspended(&mut self, suspended: bool)
        ensures
            *final(self) == (AgentView {
                panel: AgentPanel { suspended, ..old(self).panel },
                ..*old(self)
            }),
    {
        self.panel.suspended = suspended;
    }
}

} // verus!
