//! What the reply bubble says, and how it fades.

use vstd::prelude::*;

use crate::agent::message::{AgentSnapshot, ChatMessage, ChatMessageState};
use crate::agent::reply::ThinkingFeedback;
use crate::agent::view::{AgentAction, AgentPanel, AgentView};

verus! {

/// A line of the bubble: a text, or something that is said in the language of the program.
#[derive(Debug, PartialEq, Eq)]
pub enum ReplyText {
    Text(String),
    /// Nothing at all.
    Blank,
    Thinking,
    Stopped,
    Interrupted,
    InterruptedByVoice,
}

/// What the bubble says.
#[derive(Debug, PartialEq, Eq)]
pub struct ReplyDisplay {
    pub text: ReplyText,
    pub detail: Option<ReplyText>,
    /// Whether an answer is waited for.
    pub waiting: bool,
    pub error: bool,
}

/// The answer itself, or else how far it has come.
pub open spec fn reply_text(message: ChatMessage) -> ReplyText {
    if message.visible_content@.len() > 0 {
        ReplyText::Text(message.visible_content)
    } else {
        match message.state {
            ChatMessageState::Streaming => ReplyText::Thinking,
            ChatMessageState::Failed(error) => ReplyText::Text(error),
            ChatMessageState::Cancelled => ReplyText::Stopped,
            ChatMessageState::Interrupted => ReplyText::Interrupted,
            ChatMessageState::InterruptedByVoice => ReplyText::InterruptedByVoice,
            ChatMessageState::Complete => ReplyText::Blank,
        }
    }
}

/// Why an answer with some content was not finished.
pub open spec fn reply_detail(message: ChatMessage) -> Option<ReplyText> {
    let has_content = message.content@.len() > 0;
    match message.state {
        ChatMessageState::Failed(error) => if has_content {
            Some(ReplyText::Text(error))
        } else {
            None
        },
        ChatMessageState::Cancelled => if has_content {
            Some(ReplyText::Stopped)
        } else {
            None
        },
        ChatMessageState::Interrupted => if has_content {
            Some(ReplyText::Interrupted)
        } else {
            None
        },
        ChatMessageState::InterruptedByVoice => if message.visible_content@.len() > 0 {
            Some(ReplyText::InterruptedByVoice)
        } else {
            None
        },
        _ => None,
    }
}

/// What the bubble says of an answer.
pub open spec fn message_display(message: ChatMessage) -> ReplyDisplay {
    ReplyDisplay {
        text: reply_text(message),
        detail: reply_detail(message),
        waiting: message.visible_content@.len() == 0 && message.state is Streaming,
        error: message.state is Failed,
    }
}

/// What the bubble says of a conversation: the answer, or else the report.
pub open spec fn conversation_display(snapshot: AgentSnapshot) -> Option<ReplyDisplay> {
    match snapshot.reply_position() {
        Some(index) => Some(message_display(snapshot.messages@[index])),
        None => match snapshot.status {
            Some(status) => Some(
                ReplyDisplay {
                    text: ReplyText::Text(status),
                    detail: None,
                    waiting: false,
                    error: false,
                },
            ),
            None => None,
        },
    }
}

fn text_of(message: &ChatMessage) -> (text: ReplyText)
    ensures
        text == reply_text(*message),
{
    if message.visible_content.as_str().unicode_len() > 0 {
        return ReplyText::Text(message.visible_content.clone());
    }
    match &message.state {
        ChatMessageState::Streaming => ReplyText::Thinking,
        ChatMessageState::Failed(error) => ReplyText::Text(error.clone()),
        ChatMessageState::Cancelled => ReplyText::Stopped,
        ChatMessageState::Interrupted => ReplyText::Interrupted,
        ChatMessageState::InterruptedByVoice => ReplyText::InterruptedByVoice,
        ChatMessageState::Complete => ReplyText::Blank,
    }
}

fn detail_of(message: &ChatMessage) -> (detail: Option<ReplyText>)
    ensures
        detail == reply_detail(*message),
{
    let has_content = message.content.as_str().unicode_len() > 0;
    match &message.state {
        ChatMessageState::Failed(error) => if has_content {
            Some(ReplyText::Text(error.clone()))
        } else {
            None
        },
        ChatMessageState::Cancelled => if has_content {
            Some(ReplyText::Stopped)
        } else {
            None
        },
        ChatMessageState::Interrupted => if has_content {
            Some(ReplyText::Interrupted)
        } else {
            None
        },
        ChatMessageState::InterruptedByVoice => if message.visible_content.as_str().unicode_len()
            > 0 {
            Some(ReplyText::InterruptedByVoice)
        } else {
            None
        },
        _ => None,
    }
}

/// Returns what the bubble says of an answer.
pub fn display_message(message: &ChatMessage) -> (display: ReplyDisplay)
    ensures
        display == message_display(*message),
{
    let streaming = match &message.state {
        ChatMessageState::Streaming => true,
        _ => false,
    };
    let error = match &message.state {
        ChatMessageState::Failed(_) => true,
        _ => false,
    };
    ReplyDisplay {
        text: text_of(message),
        detail: detail_of(message),
        waiting: message.visible_content.as_str().unicode_len() == 0 && streaming,
        error,
    }
}

/// The button of the input bar that has to do with images.
#[derive(Debug, Clone, Copy, PartialEq, Eq, Structural)]
pub enum ImageControl {
    /// Drop the image with the given number.
    Remove { image: u64 },
    Attach,
}

/// The input bar as it is drawn.
#[derive(Debug, Clone, Copy, PartialEq, Eq, Structural)]
pub struct InputBar {
    pub image_control: ImageControl,
    /// Whether the input and the image button can be used.
    pub enabled: bool,
    /// Whether the button stops the answer rather than sends a question.
    pub stops: bool,
    /// Whether the bar shows that the companion is thinking.
    pub breathing: bool,
}

impl AgentView {
    /// Tells whether the bubble is shown.
    pub fn reply_visible(&self) -> (visible: bool)
        ensures
            visible == self.reply.visible,
    {
        self.reply.visible()
    }

    /// Makes room for the sign that voice is heard.
    pub fn set_voice_indicator_visible(&mut self, visible: bool) -> (actions: Vec<AgentAction>)
        ensures
            *final(self) == (AgentView {
                panel: AgentPanel { voice_indicator_visible: visible, ..old(self).panel },
                ..*old(self)
            }),
            actions@ == (if old(self).panel.voice_indicator_visible != visible {
                seq![AgentAction::Notify]
            } else {
                Seq::empty()
            }),
    {
        if self.panel.voice_indicator_visible == visible {
            return Vec::new();
        }
        self.panel.voice_indicator_visible = visible;
        vec![AgentAction::Notify]
    }

    /// Lets a report fade that is shown from the start.
    pub fn start_initial_reply_fade(&mut self) -> (actions: Vec<AgentAction>)
        ensures
            ({
                let reports = old(self).snapshot.status is Some
                    && old(self).snapshot.reply_message_id is None;
                &&& *final(self) == (if reports {
                    old(self).with_fade_planned()
                } else {
                    *old(self)
                })
                &&& actions@ == (if reports {
                    old(self).plan_fade_actions()
                } else {
                    Seq::empty()
                })
            }),
    {
        if self.snapshot.status.is_some() && self.snapshot.reply_message_id.is_none() {
            self.schedule_reply_fade()
        } else {
            Vec::new()
        }
    }

    /// Begins a fade that was planned, unless something has come in between.
    pub fn fade_due(&mut self, revision: u64) -> (actions: Vec<AgentAction>)
        ensures
            ({
                let terminal = old(self).snapshot.reply_is_terminal();
                &&& *final(self) == (AgentView {
                    reply: old(self).reply.after_begin_fade(revision, terminal),
                    ..*old(self)
                })
                &&& actions@ == (if old(self).reply.accepts_fade(revision, terminal) {
                    seq![AgentAction::Notify, AgentAction::RunFade { revision }]
                } else {
                    Seq::empty()
                })
            }),
            old(self).well_formed() ==> final(self).well_formed(),
    {
        let terminal = self.snapshot.visible_reply_is_terminal();
        if self.reply.begin_fade(revision, terminal) {
            vec![AgentAction::Notify, AgentAction::RunFade { revision }]
        } else {
            Vec::new()
        }
    }

    /// Hides the bubble at the end of its fade, unless something has come in between.
    pub fn fade_finished(&mut self, revision: u64) -> (actions: Vec<AgentAction>)
        ensures
            ({
                let terminal = old(self).snapshot.reply_is_terminal();
                &&& *final(self) == (AgentView {
                    reply: old(self).reply.after_finish_fade(revision, terminal),
                    ..*old(self)
                })
                &&& actions@ == (if old(self).reply.accepts_fade(revision, terminal) {
                    seq![AgentAction::Notify]
                } else {
                    Seq::empty()
                })
            }),
            old(self).well_formed() ==> final(self).well_formed(),
    {
        let terminal = self.snapshot.visible_reply_is_terminal();
        if self.reply.finish_fade(revision, terminal) {
            vec![AgentAction::Notify]
        } else {
            Vec::new()
        }
    }

    /// The overlay after the pointer has entered or left the bubble.
    pub open spec fn with_reply_hovered(self, hovered: bool) -> AgentView {
        AgentView { reply: self.reply.after_hover(hovered), ..self }
    }

    /// Follows the pointer: on the bubble it stops the fade, and as it leaves a new one is
    /// planned.
    pub fn set_reply_hovered(&mut self, hovered: bool) -> (actions: Vec<AgentAction>)
        ensures
            old(self).reply.hovered == hovered ==> {
                &&& *final(self) == *old(self)
                &&& actions@ == Seq::<AgentAction>::empty()
            },
            old(self).reply.hovered != hovered && hovered ==> {
                &&& *final(self) == old(self).with_reply_hovered(true)
                &&& actions@ == seq![AgentAction::CancelFade, AgentAction::Notify]
            },
            old(self).reply.hovered != hovered && !hovered ==> {
                &&& *final(self) == old(self).with_reply_hovered(false).with_fade_planned()
                &&& actions@ == old(self).with_reply_hovered(false).plan_fade_actions()
            },
            old(self).well_formed() ==> final(self).well_formed(),
    {
        if !self.reply.set_hovered(hovered) {
            return Vec::new();
        }
        if hovered {
            vec![AgentAction::CancelFade, AgentAction::Notify]
        } else {
            self.schedule_reply_fade()
        }
    }

    /// Returns what the bubble says, while it is shown.
    pub fn reply_display(&self) -> (display: Option<ReplyDisplay>)
        ensures
            display == (if self.reply.visible {
                conversation_display(self.snapshot)
            } else {
                None
            }),
    {
        if !self.reply.visible() {
            return None;
        }
        match self.snapshot.reply_index() {
            Some(index) => Some(display_message(&self.snapshot.messages[index])),
            None => match &self.snapshot.status {
                Some(status) => Some(
                    ReplyDisplay {
                        text: ReplyText::Text(status.clone()),
                        detail: None,
                        waiting: false,
                        error: false,
                    },
                ),
                None => None,
            },
        }
    }

    /// Tells whether room is kept below the bubble.
    pub fn reserves_bottom(&self) -> (reserved: bool)
        ensures
            reserved == (self.panel.input_visible || self.panel.voice_indicator_visible),
    {
        self.panel.input_visible || self.panel.voice_indicator_visible
    }

    /// Returns the input bar, while it is shown.
    pub fn input_bar(&self) -> (bar: Option<InputBar>)
        ensures
            bar == (if self.panel.input_visible {
                Some(
                    InputBar {
                        image_control: match self.panel.pending_image {
                            Some(image) => ImageControl::Remove { image },
                            None => ImageControl::Attach,
                        },
                        enabled: !self.snapshot.streaming,
                        stops: self.snapshot.streaming,
                        breathing: self.panel.thinking_feedback == Some(ThinkingFeedback::Text),
                    },
                )
            } else {
                None
            }),
    {
        if !self.panel.input_visible {
            return None;
        }
        let image_control = match self.panel.pending_image {
            Some(image) => ImageControl::Remove { image },
            None => ImageControl::Attach,
        };
        Some(
            InputBar {
                image_control,
                enabled: !self.snapshot.streaming,
                stops: self.snapshot.streaming,
                breathing: self.panel.thinking_feedback == Some(ThinkingFeedback::Text),
            },
        )
    }
}

impl ReplyDisplay {
    /// Whether the text itself is an error.
    pub open spec fn says_error(self) -> bool {
        self.error && self.detail is None
    }

    /// Tells whether the text itself is an error.
    pub fn primary_error(&self) -> (error: bool)
        ensures
            error == self.says_error(),
    {
        self.error && self.detail.is_none()
    }
}

} // verus!
