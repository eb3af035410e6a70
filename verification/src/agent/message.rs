//! Messages of a conversation, and the state of the conversation as it is shown.

use vstd::prelude::*;

use crate::search::first_position;

verus! {

/// Who said something.
#[derive(Debug, Clone, Copy, PartialEq, Eq, Structural)]
pub enum ChatRole {
    User,
    Assistant,
}

/// How far a message has come.
#[derive(Debug, PartialEq, Eq)]
pub enum ChatMessageState {
    Streaming,
    Complete,
    /// It could not be finished, and why.
    Failed(String),
    Cancelled,
    Interrupted,
    InterruptedByVoice,
}

/// A message. Of its content, `visible_content` is the part that is shown.
#[derive(Debug, PartialEq, Eq)]
pub struct ChatMessage {
    pub id: u64,
    pub role: ChatRole,
    pub state: ChatMessageState,
    pub content: String,
    pub visible_content: String,
}

/// A language of the program, by number.
#[derive(Debug, Clone, Copy, PartialEq, Eq, Structural)]
pub struct AppLanguage {
    pub index: u32,
}

/// The conversation at some moment.
#[derive(Debug, PartialEq, Eq)]
pub struct AgentSnapshot {
    /// Differs between any two states of the conversation.
    pub revision: u64,
    /// Whether an answer is being written.
    pub streaming: bool,
    /// Whether the memory of another persona is being taken up.
    pub switching_memory: bool,
    pub shutting_down: bool,
    pub status: Option<String>,
    /// The message that answers the last question.
    pub reply_message_id: Option<u64>,
    pub messages: Vec<ChatMessage>,
    pub active_persona: String,
    pub language: AppLanguage,
}

/// Whether a message is the companion's and goes by a number.
pub open spec fn is_reply(id: u64) -> spec_fn(ChatMessage) -> bool {
    |message: ChatMessage| message.id == id && message.role == ChatRole::Assistant
}

impl AgentSnapshot {
    /// Where the answer to the last question is.
    pub open spec fn reply_position(self) -> Option<int> {
        match self.reply_message_id {
            Some(id) => first_position(self.messages@, 0, is_reply(id)),
            None => None,
        }
    }

    /// Returns where the answer to the last question is.
    pub fn reply_index(&self) -> (index: Option<usize>)
        ensures
            match index {
                Some(index) => self.reply_position() == Some(index as int) && index
                    < self.messages@.len(),
                None => self.reply_position() is None,
            },
    {
        let Some(id) = self.reply_message_id else {
            return None;
        };
        let mut index: usize = 0;
        while index < self.messages.len()
            invariant
                index <= self.messages.len(),
                self.reply_message_id == Some(id),
                self.reply_position() == first_position(
                    self.messages@,
                    index as int,
                    is_reply(id),
                ),
            decreases self.messages.len() - index,
        {
            if self.messages[index].id == id && self.messages[index].role == ChatRole::Assistant {
                return Some(index);
            }
            index = index + 1;
        }
        None
    }

    /// Whether there is something to show: an answer, or a report.
    pub open spec fn shows_something(self) -> bool {
        self.status is Some || self.reply_message_id is Some
    }

    /// Whether what is shown is complete: the answer is no longer being written, or there is
    /// only a report.
    pub open spec fn reply_is_terminal(self) -> bool {
        match self.reply_message_id {
            None => self.status is Some,
            Some(_) => match self.reply_position() {
                Some(index) => !(self.messages@[index].state is Streaming),
                None => false,
            },
        }
    }

    /// Tells whether what is shown is complete.
    pub fn visible_reply_is_terminal(&self) -> (terminal: bool)
        ensures
            terminal == self.reply_is_terminal(),
    {
        if self.reply_message_id.is_none() {
            return self.status.is_some();
        }
        match self.reply_index() {
            Some(index) => match self.messages[index].state {
                ChatMessageState::Streaming => false,
                _ => true,
            },
            None => false,
        }
    }

    /// Whether a question can be taken.
    pub open spec fn takes_messages(self) -> bool {
        !self.streaming && !self.switching_memory && !self.shutting_down
    }
}

} // verus!
