//! What the page draws.

use vstd::prelude::*;

use crate::agent::message::ChatRole;
use crate::number_text::{decimal, decimal_text};
use crate::settings::llm::ModelProvider;
use crate::settings::persona::actions::PersonaPage;
use crate::settings::persona::config::PersonaView;
use crate::settings::persona::pane::EditorView;
use crate::settings::persona::view::{PersonaSettingsView, PersonaState};
use crate::text::{clone_optional, optional_view};

verus! {

/// The line below the name of a persona.
#[derive(Debug, Clone, Copy, PartialEq, Eq, Structural)]
pub enum PersonaSubtitle {
    /// The provider of the model that the persona is bound to.
    Provider(ModelProvider),
    /// The persona is bound to a model that is not there.
    ProviderMissing,
    /// The general choice applies.
    Inherit,
}

/// A line of the list of personas.
#[derive(Debug, PartialEq, Eq)]
pub struct PersonaRow {
    pub id: String,
    pub name: String,
    pub subtitle: PersonaSubtitle,
    pub editing: bool,
}

/// A line of the list of personas, in its texts.
#[verifier::ext_equal]
pub struct PersonaRowView {
    pub id: Seq<char>,
    pub name: Seq<char>,
    pub subtitle: PersonaSubtitle,
    pub editing: bool,
}

impl View for PersonaRow {
    type V = PersonaRowView;

    open spec fn view(&self) -> PersonaRowView {
        PersonaRowView {
            id: self.id@,
            name: self.name@,
            subtitle: self.subtitle,
            editing: self.editing,
        }
    }
}

/// What is drawn beside the list of personas.
#[derive(Debug, Clone, Copy, PartialEq, Eq, Structural)]
pub enum EditorContent {
    /// There is no persona.
    NoPersona,
    Page(PersonaPage),
}

/// A message as it is drawn.
#[derive(Debug, Clone, Copy, PartialEq, Eq, Structural)]
pub struct MessageRow {
    pub id: u64,
    pub assistant: bool,
    pub selected: bool,
    pub editing: bool,
}

/// What is drawn in place of messages.
#[derive(Debug, PartialEq, Eq)]
pub struct ContextNotices {
    pub loading: bool,
    pub error: Option<String>,
    /// The conversation has no messages.
    pub empty: bool,
}

impl PersonaState {
    /// The line below the name of a persona.
    pub open spec fn subtitle_of(self, persona: PersonaView) -> PersonaSubtitle {
        match persona.model {
            Some(id) => match self.providers.position_of(id) {
                Some(index) => PersonaSubtitle::Provider(self.providers.models[index].provider),
                None => PersonaSubtitle::ProviderMissing,
            },
            None => PersonaSubtitle::Inherit,
        }
    }

    /// The line of the persona at `index`.
    pub open spec fn row_of(self, index: int) -> PersonaRowView {
        PersonaRowView {
            id: self.draft.personas[index].id,
            name: self.draft.personas[index].name,
            subtitle: self.subtitle_of(self.draft.personas[index]),
            editing: self.ui.editing_index matches Some(editing) && editing == index,
        }
    }

    /// How a message is drawn.
    pub open spec fn message_row(self, editor: EditorView) -> MessageRow {
        MessageRow {
            id: editor.id,
            assistant: editor.role == ChatRole::Assistant,
            selected: self.pane.selected.contains(editor.id),
            editing: self.pane.flags.editing == Some(editor.id),
        }
    }

    /// Whether messages are drawn at all.
    pub open spec fn draws_messages(self) -> bool {
        !self.pane.flags.loading && self.pane.error is None
    }
}

/// How a number of the conversation is shown: as a dash while it is not known.
pub open spec fn stat_text(value: Option<usize>) -> Seq<char> {
    match value {
        Some(value) => decimal_text(value as nat),
        None => "-"@,
    }
}

/// Shows a number of the conversation.
pub fn show_stat(value: Option<usize>) -> (text: String)
    ensures
        text@ == stat_text(value),
{
    match value {
        Some(value) => decimal(value as u64),
        None => "-".to_owned(),
    }
}

impl PersonaSettingsView {
    fn subtitle(&self, index: usize) -> (subtitle: PersonaSubtitle)
        requires
            index < self.draft.personas@.len(),
        ensures
            subtitle == self@.subtitle_of(self@.draft.personas[index as int]),
    {
        proof {
            assert(self@.draft.personas[index as int] == self.draft.personas@[index as int]@);
        }
        match &self.draft.personas[index].model {
            Some(id) => match self.providers.model_index(id) {
                Some(found) => {
                    proof {
                        assert(self@.providers.models[found as int]
                            == self.providers.models@[found as int]@);
                    }
                    PersonaSubtitle::Provider(self.providers.models[found].provider)
                },
                None => PersonaSubtitle::ProviderMissing,
            },
            None => PersonaSubtitle::Inherit,
        }
    }

    /// Returns the lines of the list of personas.
    pub fn persona_rows(&self) -> (rows: Vec<PersonaRow>)
        ensures
            rows@.len() == self@.draft.personas.len(),
            forall|i: int| 0 <= i < rows@.len() ==> (#[trigger] rows@[i])@ == self@.row_of(i),
    {
        let mut rows: Vec<PersonaRow> = Vec::new();
        let mut index: usize = 0;
        while index < self.draft.personas.len()
            invariant
                index <= self.draft.personas.len(),
                rows@.len() == index,
                forall|i: int| 0 <= i < index ==> (#[trigger] rows@[i])@ == self@.row_of(i),
            decreases self.draft.personas.len() - index,
        {
            proof {
                assert(self@.draft.personas[index as int] == self.draft.personas@[index as int]@);
            }
            let editing = match self.ui.editing_index {
                Some(editing) => editing == index,
                None => false,
            };
            rows.push(
                PersonaRow {
                    id: self.draft.personas[index].id.clone(),
                    name: self.draft.personas[index].name.clone(),
                    subtitle: self.subtitle(index),
                    editing,
                },
            );
            index = index + 1;
        }
        rows
    }

    /// Tells whether personas can be deleted.
    pub fn can_delete_personas(&self) -> (can: bool)
        ensures
            can == (self@.draft.personas.len() > 1),
    {
        self.draft.personas.len() > 1
    }

    /// Returns what is drawn beside the list of personas.
    pub fn editor_content(&self) -> (content: EditorContent)
        ensures
            content == (if self@.ui.editing_index is Some {
                EditorContent::Page(self@.ui.active_page)
            } else {
                EditorContent::NoPersona
            }),
    {
        if self.ui.editing_index.is_some() {
            EditorContent::Page(self.ui.active_page)
        } else {
            EditorContent::NoPersona
        }
    }

    /// Returns the numbers of messages and tokens as they are shown.
    pub fn context_stats(&self) -> (stats: (String, String))
        ensures
            stats.0@ == stat_text(
                match self@.memory.usage {
                    Some(usage) => Some(usage.messages),
                    None => None,
                },
            ),
            stats.1@ == stat_text(
                match self@.memory.usage {
                    Some(usage) => Some(usage.tokens),
                    None => None,
                },
            ),
    {
        match self.memory.usage {
            Some(usage) => (show_stat(Some(usage.messages)), show_stat(Some(usage.tokens))),
            None => (show_stat(None), show_stat(None)),
        }
    }

    /// Returns the messages as they are drawn.
    pub fn message_rows(&self) -> (rows: Vec<MessageRow>)
        ensures
            !self@.draws_messages() ==> rows@.len() == 0,
            self@.draws_messages() ==> rows@.len() == self@.pane.editors.len(),
            forall|i: int|
                0 <= i < rows@.len() ==> #[trigger] rows@[i] == self@.message_row(
                    self@.pane.editors[i],
                ),
    {
        let mut rows: Vec<MessageRow> = Vec::new();
        if self.pane.flags.loading || self.pane.error.is_some() {
            return rows;
        }
        let mut index: usize = 0;
        while index < self.pane.editors.len()
            invariant
                index <= self.pane.editors.len(),
                rows@.len() == index,
                forall|i: int|
                    0 <= i < index ==> #[trigger] rows@[i] == self@.message_row(
                        self@.pane.editors[i],
                    ),
            decreases self.pane.editors.len() - index,
        {
            let editor = &self.pane.editors[index];
            proof {
                assert(self@.pane.editors[index as int] == editor@);
            }
            rows.push(
                MessageRow {
                    id: editor.id,
                    assistant: editor.role == ChatRole::Assistant,
                    selected: self.pane.selected.contains(editor.id),
                    editing: self.pane.flags.editing == Some(editor.id),
                },
            );
            index = index + 1;
        }
        rows
    }

    /// Returns what is drawn in place of messages.
    pub fn context_notices(&self) -> (notices: ContextNotices)
        ensures
            notices.loading == self@.pane.flags.loading,
            optional_view(notices.error) == self@.pane.error,
            notices.empty == (self@.draws_messages() && self@.pane.editors.len() == 0),
    {
        ContextNotices {
            loading: self.pane.flags.loading,
            error: clone_optional(&self.pane.error),
            empty: !self.pane.flags.loading && self.pane.error.is_none()
                && self.pane.editors.len() == 0,
        }
    }

    /// Tells whether a frame is drawn around messages.
    pub fn draws_frame(&self) -> (drawn: bool)
        ensures
            drawn == (self@.pane.drag matches Some(drag) && drag.moved),
    {
        match &self.pane.drag {
            Some(drag) => drag.moved,
            None => false,
        }
    }

    /// Counts the selected messages.
    pub fn selected_count(&self) -> (count: usize)
        ensures
            count == self@.pane.selected.len(),
    {
        self.pane.selected.len()
    }

    /// Tells whether the menu of a message offers to edit it: only one by itself can be.
    pub fn menu_offers_edit(&self) -> (offered: bool)
        ensures
            offered == (self@.pane.selected.len() == 1),
    {
        self.pane.selected.len() == 1
    }
}

} // verus!
