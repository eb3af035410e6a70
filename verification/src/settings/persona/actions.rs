//! What the surroundings of the page have to do.

use vstd::prelude::*;

use crate::id_set::TextSet;
use crate::text::optional_view;

verus! {

/// The parts of the editor of a persona.
#[derive(Debug, Clone, Copy, PartialEq, Eq, Structural)]
pub enum PersonaPage {
    Definition,
    Context,
    MediumMemory,
    LongMemory,
    Settings,
}

/// How much of a persona's memory is to go.
#[derive(Debug, Clone, Copy, PartialEq, Eq, Structural)]
pub enum MemoryScope {
    /// The running conversation.
    Context,
    /// Everything.
    All,
}

impl MemoryScope {
    /// The name under which a scope is recorded.
    pub open spec fn name(self) -> Seq<char> {
        match self {
            MemoryScope::Context => "context"@,
            MemoryScope::All => "all"@,
        }
    }

    /// Returns the name under which a scope is recorded.
    pub fn id(self) -> (name: &'static str)
        ensures
            name@ == self.name(),
    {
        match self {
            MemoryScope::Context => "context",
            MemoryScope::All => "all",
        }
    }

    /// Tells whether stored memory is to go as well.
    pub fn persistent(self) -> (stored: bool)
        ensures
            stored == (self == MemoryScope::All),
    {
        match self {
            MemoryScope::Context => false,
            MemoryScope::All => true,
        }
    }
}

/// What the surroundings of the page have to do.
#[derive(Debug)]
#[allow(inconsistent_fields)]
pub enum PersonaAction {
    Notify,
    /// Put the form into its fields, and report when that is done.
    FillForm,
    /// Commit what is being edited, read the form, check the draft, and hand in what came of
    /// it.
    SaveDraft,
    /// Store the settings that have been handed in.
    WriteSettings { revision: u64 },
    /// Put the report into words, and take it away after a while.
    StartToast { revision: u64 },
    /// Tell the companion that its personas have changed.
    Saved,
    /// Tell the window that nothing is being stored or cleared any more.
    SaveFinished,
    /// Report once more whether nothing is being stored or cleared any more.
    CheckIdle,
    /// Hand the draft on, for the window is being closed.
    TransferWindow,
    /// Turn to another part of the editor.
    OpenPage { page: PersonaPage },
    /// Take the keyboard away from the field.
    Blur,
    /// Keep a key or a click from going any further.
    Consume,
    /// Put a text back into the field that is being edited.
    RestoreField { field: u32, text: String },
    /// Find out how much memory a persona uses.
    LoadUsage { revision: u64, persona: String },
    /// Load the messages of a persona.
    LoadContext { revision: u64, persona: String },
    /// Begin to watch the running conversation of a persona.
    WatchContext { revision: u64, persona: Option<String> },
    /// Look after a while whether the running conversation has gone on.
    PollContext { revision: u64, persona: Option<String> },
    /// Scroll to the last message.
    ScrollToEnd,
    /// Put the saved text back into the field of a message.
    RestoreMessage { message_id: u64 },
    /// Put the keyboard into the field of a message once it is there.
    FocusMessage { message_id: u64 },
    /// Give the keyboard to the list of messages.
    FocusMessages,
    /// Scroll a step after a while.
    ScheduleScroll { revision: u64 },
    /// Put a text into the clipboard.
    CopyText { text: String },
    /// Change a message in the conversation. `windowed` tells whether the page is still open
    /// to show what comes of it.
    EditMessage { persona: String, message_id: u64, content: String, windowed: bool },
    /// Delete messages from the conversation, `count` of which are there.
    DeleteMessages { persona: String, message_ids: Vec<u64>, count: usize },
    /// Clear a persona's memory. `cleanup` tells whether the persona has been deleted.
    ClearMemory { persona: String, scope: MemoryScope, cleanup: bool },
    /// Tell the window that a deleted persona's memory is gone.
    CleanupFinished { persona: String },
    /// The memory of these personas may be claimed again.
    ReleaseCleanups { personas: TextSet },
    /// Claim the memory of a deleted persona, and report whether that went well.
    ClaimCleanup { persona: String },
}

/// What the surroundings of the page have to do, as a value.
pub enum PersonaEffect {
    Notify,
    FillForm,
    SaveDraft,
    WriteSettings { revision: u64 },
    StartToast { revision: u64 },
    Saved,
    SaveFinished,
    CheckIdle,
    TransferWindow,
    OpenPage { page: PersonaPage },
    Blur,
    Consume,
    RestoreField { field: u32, text: Seq<char> },
    LoadUsage { revision: u64, persona: Seq<char> },
    LoadContext { revision: u64, persona: Seq<char> },
    WatchContext { revision: u64, target: Option<Seq<char>> },
    PollContext { revision: u64, target: Option<Seq<char>> },
    ScrollToEnd,
    RestoreMessage { message_id: u64 },
    FocusMessage { message_id: u64 },
    FocusMessages,
    ScheduleScroll { revision: u64 },
    CopyText { text: Seq<char> },
    EditMessage { persona: Seq<char>, message_id: u64, content: Seq<char>, windowed: bool },
    DeleteMessages { persona: Seq<char>, message_ids: Seq<u64>, count: int },
    ClearMemory { persona: Seq<char>, scope: MemoryScope, cleanup: bool },
    CleanupFinished { persona: Seq<char> },
    ReleaseCleanups { personas: Set<Seq<char>> },
    ClaimCleanup { persona: Seq<char> },
}

impl View for PersonaAction {
    type V = PersonaEffect;

    open spec fn view(&self) -> PersonaEffect {
        match *self {
            PersonaAction::Notify => PersonaEffect::Notify,
            PersonaAction::FillForm => PersonaEffect::FillForm,
            PersonaAction::SaveDraft => PersonaEffect::SaveDraft,
            PersonaAction::WriteSettings { revision } => PersonaEffect::WriteSettings { revision },
            PersonaAction::StartToast { revision } => PersonaEffect::StartToast { revision },
            PersonaAction::Saved => PersonaEffect::Saved,
            PersonaAction::SaveFinished => PersonaEffect::SaveFinished,
            PersonaAction::CheckIdle => PersonaEffect::CheckIdle,
            PersonaAction::TransferWindow => PersonaEffect::TransferWindow,
            PersonaAction::OpenPage { page } => PersonaEffect::OpenPage { page },
            PersonaAction::Blur => PersonaEffect::Blur,
            PersonaAction::Consume => PersonaEffect::Consume,
            PersonaAction::RestoreField { field, text } => PersonaEffect::RestoreField {
                field,
                text: text@,
            },
            PersonaAction::LoadUsage { revision, persona } => PersonaEffect::LoadUsage {
                revision,
                persona: persona@,
            },
            PersonaAction::LoadContext { revision, persona } => PersonaEffect::LoadContext {
                revision,
                persona: persona@,
            },
            PersonaAction::WatchContext { revision, persona } => PersonaEffect::WatchContext {
                revision,
                target: optional_view(persona),
            },
            PersonaAction::PollContext { revision, persona } => PersonaEffect::PollContext {
                revision,
                target: optional_view(persona),
            },
            PersonaAction::ScrollToEnd => PersonaEffect::ScrollToEnd,
            PersonaAction::RestoreMessage { message_id } => PersonaEffect::RestoreMessage {
                message_id,
            },
            PersonaAction::FocusMessage { message_id } => PersonaEffect::FocusMessage {
                message_id,
            },
            PersonaAction::FocusMessages => PersonaEffect::FocusMessages,
            PersonaAction::ScheduleScroll { revision } => PersonaEffect::ScheduleScroll {
                revision,
            },
            PersonaAction::CopyText { text } => PersonaEffect::CopyText { text: text@ },
            PersonaAction::EditMessage { persona, message_id, content, windowed } =>
                PersonaEffect::EditMessage {
                persona: persona@,
                message_id,
                content: content@,
                windowed,
            },
            PersonaAction::DeleteMessages { persona, message_ids, count } =>
                PersonaEffect::DeleteMessages {
                persona: persona@,
                message_ids: message_ids@,
                count: count as int,
            },
            PersonaAction::ClearMemory { persona, scope, cleanup } => PersonaEffect::ClearMemory {
                persona: persona@,
                scope,
                cleanup,
            },
            PersonaAction::CleanupFinished { persona } => PersonaEffect::CleanupFinished {
                persona: persona@,
            },
            PersonaAction::ReleaseCleanups { personas } => PersonaEffect::ReleaseCleanups {
                personas: personas@,
            },
            PersonaAction::ClaimCleanup { persona } => PersonaEffect::ClaimCleanup {
                persona: persona@,
            },
        }
    }
}

/// What has to be done, in order.
#[derive(Debug)]
pub struct PersonaActions {
    pub list: Vec<PersonaAction>,
}

impl View for PersonaActions {
    type V = Seq<PersonaEffect>;

    open spec fn view(&self) -> Seq<PersonaEffect> {
        Seq::new(self.list@.len(), |i: int| self.list@[i]@)
    }
}

impl PersonaActions {
    /// Nothing to do.
    pub fn none() -> (actions: Self)
        ensures
            actions@ == Seq::<PersonaEffect>::empty(),
    {
        let actions = PersonaActions { list: Vec::new() };
        proof {
            assert(actions@ =~= Seq::<PersonaEffect>::empty());
        }
        actions
    }

    /// One thing to do.
    pub fn one(action: PersonaAction) -> (actions: Self)
        ensures
            actions@ == seq![action@],
    {
        let actions = PersonaActions { list: vec![action] };
        proof {
            assert(actions@ =~= seq![action@]);
        }
        actions
    }

    /// Adds something to do at the end.
    pub fn push(&mut self, action: PersonaAction)
        ensures
            final(self)@ == old(self)@.push(action@),
    {
        self.list.push(action);
        proof {
            assert(self@ =~= old(self)@.push(action@));
        }
    }

    /// Adds everything that `rest` holds at the end.
    pub fn append(&mut self, rest: PersonaActions)
        ensures
            final(self)@ == old(self)@ + rest@,
    {
        let mut list = rest.list;
        self.list.append(&mut list);
        proof {
            assert(self@ =~= old(self)@ + rest@);
        }
    }
}

} // verus!
