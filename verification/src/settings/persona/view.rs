//! The page itself: which persona is edited, and what becomes of the edits.

use vstd::prelude::*;

use crate::id_set::TextSet;
use crate::revision::{next_revision, revision_after};
use crate::settings::llm::{LlmSettings, LlmSettingsView};
use crate::settings::persona::actions::{
    MemoryScope, PersonaAction, PersonaActions, PersonaEffect, PersonaPage,
};
use crate::settings::persona::config::{PersonaSettings, PersonaSettingsData, PersonaView};
use crate::settings::persona::form::{
    missing_model, Live2dChoices, Live2dChoicesView, PersonaForm, PersonaFormView,
};
use crate::settings::persona::pane::{ContextFlags, ContextPane, ContextPaneView};
use crate::settings::provider::view::InputEdit;

verus! {

/// What the page reports for a moment.
#[derive(Debug, PartialEq, Eq)]
pub enum PersonaStatus {
    /// The draft cannot be saved, and why.
    Invalid(String),
    /// The last persona cannot be deleted.
    LastPersona,
    Saving,
    Saved,
    /// Somebody else has stored other settings meanwhile.
    SaveReplaced,
    SaveFailed(String),
    Copied,
    /// A message is too large to be kept in a file.
    MessageFileTooLarge,
    MessageEmpty,
    /// A message is too large for the conversation.
    MessageTooLarge,
    MessagesDeleted(usize),
    MessageSaveFailed(String),
    MemoryClearing,
    MemoryCleared,
    MemoryClearFailed(String),
}

/// How much of its room a conversation takes.
#[derive(Debug, Clone, Copy, PartialEq, Eq, Structural)]
pub struct ContextUsage {
    pub messages: usize,
    pub max_messages: usize,
    pub tokens: usize,
    pub max_tokens: usize,
}

/// Why it is not known how much memory a persona uses.
#[derive(Debug, PartialEq, Eq)]
pub enum UsageError {
    MemoryUnavailable,
    Failed(String),
}

/// Something dangerous that waits for a second word.
#[derive(Debug)]
pub enum PendingConfirm {
    ClearMemory { persona: String, scope: MemoryScope },
    DeletePersona { persona: String },
    DeleteMessages { persona: String, message_ids: Vec<u64> },
}

/// Something dangerous that waits for a second word, as a value.
pub enum PendingConfirmView {
    ClearMemory { persona: Seq<char>, scope: MemoryScope },
    DeletePersona { persona: Seq<char> },
    DeleteMessages { persona: Seq<char>, message_ids: Seq<u64> },
}

impl View for PendingConfirm {
    type V = PendingConfirmView;

    open spec fn view(&self) -> PendingConfirmView {
        match *self {
            PendingConfirm::ClearMemory { persona, scope } => PendingConfirmView::ClearMemory {
                persona: persona@,
                scope,
            },
            PendingConfirm::DeletePersona { persona } => PendingConfirmView::DeletePersona {
                persona: persona@,
            },
            PendingConfirm::DeleteMessages { persona, message_ids } =>
                PendingConfirmView::DeleteMessages {
                persona: persona@,
                message_ids: message_ids@,
            },
        }
    }
}

/// Something that may wait for a second word, as a value.
pub open spec fn confirm_view(pending: Option<PendingConfirm>) -> Option<PendingConfirmView> {
    match pending {
        Some(pending) => Some(pending@),
        None => None,
    }
}

/// What is known of the memory of the persona that is edited.
#[derive(Debug)]
pub struct MemoryPane {
    /// Whether there is a memory to ask.
    pub available: bool,
    pub usage: Option<ContextUsage>,
    pub usage_error: Option<UsageError>,
    /// Counts what makes an earlier answer outdated.
    pub usage_revision: u64,
    pub pending_confirm: Option<PendingConfirm>,
}

/// What is known of the memory, as a value.
pub struct MemoryPaneView {
    pub available: bool,
    pub usage: Option<ContextUsage>,
    pub usage_error: Option<UsageError>,
    pub usage_revision: u64,
    pub pending_confirm: Option<PendingConfirmView>,
}

impl View for MemoryPane {
    type V = MemoryPaneView;

    open spec fn view(&self) -> MemoryPaneView {
        MemoryPaneView {
            available: self.available,
            usage: self.usage,
            usage_error: self.usage_error,
            usage_revision: self.usage_revision,
            pending_confirm: confirm_view(self.pending_confirm),
        }
    }
}

/// The deleted personas whose memory is still to be cleared.
#[derive(Debug)]
pub struct CleanupState {
    /// Those whose identifiers must not be used again.
    pub pending: TextSet,
    /// Those whose memory is being cleared.
    pub in_flight: TextSet,
}

/// The deleted personas whose memory is still to be cleared, as a value.
#[verifier::ext_equal]
pub struct CleanupView {
    pub pending: Set<Seq<char>>,
    pub in_flight: Set<Seq<char>>,
}

impl View for CleanupState {
    type V = CleanupView;

    open spec fn view(&self) -> CleanupView {
        CleanupView { pending: self.pending@, in_flight: self.in_flight@ }
    }
}

/// The parts of the page that are no text.
#[derive(Debug, Clone, Copy, PartialEq, Eq, Structural)]
pub struct PersonaUi {
    pub active_page: PersonaPage,
    pub editing_index: Option<usize>,
    /// Whether the fields are being filled; what they report then is no edit.
    pub loading_form: bool,
    pub save_revision: u64,
    pub writes_in_flight: usize,
    /// Whether the window has been closed and its draft handed on.
    pub window_transferred: bool,
    pub toast_revision: u64,
}

/// The page on which personas are written.
#[derive(Debug)]
pub struct PersonaSettingsView {
    pub draft: PersonaSettings,
    /// What was handed in last.
    pub submitted: PersonaSettings,
    pub providers: LlmSettings,
    pub live2d: Live2dChoices,
    pub form: PersonaForm,
    pub pane: ContextPane,
    pub memory: MemoryPane,
    pub cleanup: CleanupState,
    pub ui: PersonaUi,
    pub status: Option<PersonaStatus>,
    pub input_edit: Option<InputEdit>,
}

/// The page, as a value.
#[verifier::ext_equal]
pub struct PersonaState {
    pub draft: PersonaSettingsData,
    pub submitted: PersonaSettingsData,
    pub providers: LlmSettingsView,
    pub live2d: Live2dChoicesView,
    pub form: PersonaFormView,
    pub pane: ContextPaneView,
    pub memory: MemoryPaneView,
    pub cleanup: CleanupView,
    pub ui: PersonaUi,
    pub status: Option<PersonaStatus>,
    pub input_edit: Option<InputEdit>,
}

impl View for PersonaSettingsView {
    type V = PersonaState;

    open spec fn view(&self) -> PersonaState {
        PersonaState {
            draft: self.draft@,
            submitted: self.submitted@,
            providers: self.providers@,
            live2d: self.live2d@,
            form: self.form@,
            pane: self.pane@,
            memory: self.memory@,
            cleanup: self.cleanup@,
            ui: self.ui,
            status: self.status,
            input_edit: self.input_edit,
        }
    }
}

impl PersonaState {
    /// Whether the page can count what it offers.
    pub open spec fn well_formed(self) -> bool {
        self.providers.models.len() < usize::MAX && self.live2d.paths.len() < usize::MAX
    }

    /// The persona that is edited.
    pub open spec fn editing(self) -> Option<PersonaView> {
        self.draft.persona_at(self.ui.editing_index)
    }

    /// The identifier of the persona that is edited.
    pub open spec fn editing_id(self) -> Option<Seq<char>> {
        match self.editing() {
            Some(persona) => Some(persona.id),
            None => None,
        }
    }

    /// The page with what the form holds written into the draft.
    pub open spec fn captured(self) -> Self {
        match self.editing() {
            Some(persona) => PersonaState {
                draft: PersonaSettingsData {
                    personas: self.draft.personas.update(
                        self.ui.editing_index->Some_0 as int,
                        self.form.captured(persona, self.providers, self.live2d),
                    ),
                    ..self.draft
                },
                ..self
            },
            None => self,
        }
    }

    /// The page with a report.
    pub open spec fn reporting(self, status: PersonaStatus) -> Self {
        PersonaState {
            status: Some(status),
            ui: PersonaUi { toast_revision: revision_after(self.ui.toast_revision), ..self.ui },
            ..self
        }
    }

    /// What a report takes.
    pub open spec fn report_effects(self) -> Seq<PersonaEffect> {
        seq![
            PersonaEffect::StartToast { revision: revision_after(self.ui.toast_revision) },
            PersonaEffect::Notify,
        ]
    }

    /// The page about to ask how much memory is used.
    pub open spec fn asking_usage(self) -> Self {
        let revision = revision_after(self.memory.usage_revision);
        PersonaState {
            memory: if self.editing() is None {
                MemoryPaneView {
                    usage: None,
                    usage_error: None,
                    usage_revision: revision,
                    ..self.memory
                }
            } else if !self.memory.available {
                MemoryPaneView {
                    usage: None,
                    usage_error: Some(UsageError::MemoryUnavailable),
                    usage_revision: revision,
                    ..self.memory
                }
            } else {
                MemoryPaneView { usage_revision: revision, ..self.memory }
            },
            ..self
        }
    }

    /// What asking how much memory is used takes.
    pub open spec fn usage_effects(self) -> Seq<PersonaEffect> {
        match self.editing_id() {
            Some(persona) => if self.memory.available {
                seq![
                    PersonaEffect::LoadUsage {
                        revision: revision_after(self.memory.usage_revision),
                        persona,
                    },
                ]
            } else {
                Seq::empty()
            },
            None => Seq::empty(),
        }
    }

    /// The page about to load the messages.
    pub open spec fn loading_context(self) -> Self {
        PersonaState { pane: self.pane.reloading(self.editing() is Some), ..self }
    }

    /// What loading the messages takes.
    pub open spec fn context_effects(self) -> Seq<PersonaEffect> {
        match self.editing_id() {
            Some(persona) => seq![
                PersonaEffect::LoadContext {
                    revision: revision_after(self.pane.flags.revision),
                    persona,
                },
                PersonaEffect::Notify,
            ],
            None => Seq::empty(),
        }
    }

    /// The page about to watch the running conversation, or no longer watching it.
    pub open spec fn with_new_watch(self) -> Self {
        PersonaState {
            pane: ContextPaneView {
                flags: ContextFlags {
                    auto_refresh_revision: revision_after(self.pane.flags.auto_refresh_revision),
                    ..self.pane.flags
                },
                ..self.pane
            },
            ..self
        }
    }

    /// What watching the running conversation takes.
    pub open spec fn watch_effects(self) -> Seq<PersonaEffect> {
        seq![
            PersonaEffect::WatchContext {
                revision: revision_after(self.pane.flags.auto_refresh_revision),
                target: self.editing_id(),
            },
        ]
    }

    /// The page with the conversation about to be shown, where it is the conversation that
    /// is on view.
    pub open spec fn showing_context(self) -> Self {
        if self.ui.active_page == PersonaPage::Context {
            self.asking_usage().loading_context().with_new_watch()
        } else {
            self
        }
    }

    /// What showing the conversation takes.
    pub open spec fn showing_context_effects(self) -> Seq<PersonaEffect> {
        if self.ui.active_page == PersonaPage::Context {
            self.usage_effects() + self.context_effects() + self.watch_effects()
        } else {
            Seq::empty()
        }
    }

    /// The page with the form about to show the persona at `index`.
    pub open spec fn form_turned(self, index: Option<usize>) -> Self {
        let persona = self.draft.persona_at(index);
        PersonaState {
            form: PersonaFormView::showing(persona, self.providers, self.live2d.paths),
            live2d: Live2dChoicesView {
                missing: missing_model(persona, self.live2d.paths),
                ..self.live2d
            },
            ui: PersonaUi { editing_index: index, loading_form: true, ..self.ui },
            memory: MemoryPaneView { usage: None, usage_error: None, ..self.memory },
            ..self
        }
    }

    /// The page turned to the persona at `index`.
    pub open spec fn turned_to(self, index: Option<usize>) -> Self {
        self.form_turned(index).showing_context()
    }

    /// What turning to the persona at `index` takes.
    pub open spec fn turn_effects(self, index: Option<usize>) -> Seq<PersonaEffect> {
        seq![PersonaEffect::FillForm] + self.form_turned(index).showing_context_effects() + seq![
            PersonaEffect::Notify,
        ]
    }
}

impl PersonaSettingsView {
    /// Returns the identifier of the persona that is edited.
    pub fn editing_persona_id(&self) -> (id: Option<String>)
        ensures
            match id {
                Some(id) => self@.editing_id() == Some(id@),
                None => self@.editing_id() is None,
            },
            (id is None) == (self@.editing() is None),
    {
        match self.ui.editing_index {
            Some(index) => if index < self.draft.personas.len() {
                proof {
                    assert(self@.draft.personas[index as int] == self.draft.personas@[index as int]@);
                }
                Some(self.draft.personas[index].id.clone())
            } else {
                None
            },
            None => None,
        }
    }

    /// Writes what the form holds into the draft.
    pub fn capture_current_form(&mut self)
        ensures
            final(self)@ == old(self)@.captured(),
    {
        let Some(index) = self.ui.editing_index else {
            return;
        };
        if index >= self.draft.personas.len() {
            return;
        }
        let captured = self.form.capture(&self.draft.personas[index], &self.providers, &self.live2d);
        self.draft.personas.set(index, captured);
        proof {
            assert(self@.draft.personas =~= old(self)@.captured().draft.personas);
        }
    }

    /// Reports something for a moment.
    pub fn set_status(&mut self, status: PersonaStatus) -> (actions: PersonaActions)
        ensures
            final(self)@ == old(self)@.reporting(status),
            actions@ == old(self)@.report_effects(),
    {
        self.ui.toast_revision = next_revision(self.ui.toast_revision);
        self.status = Some(status);
        let mut actions = PersonaActions::one(
            PersonaAction::StartToast { revision: self.ui.toast_revision },
        );
        actions.push(PersonaAction::Notify);
        proof {
            assert(actions@ =~= old(self)@.report_effects());
        }
        actions
    }

    /// Takes a report away once it has been shown long enough, unless a newer one has taken
    /// its place.
    pub fn toast_expired(&mut self, revision: u64) -> (actions: PersonaActions)
        ensures
            old(self)@.ui.toast_revision == revision ==> {
                &&& final(self)@ == (PersonaState { status: None, ..old(self)@ })
                &&& actions@ == seq![PersonaEffect::Notify]
            },
            old(self)@.ui.toast_revision != revision ==> {
                &&& final(self)@ == old(self)@
                &&& actions@ == Seq::<PersonaEffect>::empty()
            },
    {
        if self.ui.toast_revision != revision {
            return PersonaActions::none();
        }
        self.status = None;
        PersonaActions::one(PersonaAction::Notify)
    }

    /// Asks how much memory the persona uses that is edited.
    pub fn refresh_usage(&mut self) -> (actions: PersonaActions)
        ensures
            final(self)@ == old(self)@.asking_usage(),
            actions@ == old(self)@.usage_effects(),
    {
        self.memory.usage_revision = next_revision(self.memory.usage_revision);
        let Some(persona) = self.editing_persona_id() else {
            self.memory.usage = None;
            self.memory.usage_error = None;
            return PersonaActions::none();
        };
        if !self.memory.available {
            self.memory.usage = None;
            self.memory.usage_error = Some(UsageError::MemoryUnavailable);
            return PersonaActions::none();
        }
        PersonaActions::one(
            PersonaAction::LoadUsage { revision: self.memory.usage_revision, persona },
        )
    }

    /// Loads the messages of the persona that is edited.
    pub fn refresh_context(&mut self) -> (actions: PersonaActions)
        ensures
            final(self)@ == old(self)@.loading_context(),
            actions@ == old(self)@.context_effects(),
    {
        let persona = self.editing_persona_id();
        self.pane.reload(persona.is_some());
        let Some(persona) = persona else {
            return PersonaActions::none();
        };
        let mut actions = PersonaActions::one(
            PersonaAction::LoadContext { revision: self.pane.flags.revision, persona },
        );
        actions.push(PersonaAction::Notify);
        proof {
            assert(actions@ =~= old(self)@.context_effects());
        }
        actions
    }

    /// Begins to watch the running conversation of the persona that is edited.
    pub fn start_context_auto_refresh(&mut self) -> (actions: PersonaActions)
        ensures
            final(self)@ == old(self)@.with_new_watch(),
            actions@ == old(self)@.watch_effects(),
    {
        self.stop_context_auto_refresh();
        let persona = self.editing_persona_id();
        PersonaActions::one(
            PersonaAction::WatchContext {
                revision: self.pane.flags.auto_refresh_revision,
                persona,
            },
        )
    }

    /// No longer watches the running conversation.
    pub fn stop_context_auto_refresh(&mut self)
        ensures
            final(self)@ == old(self)@.with_new_watch(),
    {
        self.pane.flags.auto_refresh_revision = next_revision(
            self.pane.flags.auto_refresh_revision,
        );
    }

    /// Shows the conversation anew, where it is the conversation that is on view.
    pub fn show_context_page(&mut self) -> (actions: PersonaActions)
        ensures
            final(self)@ == old(self)@.showing_context(),
            actions@ == old(self)@.showing_context_effects(),
    {
        if self.ui.active_page != PersonaPage::Context {
            return PersonaActions::none();
        }
        let mut actions = self.refresh_usage();
        let context = self.refresh_context();
        actions.append(context);
        let watch = self.start_context_auto_refresh();
        actions.append(watch);
        actions
    }

    fn show_form(&mut self, index: Option<usize>)
        requires
            old(self)@.well_formed(),
        ensures
            final(self)@ == old(self)@.form_turned(index),
    {
        proof {
            assert(self@.providers.models.len() == self.providers.models@.len());
            assert(self@.live2d.paths.len() == self.live2d.models@.len());
        }
        self.ui.loading_form = true;
        self.ui.editing_index = index;
        let (form, missing) = match index {
            Some(index) => if index < self.draft.personas.len() {
                proof {
                    assert(self@.draft.personas[index as int] == self.draft.personas@[index as int]@);
                }
                PersonaForm::show(
                    Some(&self.draft.personas[index]),
                    &self.providers,
                    &self.live2d.models,
                )
            } else {
                PersonaForm::show(None, &self.providers, &self.live2d.models)
            },
            None => PersonaForm::show(None, &self.providers, &self.live2d.models),
        };
        self.form = form;
        self.live2d.missing = missing;
        self.memory.usage = None;
        self.memory.usage_error = None;
    }

    /// Turns to the persona at `index`.
    pub fn load_form(&mut self, index: Option<usize>) -> (actions: PersonaActions)
        requires
            old(self)@.well_formed(),
        ensures
            final(self)@ == old(self)@.turned_to(index),
            actions@ == old(self)@.turn_effects(index),
    {
        self.show_form(index);
        let mut actions = PersonaActions::one(PersonaAction::FillForm);
        let context = self.show_context_page();
        actions.append(context);
        actions.push(PersonaAction::Notify);
        proof {
            assert(actions@ =~= old(self)@.turn_effects(index));
        }
        actions
    }

    /// Takes note that the fields hold the form.
    pub fn form_filled(&mut self)
        ensures
            final(self)@ == (PersonaState {
                ui: PersonaUi { loading_form: false, ..old(self)@.ui },
                ..old(self)@
            }),
    {
        self.ui.loading_form = false;
    }

    /// Takes what the fields hold.
    pub fn set_form(&mut self, form: PersonaForm)
        ensures
            final(self)@ == (PersonaState { form: form@, ..old(self)@ }),
    {
        self.form = form;
    }

    /// Takes note whether there is a memory to ask.
    pub fn set_memory_available(&mut self, available: bool)
        ensures
            final(self)@ == (PersonaState {
                memory: MemoryPaneView { available, ..old(self)@.memory },
                ..old(self)@
            }),
    {
        self.memory.available = available;
    }
}

} // verus!
