//! The page itself: which model is edited, and what becomes of the edits.

use vstd::prelude::*;

use crate::revision::{next_revision, revision_after};
use crate::settings::llm::{LlmModelView, LlmSettings, LlmSettingsView, ModelKind};
use crate::settings::provider::form::{ProviderForm, ProviderFormView};
use crate::settings::provider::options::ProviderCatalog;

verus! {

/// What the page reports for a moment.
#[derive(Debug, PartialEq, Eq)]
pub enum ProviderStatus {
    /// The draft cannot be saved, and why.
    Invalid(String),
    Saving,
    Saved,
    /// Somebody else has stored other settings meanwhile.
    SaveReplaced,
    SaveFailed(String),
}

/// An edit that can be called off: a field, and the text that it had before.
#[derive(Debug, PartialEq, Eq)]
pub struct InputEdit {
    pub field: u32,
    pub text: String,
}

/// What the surroundings of the page have to do.
#[derive(Debug, Clone, Copy, PartialEq, Eq, Structural)]
pub enum ProviderAction {
    Notify,
    /// Put the form into its fields, and report when that is done.
    FillForm,
    /// Read the form, check the draft, and hand in what came of it.
    SaveDraft,
    /// Store the settings that have been handed in.
    WriteSettings { revision: u64 },
    /// Put the report into words, and take it away after a while.
    StartToast { revision: u64 },
    /// Ask for a model file.
    OpenPicker { revision: u64 },
    /// Tell the companion that its models have changed.
    Saved,
    /// Tell the window that nothing is being stored any more.
    SaveFinished,
    /// Take the keyboard away from the field.
    Blur,
    /// Hand the draft on, for the window is being closed.
    TransferWindow,
}

/// The parts of the page that are no text.
#[derive(Debug, Clone, Copy, PartialEq, Eq, Structural)]
pub struct ProviderUi {
    pub active_kind: ModelKind,
    pub editing_index: Option<usize>,
    pub advanced_expanded: bool,
    /// Whether the fields are being filled; what they report then is no edit.
    pub loading_form: bool,
    pub save_revision: u64,
    pub writes_in_flight: usize,
    pub toast_revision: u64,
    pub picker_revision: u64,
}

/// The page on which models are set up.
#[derive(Debug)]
pub struct ProviderSettingsView {
    pub draft: LlmSettings,
    /// What was handed in last.
    pub submitted: LlmSettings,
    pub form: ProviderForm,
    pub catalog: ProviderCatalog,
    pub ui: ProviderUi,
    pub status: Option<ProviderStatus>,
    pub input_edit: Option<InputEdit>,
}

impl LlmSettingsView {
    /// The model at a position, if there is one.
    pub open spec fn model_at(self, index: Option<usize>) -> Option<LlmModelView> {
        match index {
            Some(index) => if index < self.models.len() {
                Some(self.models[index as int])
            } else {
                None
            },
            None => None,
        }
    }

    /// The kind of models that the page opens with: that of the chat model in use, or else
    /// that of the transcription model in use, or else chat models.
    pub open spec fn opening_kind(self) -> ModelKind {
        match self.selected_model_view() {
            Some(model) => model.kind,
            None => match self.selected_transcription_view() {
                Some(model) => model.kind,
                None => ModelKind::ChatCompletions,
            },
        }
    }

    /// The model whose identifier is stored as the chat model in use.
    pub open spec fn selected_model_view(self) -> Option<LlmModelView> {
        match self.selected_model {
            Some(id) => match self.position_of(id) {
                Some(index) => Some(self.models[index]),
                None => None,
            },
            None => None,
        }
    }

    /// The model whose identifier is stored as the transcription model in use.
    pub open spec fn selected_transcription_view(self) -> Option<LlmModelView> {
        match self.selected_transcription_model {
            Some(id) => match self.position_of(id) {
                Some(index) => Some(self.models[index]),
                None => None,
            },
            None => None,
        }
    }
}

impl ProviderSettingsView {
    /// Whether the page can count what it offers.
    pub open spec fn well_formed(self) -> bool {
        self.catalog.well_formed()
    }

    /// The draft with what the form holds.
    pub open spec fn captured_draft(self) -> LlmSettingsView {
        match self.draft@.model_at(self.ui.editing_index) {
            Some(model) => LlmSettingsView {
                models: self.draft@.models.update(
                    self.ui.editing_index->Some_0 as int,
                    self.catalog.captured_model(model, self.form@),
                ),
                ..self.draft@
            },
            None => self.draft@,
        }
    }

    /// Everything but the draft and the form is as it was in `other`.
    pub open spec fn same_surroundings(self, other: Self) -> bool {
        &&& self.submitted == other.submitted
        &&& self.catalog == other.catalog
        &&& self.status == other.status
        &&& self.input_edit == other.input_edit
    }

    /// Writes what the form holds into the draft.
    pub fn capture_current_form(&mut self)
        requires
            old(self).well_formed(),
        ensures
            final(self).draft@ == old(self).captured_draft(),
            final(self).form == old(self).form,
            final(self).ui == old(self).ui,
            final(self).same_surroundings(*old(self)),
    {
        let Some(index) = self.ui.editing_index else {
            return;
        };
        if index >= self.draft.models.len() {
            return;
        }
        let captured = self.catalog.capture_model(&self.draft.models[index], &self.form);
        self.draft.models.set(index, captured);
        proof {
            assert(self.draft@ =~= old(self).captured_draft());
        }
    }

    /// The page with the form about to show the model at `index`.
    pub open spec fn loading_ui(self, index: Option<usize>) -> ProviderUi {
        ProviderUi {
            editing_index: index,
            loading_form: true,
            picker_revision: revision_after(self.ui.picker_revision),
            ..self.ui
        }
    }

    /// The form that shows the model at `index`.
    pub open spec fn form_for(self, index: Option<usize>) -> ProviderFormView {
        self.catalog.shown_form(self.ui.active_kind, self.draft@.model_at(index))
    }

    /// Turns to the model at `index`. A file that is being asked for is no longer wanted.
    pub fn load_form(&mut self, index: Option<usize>) -> (actions: Vec<ProviderAction>)
        requires
            old(self).well_formed(),
        ensures
            final(self).form@ == old(self).form_for(index),
            final(self).ui == old(self).loading_ui(index),
            final(self).draft == old(self).draft,
            final(self).same_surroundings(*old(self)),
            actions@ == seq![ProviderAction::FillForm, ProviderAction::Notify],
    {
        self.ui.loading_form = true;
        self.ui.picker_revision = next_revision(self.ui.picker_revision);
        self.ui.editing_index = index;
        let form = match index {
            Some(index) => if index < self.draft.models.len() {
                self.catalog.show_model(self.ui.active_kind, Some(&self.draft.models[index]))
            } else {
                self.catalog.show_model(self.ui.active_kind, None)
            },
            None => self.catalog.show_model(self.ui.active_kind, None),
        };
        self.form = form;
        vec![ProviderAction::FillForm, ProviderAction::Notify]
    }

    /// Takes note that the fields hold the form.
    pub fn form_filled(&mut self)
        ensures
            *final(self) == (ProviderSettingsView {
                ui: ProviderUi { loading_form: false, ..old(self).ui },
                ..*old(self)
            }),
    {
        self.ui.loading_form = false;
    }

    /// Opens the page on a draft.
    pub fn new_with_submitted(
        draft: LlmSettings,
        submitted: LlmSettings,
        catalog: ProviderCatalog,
    ) -> (view: Self)
        requires
            catalog.well_formed(),
        ensures
            view.well_formed(),
            view.draft == draft,
            view.submitted == submitted,
            view.catalog == catalog,
            view.ui.active_kind == draft@.opening_kind(),
            match view.ui.editing_index {
                Some(index) => draft@.editing_position(draft@.opening_kind()) == Some(index as int),
                None => draft@.editing_position(draft@.opening_kind()) is None,
            },
            view.ui == (ProviderUi {
                active_kind: view.ui.active_kind,
                editing_index: view.ui.editing_index,
                advanced_expanded: false,
                loading_form: false,
                save_revision: 0,
                writes_in_flight: 0,
                toast_revision: 0,
                picker_revision: 0,
            }),
            view.form@ == catalog.shown_form(
                view.ui.active_kind,
                draft@.model_at(view.ui.editing_index),
            ),
            view.status is None,
            view.input_edit is None,
    {
        let active_kind = Self::opening_kind(&draft);
        let editing_index = draft.editing_index(active_kind);
        let form = match editing_index {
            Some(index) => catalog.show_model(active_kind, Some(&draft.models[index])),
            None => catalog.show_model(active_kind, None),
        };
        ProviderSettingsView {
            draft,
            submitted,
            form,
            catalog,
            ui: ProviderUi {
                active_kind,
                editing_index,
                advanced_expanded: false,
                loading_form: false,
                save_revision: 0,
                writes_in_flight: 0,
                toast_revision: 0,
                picker_revision: 0,
            },
            status: None,
            input_edit: None,
        }
    }

    fn opening_kind(draft: &LlmSettings) -> (kind: ModelKind)
        ensures
            kind == draft@.opening_kind(),
    {
        if let Some(id) = &draft.selected_model {
            if let Some(index) = draft.model_index(id) {
                proof {
                    assert(draft@.models[index as int] == draft.models@[index as int]@);
                }
                return draft.models[index].kind;
            }
        }
        if let Some(id) = &draft.selected_transcription_model {
            if let Some(index) = draft.model_index(id) {
                proof {
                    assert(draft@.models[index as int] == draft.models@[index as int]@);
                }
                return draft.models[index].kind;
            }
        }
        ModelKind::ChatCompletions
    }
}

} // verus!
