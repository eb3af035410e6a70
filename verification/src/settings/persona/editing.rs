//! Turning from persona to persona, and the events of the form.

use vstd::prelude::*;

use crate::id_set::TextSet;
use crate::settings::llm::{LlmSettings, LlmSettingsView, ModelKind};
use crate::settings::persona::actions::{
    PersonaAction, PersonaActions, PersonaEffect, PersonaPage,
};
use crate::settings::persona::config::{
    persona_views, PersonaConfig, PersonaSettings, PersonaSettingsData, PersonaView,
};
use crate::settings::persona::context::{commit_keeps_surroundings, MessageWeights};
use crate::settings::persona::form::{
    missing_model, Live2dChoices, Live2dChoicesView, PersonaForm, PersonaFormView,
};
use crate::settings::persona::options::{
    is_next_persona_id, live2d_labels, live2d_option_state, live2d_paths, live2d_row,
    model_option_index, model_row, next_persona_id, Live2dModelOption,
};
use crate::settings::persona::pane::{ContextFlags, ContextPane, ContextPaneView};
use crate::settings::persona::persistence::PersonaSettingsDraft;
use crate::settings::persona::view::{
    CleanupState, CleanupView, MemoryPane, MemoryPaneView, PersonaSettingsView, PersonaState,
    PersonaUi,
};
use crate::settings::provider::persistence::InputEvent;
use crate::settings::provider::view::InputEdit;

verus! {

impl PersonaSettingsData {
    /// The persona that the page opens with: the one in use, or else the first.
    pub open spec fn opening_position(self) -> Option<int> {
        match self.selected_position() {
            Some(index) => Some(index),
            None => if self.personas.len() > 0 {
                Some(0int)
            } else {
                None
            },
        }
    }
}

impl PersonaState {
    /// The page as it is opened on a draft.
    pub open spec fn opened(
        draft: PersonaSettingsData,
        reserved: Set<Seq<char>>,
        submitted: PersonaSettingsData,
        providers: LlmSettingsView,
        labels: Seq<Seq<char>>,
        paths: Seq<Seq<char>>,
        memory_available: bool,
    ) -> Self {
        let editing_index = match draft.opening_position() {
            Some(index) => Some(index as usize),
            None => None,
        };
        let persona = draft.persona_at(editing_index);
        PersonaState {
            draft,
            submitted,
            providers,
            live2d: Live2dChoicesView { labels, paths, missing: missing_model(persona, paths) },
            form: PersonaFormView::showing(persona, providers, paths),
            pane: ContextPaneView {
                editors: Seq::empty(),
                selected: Set::empty(),
                drag: None,
                error: None,
                flags: ContextFlags {
                    editing: None,
                    loading: false,
                    revision: 0,
                    auto_refresh_revision: 0,
                    observed_live_revision: None,
                    scroll_revision: 0,
                    scroll_scheduled: false,
                },
            },
            memory: MemoryPaneView {
                available: memory_available,
                usage: None,
                usage_error: None,
                usage_revision: 0,
                pending_confirm: None,
            },
            cleanup: CleanupView {
                pending: reserved.union(draft.pending_deletions.to_set()),
                in_flight: Set::empty(),
            },
            ui: PersonaUi {
                active_page: PersonaPage::Definition,
                editing_index,
                loading_form: false,
                save_revision: 0,
                writes_in_flight: 0,
                window_transferred: false,
                toast_revision: 0,
            },
            status: None,
            input_edit: None,
        }
    }

    /// The model that the edited persona is bound to.
    pub open spec fn bound_model(self) -> Option<Seq<char>> {
        match self.editing() {
            Some(persona) => persona.model,
            None => None,
        }
    }

    /// The speech model that the edited persona is bound to.
    pub open spec fn bound_tts_model(self) -> Option<Seq<char>> {
        match self.editing() {
            Some(persona) => persona.tts_model,
            None => None,
        }
    }

    /// The Live2D model that the edited persona is bound to.
    pub open spec fn bound_live2d_model(self) -> Option<Seq<char>> {
        match self.editing() {
            Some(persona) => persona.live2d_model,
            None => None,
        }
    }

    /// The page with other models on offer, the form about to show them.
    pub open spec fn with_providers(self, providers: LlmSettingsView) -> Self {
        PersonaState {
            providers,
            form: PersonaFormView {
                provider_row: model_row(
                    providers,
                    ModelKind::ChatCompletions,
                    self.bound_model(),
                ),
                tts_row: model_row(
                    providers,
                    ModelKind::SpeechSynthesis,
                    self.bound_tts_model(),
                ),
                ..self.form
            },
            ui: PersonaUi { loading_form: true, ..self.ui },
            ..self
        }
    }

    /// The page with other Live2D models on offer, the form about to show them. A bound one
    /// that is not among them stays bound.
    pub open spec fn with_live2d_models(
        self,
        labels: Seq<Seq<char>>,
        paths: Seq<Seq<char>>,
    ) -> Self {
        PersonaState {
            live2d: Live2dChoicesView {
                labels,
                paths,
                missing: missing_model(self.editing(), paths),
            },
            form: PersonaFormView {
                live2d_row: live2d_row(paths, self.bound_live2d_model()),
                ..self.form
            },
            ui: PersonaUi { loading_form: true, ..self.ui },
            ..self
        }
    }

    /// The page with another persona in use.
    pub open spec fn using(self, id: Seq<char>) -> Self {
        PersonaState {
            draft: PersonaSettingsData { selected: Some(id), ..self.draft },
            ..self
        }
    }

    /// The page turned to another persona, which comes into use.
    pub open spec fn after_select(self, index: usize) -> Self {
        if index < self.draft.personas.len() {
            self.using(self.draft.personas[index as int].id).turned_to(Some(index))
        } else {
            self
        }
    }

    /// What turning to another persona takes.
    pub open spec fn select_effects(self, index: usize) -> Seq<PersonaEffect> {
        if index < self.draft.personas.len() {
            self.using(self.draft.personas[index as int].id).turn_effects(Some(index)).push(
                PersonaEffect::SaveDraft,
            )
        } else {
            Seq::empty()
        }
    }

    /// The page with a new persona, which comes into use.
    pub open spec fn with_new_persona(self, persona: PersonaView) -> Self {
        PersonaState {
            draft: PersonaSettingsData {
                personas: self.draft.personas.push(persona),
                selected: Some(persona.id),
                ..self.draft
            },
            ..self
        }
    }

    /// Whether the edit that can be called off is one of `field`.
    pub open spec fn edits_field(self, field: u32) -> bool {
        self.input_edit matches Some(edit) && edit.field == field
    }

    /// The edit that can be called off after a field reported something.
    pub open spec fn edit_after(self, field: u32, event: InputEvent) -> Option<InputEdit> {
        match event {
            InputEvent::Focus { text } => if self.ui.loading_form {
                self.input_edit
            } else {
                Some(InputEdit { field, text })
            },
            InputEvent::Blur => if self.edits_field(field) {
                None
            } else {
                self.input_edit
            },
            _ => self.input_edit,
        }
    }

    /// What a report of a field takes. Enter saves only where a text has one line.
    pub open spec fn input_effects(self, single_line: bool, event: InputEvent) -> Seq<
        PersonaEffect,
    > {
        if self.ui.loading_form {
            Seq::empty()
        } else {
            match event {
                InputEvent::PressEnter => if single_line {
                    seq![PersonaEffect::SaveDraft, PersonaEffect::Blur]
                } else {
                    Seq::empty()
                },
                InputEvent::Blur => seq![PersonaEffect::SaveDraft],
                _ => Seq::empty(),
            }
        }
    }
}

impl PersonaSettingsView {
    /// Opens the page on a draft.
    pub fn new_with_snapshots(
        draft: PersonaSettingsDraft,
        memory_available: bool,
        providers: LlmSettings,
        submitted: PersonaSettings,
        live2d_models: Vec<Live2dModelOption>,
    ) -> (view: Self)
        requires
            providers.models@.len() < usize::MAX,
            live2d_models@.len() < usize::MAX,
        ensures
            view@ == PersonaState::opened(
                draft.settings@,
                draft.reserved_cleanup@,
                submitted@,
                providers@,
                live2d_labels(live2d_models@),
                live2d_paths(live2d_models@),
                memory_available,
            ),
            view.live2d.models@ == live2d_models@,
            view@.well_formed(),
    {
        let settings = draft.settings;
        let mut pending = draft.reserved_cleanup;
        pending.extend(&settings.pending_deletions);
        let editing_index = match settings.selected_index() {
            Some(index) => Some(index),
            None => if settings.personas.len() > 0 {
                Some(0)
            } else {
                None
            },
        };
        let (form, missing) = match editing_index {
            Some(index) => {
                proof {
                    assert(settings@.personas[index as int] == settings.personas@[index as int]@);
                }
                PersonaForm::show(Some(&settings.personas[index]), &providers, &live2d_models)
            },
            None => PersonaForm::show(None, &providers, &live2d_models),
        };
        PersonaSettingsView {
            draft: settings,
            submitted,
            providers,
            live2d: Live2dChoices { models: live2d_models, missing },
            form,
            pane: ContextPane::new(),
            memory: MemoryPane {
                available: memory_available,
                usage: None,
                usage_error: None,
                usage_revision: 0,
                pending_confirm: None,
            },
            cleanup: CleanupState { pending, in_flight: TextSet::new() },
            ui: PersonaUi {
                active_page: PersonaPage::Definition,
                editing_index,
                loading_form: false,
                save_revision: 0,
                writes_in_flight: 0,
                window_transferred: false,
                toast_revision: 0,
            },
            status: None,
            input_edit: None,
        }
    }

    /// Returns the position of the edited persona in the draft, if it is there.
    fn editing_position(&self) -> (index: Option<usize>)
        ensures
            match index {
                Some(index) => self@.ui.editing_index == Some(index) && index
                    < self.draft.personas@.len() && self@.editing() == Some(
                    self.draft.personas@[index as int]@,
                ),
                None => self@.editing() is None,
            },
    {
        match self.ui.editing_index {
            Some(index) => if index < self.draft.personas.len() {
                proof {
                    assert(self@.draft.personas[index as int] == self.draft.personas@[index as int]@);
                }
                Some(index)
            } else {
                None
            },
            None => None,
        }
    }

    fn show_providers(&mut self, providers: LlmSettings)
        requires
            providers.models@.len() < usize::MAX,
        ensures
            final(self)@ == old(self)@.with_providers(providers@),
    {
        let (provider_row, tts_row) = match self.editing_position() {
            Some(index) => (
                model_option_index(
                    &providers,
                    ModelKind::ChatCompletions,
                    &self.draft.personas[index].model,
                ),
                model_option_index(
                    &providers,
                    ModelKind::SpeechSynthesis,
                    &self.draft.personas[index].tts_model,
                ),
            ),
            None => (0, 0),
        };
        self.providers = providers;
        self.form.provider_row = provider_row;
        self.form.tts_row = tts_row;
        self.ui.loading_form = true;
    }

    /// Offers other models.
    pub fn refresh_providers(&mut self, providers: LlmSettings, weights: &MessageWeights) -> (actions:
        PersonaActions)
        requires
            providers.models@.len() < usize::MAX,
            old(self)@.weighed_by(*weights),
        ensures
            ({
                let offered = old(self)@.all_committed(*weights).captured().with_providers(
                    providers@,
                );
                &&& final(self)@ == offered.showing_context()
                &&& actions@ == (old(self)@.all_committed_effects(*weights).push(
                    PersonaEffect::FillForm,
                ) + offered.showing_context_effects()).push(PersonaEffect::Notify)
            }),
    {
        let mut actions = self.commit_context_edits(weights);
        self.capture_current_form();
        self.show_providers(providers);
        actions.push(PersonaAction::FillForm);
        let context = self.show_context_page();
        actions.append(context);
        actions.push(PersonaAction::Notify);
        actions
    }

    /// Offers other Live2D models.
    pub fn refresh_live2d_models(&mut self, models: Vec<Live2dModelOption>) -> (actions:
        PersonaActions)
        requires
            models@.len() < usize::MAX,
        ensures
            final(self)@ == old(self)@.captured().with_live2d_models(
                live2d_labels(models@),
                live2d_paths(models@),
            ),
            final(self).live2d.models@ == models@,
            actions@ == seq![PersonaEffect::FillForm, PersonaEffect::Notify],
    {
        self.capture_current_form();
        let (row, missing) = match self.editing_position() {
            Some(index) => live2d_option_state(&models, &self.draft.personas[index].live2d_model),
            None => (0, None),
        };
        self.live2d = Live2dChoices { models, missing };
        self.form.live2d_row = row;
        self.ui.loading_form = true;
        let mut actions = PersonaActions::one(PersonaAction::FillForm);
        actions.push(PersonaAction::Notify);
        proof {
            assert(actions@ =~= seq![PersonaEffect::FillForm, PersonaEffect::Notify]);
        }
        actions
    }

    /// Turns to the persona at `index`, which comes into use.
    pub fn select_persona(&mut self, index: usize, weights: &MessageWeights) -> (actions:
        PersonaActions)
        requires
            old(self)@.well_formed(),
            old(self)@.weighed_by(*weights),
        ensures
            ({
                let captured = old(self)@.all_committed(*weights).captured();
                &&& final(self)@ == captured.after_select(index)
                &&& actions@ == old(self)@.all_committed_effects(*weights)
                    + captured.select_effects(index)
            }),
    {
        let mut actions = self.commit_context_edits(weights);
        self.capture_current_form();
        proof {
            commit_keeps_surroundings(
                old(self)@,
                weights.tokens@,
                weights.max_tokens,
                old(self)@.pane.editors.len() as int,
            );
        }
        let ghost effects = actions@;
        if index >= self.draft.personas.len() {
            proof {
                assert(effects + Seq::<PersonaEffect>::empty() =~= effects);
            }
            return actions;
        }
        proof {
            assert(self@.draft.personas[index as int] == self.draft.personas@[index as int]@);
        }
        self.draft.selected = Some(self.draft.personas[index].id.clone());
        let mut turn = self.load_form(Some(index));
        turn.push(PersonaAction::SaveDraft);
        actions.append(turn);
        actions
    }

    /// Adds a persona, which comes into use. It is like `blank` but for its identifier.
    pub fn add_persona(&mut self, blank: PersonaConfig, weights: &MessageWeights) -> (actions:
        PersonaActions)
        requires
            old(self)@.well_formed(),
            old(self)@.weighed_by(*weights),
            old(self).draft.personas@.len() + old(self).draft.pending_deletions@.len()
                + old(self).cleanup.pending.items@.len() < usize::MAX,
        ensures
            ({
                let captured = old(self)@.all_committed(*weights).captured();
                let id = final(self)@.draft.selected->Some_0;
                let added = captured.with_new_persona(PersonaView { id, ..blank@ });
                let index = Some(captured.draft.personas.len() as usize);
                &&& final(self)@.draft.selected is Some
                &&& is_next_persona_id(captured.draft, captured.cleanup.pending, id)
                &&& final(self)@ == added.turned_to(index)
                &&& actions@ == old(self)@.all_committed_effects(*weights)
                    + added.turn_effects(index).push(PersonaEffect::SaveDraft)
            }),
    {
        let ghost personas = self@.draft.personas;
        let ghost marks = self@.draft.pending_deletions;
        proof {
            assert(personas.len() == self.draft.personas@.len());
            assert(marks.len() == self.draft.pending_deletions@.len());
        }
        let reserved = self.cleanup.pending.copy();
        let mut actions = self.commit_context_edits(weights);
        self.capture_current_form();
        proof {
            commit_keeps_surroundings(
                old(self)@,
                weights.tokens@,
                weights.max_tokens,
                old(self)@.pane.editors.len() as int,
            );
            assert(self@.draft.personas.len() == self.draft.personas@.len());
            assert(self@.draft.pending_deletions.len() == self.draft.pending_deletions@.len());
            assert(self@.draft.personas.len() == personas.len());
        }
        let ghost captured = self@;
        let id = next_persona_id(&self.draft, &reserved);
        let index: usize = self.draft.personas.len();
        let ghost before = self.draft.personas@;
        let persona = PersonaConfig {
            id: id.clone(),
            name: blank.name,
            system_prompt: blank.system_prompt,
            input_prompt: blank.input_prompt,
            model: blank.model,
            tts_model: blank.tts_model,
            live2d_model: blank.live2d_model,
            context: blank.context,
        };
        let ghost added = captured.with_new_persona(persona@);
        self.draft.personas.push(persona);
        self.draft.selected = Some(id);
        proof {
            assert(persona_views(self.draft.personas@) =~= persona_views(before).push(persona@));
            assert(self@ == added);
        }
        let mut turn = self.load_form(Some(index));
        turn.push(PersonaAction::SaveDraft);
        actions.append(turn);
        actions
    }

    /// Saves once something else has been chosen from a list.
    pub fn choice_changed(&self) -> (actions: PersonaActions)
        ensures
            actions@ == (if self@.ui.loading_form {
                Seq::empty()
            } else {
                seq![PersonaEffect::SaveDraft]
            }),
    {
        if self.ui.loading_form {
            PersonaActions::none()
        } else {
            PersonaActions::one(PersonaAction::SaveDraft)
        }
    }

    /// Follows what a field of the form reports. Leaving a field, or pressing enter in one of
    /// a single line, saves.
    pub fn handle_input_event(&mut self, field: u32, single_line: bool, event: InputEvent) -> (actions:
        PersonaActions)
        ensures
            final(self)@ == (PersonaState {
                input_edit: old(self)@.edit_after(field, event),
                ..old(self)@
            }),
            actions@ == old(self)@.input_effects(single_line, event),
    {
        let loading = self.ui.loading_form;
        match event {
            InputEvent::Focus { text } => {
                if !loading {
                    self.input_edit = Some(InputEdit { field, text });
                }
                PersonaActions::none()
            },
            InputEvent::PressEnter => {
                if loading || !single_line {
                    PersonaActions::none()
                } else {
                    let mut actions = PersonaActions::one(PersonaAction::SaveDraft);
                    actions.push(PersonaAction::Blur);
                    proof {
                        assert(actions@ =~= seq![PersonaEffect::SaveDraft, PersonaEffect::Blur]);
                    }
                    actions
                }
            },
            InputEvent::Blur => {
                let edited = match &self.input_edit {
                    Some(edit) => edit.field == field,
                    None => false,
                };
                if edited {
                    self.input_edit = None;
                }
                self.choice_changed()
            },
            InputEvent::Change => PersonaActions::none(),
        }
    }
}

} // verus!
