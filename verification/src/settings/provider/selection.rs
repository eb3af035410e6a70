//! Choosing, adding and removing models.

use vstd::prelude::*;

use crate::fresh_id::{fresh_id, is_fresh_id, text_views};
use crate::search::{first_position, first_position_is_first};
use crate::settings::llm::{
    model_views, no_advanced_options, LlmAdvancedOptions, LlmModelConfig, LlmModelView, LlmSettings,
    LlmSettingsView, ModelKind,
};
use crate::settings::provider::options::{default_provider, first_provider};
use crate::settings::provider::view::{ProviderAction, ProviderSettingsView, ProviderUi};
use crate::text::{optional_view, same_optional};

verus! {

/// The identifiers of a list of models.
pub open spec fn model_ids(models: Seq<LlmModelView>) -> Seq<Seq<char>> {
    Seq::new(models.len(), |i: int| models[i].id)
}

/// Returns the identifier that a new model gets.
pub fn next_model_id(settings: &LlmSettings) -> (id: String)
    requires
        settings.models@.len() < usize::MAX,
    ensures
        is_fresh_id("model-"@, model_ids(settings@.models), id@),
{
    let mut taken: Vec<String> = Vec::new();
    let mut index: usize = 0;
    while index < settings.models.len()
        invariant
            index <= settings.models.len(),
            taken@.len() == index,
            forall|i: int| 0 <= i < index ==> taken@[i]@ == settings@.models[i].id,
        decreases settings.models.len() - index,
    {
        taken.push(settings.models[index].id.clone());
        index = index + 1;
    }
    proof {
        assert(text_views(taken@) =~= model_ids(settings@.models));
    }
    fresh_id("model-", &taken)
}

/// The last position before `end` at which a model of a kind stands.
pub open spec fn last_of_kind(models: Seq<LlmModelView>, end: int, kind: ModelKind) -> Option<int>
    decreases end,
{
    if end <= 0 || end > models.len() {
        None
    } else if models[end - 1].kind == kind {
        Some(end - 1)
    } else {
        last_of_kind(models, end - 1, kind)
    }
}

/// The model that is edited after the one at `index` has gone: the next one of its kind, or
/// else the last one.
pub open spec fn neighbour(models: Seq<LlmModelView>, index: int, kind: ModelKind) -> Option<int> {
    match first_position(models, index, |model: LlmModelView| model.kind == kind) {
        Some(next) => Some(next),
        None => last_of_kind(models, index, kind),
    }
}

impl LlmSettingsView {
    /// The settings with the model at `index` in use, if its kind has one in use.
    pub open spec fn with_selected(self, index: int) -> LlmSettingsView {
        let model = self.models[index];
        match model.kind {
            ModelKind::ChatCompletions => LlmSettingsView {
                selected_model: Some(model.id),
                ..self
            },
            ModelKind::Transcription => LlmSettingsView {
                selected_transcription_model: Some(model.id),
                ..self
            },
            ModelKind::SpeechSynthesis => self,
        }
    }

    /// The identifier of the model at `next`, if it is of a kind.
    pub open spec fn id_of_kind(self, next: Option<int>, kind: ModelKind) -> Option<Seq<char>> {
        match next {
            Some(next) => if self.models[next].kind == kind {
                Some(self.models[next].id)
            } else {
                None
            },
            None => None,
        }
    }

    /// The settings without the model at `index`. Where it was in use, its neighbour takes
    /// its place, if it is of the right kind.
    pub open spec fn without_model(self, index: int, kind: ModelKind) -> LlmSettingsView {
        let rest = LlmSettingsView { models: self.models.remove(index), ..self };
        let next = neighbour(rest.models, index, kind);
        let removed = self.models[index].id;
        LlmSettingsView {
            selected_model: if self.selected_model == Some(removed) {
                rest.id_of_kind(next, ModelKind::ChatCompletions)
            } else {
                self.selected_model
            },
            selected_transcription_model: if self.selected_transcription_model == Some(removed) {
                rest.id_of_kind(next, ModelKind::Transcription)
            } else {
                self.selected_transcription_model
            },
            ..rest
        }
    }
}

/// A model as it is added, with a name in the user's language.
pub open spec fn new_model(id: Seq<char>, label: Seq<char>, kind: ModelKind) -> LlmModelView {
    LlmModelView {
        id,
        label,
        kind,
        provider: first_provider(kind),
        model: Seq::empty(),
        endpoint: if kind == ModelKind::ChatCompletions {
            Some("http://localhost:11434/"@)
        } else {
            None
        },
        api_key: None,
        voice: if kind == ModelKind::SpeechSynthesis {
            Some("alloy"@)
        } else {
            None
        },
        voice_type: None,
        local_path: None,
        use_gpu: false,
        whisper_language: None,
        advanced: no_advanced_options(),
    }
}

fn blank_model(id: String, label: String, kind: ModelKind) -> (model: LlmModelConfig)
    ensures
        model@ == new_model(id@, label@, kind),
{
    let endpoint = if kind == ModelKind::ChatCompletions {
        Some("http://localhost:11434/".to_owned())
    } else {
        None
    };
    let voice = if kind == ModelKind::SpeechSynthesis {
        Some("alloy".to_owned())
    } else {
        None
    };
    LlmModelConfig {
        id,
        label,
        kind,
        provider: default_provider(kind),
        model: String::new(),
        endpoint,
        api_key: None,
        voice,
        voice_type: None,
        local_path: None,
        use_gpu: false,
        whisper_language: None,
        advanced: LlmAdvancedOptions::none(),
    }
}

fn kind_neighbour(models: &Vec<LlmModelConfig>, index: usize, kind: ModelKind) -> (next: Option<
    usize,
>)
    requires
        index <= models@.len(),
    ensures
        match next {
            Some(next) => neighbour(model_views(models@), index as int, kind)
                == Some(next as int) && next < models@.len(),
            None => neighbour(model_views(models@), index as int, kind) is None,
        },
{
    let ghost views = model_views(models@);
    let ghost wanted = |model: LlmModelView| model.kind == kind;
    let mut next: usize = index;
    while next < models.len()
        invariant
            index <= next <= models.len(),
            views == model_views(models@),
            wanted == (|model: LlmModelView| model.kind == kind),
            first_position(views, index as int, wanted) == first_position(
                views,
                next as int,
                wanted,
            ),
        decreases models.len() - next,
    {
        proof {
            assert(views[next as int] == models@[next as int]@);
        }
        if models[next].kind == kind {
            return Some(next);
        }
        next = next + 1;
    }
    let mut end: usize = index;
    while end > 0
        invariant
            end <= index <= models.len(),
            views == model_views(models@),
            neighbour(views, index as int, kind) == last_of_kind(views, end as int, kind),
        decreases end,
    {
        proof {
            assert(views[end - 1] == models@[end - 1]@);
        }
        if models[end - 1].kind == kind {
            return Some(end - 1);
        }
        end = end - 1;
    }
    None
}

impl ProviderSettingsView {
    /// The draft, captured, with the model at `index` in use.
    pub open spec fn selected_draft(self, index: usize) -> LlmSettingsView {
        let captured = self.captured_draft();
        if index < captured.models.len() {
            captured.with_selected(index as int)
        } else {
            captured
        }
    }

    /// Turns to the model at `index` and takes it into use. Edits of the model before it are
    /// kept.
    pub fn select_model(&mut self, index: usize, persist: bool) -> (actions: Vec<ProviderAction>)
        requires
            old(self).well_formed(),
        ensures
            final(self).draft@ == old(self).selected_draft(index),
            final(self).same_surroundings(*old(self)),
            index < old(self).draft@.models.len() ==> {
                &&& final(self).ui == old(self).loading_ui(Some(index))
                &&& final(self).form@ == old(self).catalog.shown_form(
                    old(self).ui.active_kind,
                    Some(old(self).captured_draft().models[index as int]),
                )
                &&& actions@ == (if persist {
                    seq![
                        ProviderAction::FillForm,
                        ProviderAction::Notify,
                        ProviderAction::SaveDraft,
                    ]
                } else {
                    seq![ProviderAction::FillForm, ProviderAction::Notify]
                })
            },
            index >= old(self).draft@.models.len() ==> {
                &&& final(self).ui == old(self).ui
                &&& final(self).form == old(self).form
                &&& actions@ == Seq::<ProviderAction>::empty()
            },
    {
        self.capture_current_form();
        if index >= self.draft.models.len() {
            return Vec::new();
        }
        self.take_into_use(index);
        let mut actions = self.load_form(Some(index));
        if persist {
            actions.push(ProviderAction::SaveDraft);
        }
        actions
    }

    fn take_into_use(&mut self, index: usize)
        requires
            index < old(self).draft@.models.len(),
        ensures
            final(self).draft@ == old(self).draft@.with_selected(index as int),
            final(self).form == old(self).form,
            final(self).ui == old(self).ui,
            final(self).same_surroundings(*old(self)),
    {
        let kind = self.draft.models[index].kind;
        let id = self.draft.models[index].id.clone();
        match kind {
            ModelKind::ChatCompletions => {
                self.draft.selected_model = Some(id);
            },
            ModelKind::Transcription => {
                self.draft.selected_transcription_model = Some(id);
            },
            ModelKind::SpeechSynthesis => {},
        }
        proof {
            assert(old(self).draft@.models[index as int] == old(self).draft.models@[index as int]@);
            assert(self.draft@ =~= old(self).draft@.with_selected(index as int));
        }
    }

    /// Adds a model of the kind at hand and turns to it. It is stored with the next edit.
    pub fn add_model(&mut self, label: String) -> (actions: Vec<ProviderAction>)
        requires
            old(self).well_formed(),
            old(self).draft.models@.len() < usize::MAX - 1,
        ensures
            ({
                let captured = old(self).captured_draft();
                let id = final(self).draft@.models.last().id;
                let extended = LlmSettingsView {
                    models: captured.models.push(new_model(id, label@, old(self).ui.active_kind)),
                    ..captured
                };
                &&& is_fresh_id("model-"@, model_ids(captured.models), id)
                &&& final(self).draft@ == extended.with_selected(captured.models.len() as int)
            }),
            final(self).ui == old(self).loading_ui(Some(old(self).draft.models.len())),
            final(self).form@ == old(self).catalog.shown_form(
                old(self).ui.active_kind,
                Some(final(self).draft@.models.last()),
            ),
            final(self).same_surroundings(*old(self)),
            actions@ == seq![
                ProviderAction::FillForm,
                ProviderAction::Notify,
                ProviderAction::Notify,
            ],
    {
        self.capture_current_form();
        let ghost captured = self.draft@;
        let id = next_model_id(&self.draft);
        let model = blank_model(id, label, self.ui.active_kind);
        let index: usize = self.draft.models.len();
        self.draft.models.push(model);
        proof {
            assert(self.draft@.models =~= captured.models.push(model@));
        }
        self.take_into_use(index);
        let mut actions = self.load_form(Some(index));
        actions.push(ProviderAction::Notify);
        actions
    }

    /// Whether there is a model to remove.
    pub open spec fn edits_model(self) -> bool {
        self.draft@.model_at(self.ui.editing_index) is Some
    }

    /// Removes the model that is edited and turns to its neighbour. What its fields held is
    /// gone with it.
    pub fn delete_model(&mut self, persist: bool) -> (actions: Vec<ProviderAction>)
        requires
            old(self).well_formed(),
        ensures
            final(self).same_surroundings(*old(self)),
            !old(self).edits_model() ==> {
                &&& final(self).draft == old(self).draft
                &&& final(self).form == old(self).form
                &&& final(self).ui == old(self).ui
                &&& actions@ == Seq::<ProviderAction>::empty()
            },
            old(self).edits_model() ==> ({
                let index = old(self).ui.editing_index->Some_0 as int;
                let kind = old(self).ui.active_kind;
                let next = neighbour(old(self).draft@.models.remove(index), index, kind);
                &&& final(self).draft@ == old(self).draft@.without_model(index, kind)
                &&& final(self).ui == old(self).loading_ui(
                    match next {
                        Some(next) => Some(next as usize),
                        None => None,
                    },
                )
                &&& final(self).form@ == old(self).catalog.shown_form(
                    kind,
                    match next {
                        Some(next) => Some(old(self).draft@.models.remove(index)[next]),
                        None => None,
                    },
                )
                &&& actions@ == (if persist {
                    seq![
                        ProviderAction::FillForm,
                        ProviderAction::Notify,
                        ProviderAction::SaveDraft,
                    ]
                } else {
                    seq![ProviderAction::FillForm, ProviderAction::Notify]
                })
            }),
    {
        let Some(index) = self.ui.editing_index else {
            return Vec::new();
        };
        if index >= self.draft.models.len() {
            return Vec::new();
        }
        let next = self.remove_at(index);
        let mut actions = self.load_form(next);
        if persist {
            actions.push(ProviderAction::SaveDraft);
        }
        actions
    }

    fn remove_at(&mut self, index: usize) -> (next: Option<usize>)
        requires
            index < old(self).draft@.models.len(),
        ensures
            final(self).draft@ == old(self).draft@.without_model(
                index as int,
                old(self).ui.active_kind,
            ),
            final(self).form == old(self).form,
            final(self).ui == old(self).ui,
            final(self).same_surroundings(*old(self)),
            match next {
                Some(next) => neighbour(
                    old(self).draft@.models.remove(index as int),
                    index as int,
                    old(self).ui.active_kind,
                ) == Some(next as int) && next < final(self).draft@.models.len(),
                None => neighbour(
                    old(self).draft@.models.remove(index as int),
                    index as int,
                    old(self).ui.active_kind,
                ) is None,
            },
    {
        let removed = self.draft.models.remove(index);
        proof {
            assert(old(self).draft@.models[index as int] == old(self).draft.models@[index as int]@);
            assert(model_views(self.draft.models@) =~= old(
                self,
            ).draft@.models.remove(index as int));
        }
        let next = kind_neighbour(&self.draft.models, index, self.ui.active_kind);
        let removed_id = Some(removed.id);
        if same_optional(&self.draft.selected_model, &removed_id) {
            self.draft.selected_model = self.id_at(next, ModelKind::ChatCompletions);
        }
        if same_optional(&self.draft.selected_transcription_model, &removed_id) {
            self.draft.selected_transcription_model = self.id_at(next, ModelKind::Transcription);
        }
        proof {
            assert(self.draft@ =~= old(self).draft@.without_model(
                index as int,
                old(self).ui.active_kind,
            ));
        }
        next
    }

    fn id_at(&self, next: Option<usize>, kind: ModelKind) -> (id: Option<String>)
        requires
            next matches Some(next) ==> next < self.draft@.models.len(),
        ensures
            optional_view(id) == self.draft@.id_of_kind(
                match next {
                    Some(next) => Some(next as int),
                    None => None,
                },
                kind,
            ),
    {
        match next {
            Some(next) => {
                proof {
                    assert(self.draft@.models[next as int] == self.draft.models@[next as int]@);
                }
                if self.draft.models[next].kind == kind {
                    Some(self.draft.models[next].id.clone())
                } else {
                    None
                }
            },
            None => None,
        }
    }

    /// Turns to another kind of model: to the one in use, or else to the first. Edits of the
    /// model before it are kept.
    pub fn select_kind(&mut self, kind: ModelKind, persist: bool) -> (actions: Vec<ProviderAction>)
        requires
            old(self).well_formed(),
        ensures
            final(self).same_surroundings(*old(self)),
            old(self).ui.active_kind == kind ==> {
                &&& final(self).draft == old(self).draft
                &&& final(self).form == old(self).form
                &&& final(self).ui == old(self).ui
                &&& actions@ == Seq::<ProviderAction>::empty()
            },
            old(self).ui.active_kind != kind ==> ({
                let captured = old(self).captured_draft();
                &&& final(self).draft@ == captured
                &&& final(self).ui == (ProviderUi {
                    active_kind: kind,
                    ..old(self).loading_ui(
                        match captured.editing_position(kind) {
                            Some(index) => Some(index as usize),
                            None => None,
                        },
                    )
                })
                &&& final(self).form@ == old(self).catalog.shown_form(
                    kind,
                    match captured.editing_position(kind) {
                        Some(index) => Some(captured.models[index]),
                        None => None,
                    },
                )
                &&& actions@ == (if persist {
                    seq![
                        ProviderAction::FillForm,
                        ProviderAction::Notify,
                        ProviderAction::SaveDraft,
                    ]
                } else {
                    seq![ProviderAction::FillForm, ProviderAction::Notify]
                })
            }),
    {
        if self.ui.active_kind == kind {
            return Vec::new();
        }
        self.capture_current_form();
        self.ui.active_kind = kind;
        let index = self.draft.editing_index(kind);
        let mut actions = self.load_form(index);
        if persist {
            actions.push(ProviderAction::SaveDraft);
        }
        actions
    }
}

/// After a model has gone, the page turns to one of the same kind, if any is left.
pub proof fn neighbour_is_of_kind(models: Seq<LlmModelView>, index: int, kind: ModelKind)
    requires
        0 <= index <= models.len(),
    ensures
        match neighbour(models, index, kind) {
            Some(next) => 0 <= next < models.len() && models[next].kind == kind,
            None => forall|i: int| 0 <= i < models.len() ==> (#[trigger] models[i]).kind != kind,
        },
{
    let wanted = |model: LlmModelView| model.kind == kind;
    first_position_is_first(models, index, wanted);
    last_of_kind_is_last(models, index, kind);
    assert forall|i: int|
        neighbour(models, index, kind) is None && 0 <= i < models.len() implies (
    #[trigger] models[i]).kind != kind by {
        if i >= index {
            assert(!wanted(models[i]));
        }
    }
}

proof fn last_of_kind_is_last(models: Seq<LlmModelView>, end: int, kind: ModelKind)
    requires
        0 <= end <= models.len(),
    ensures
        match last_of_kind(models, end, kind) {
            Some(found) => 0 <= found < end && models[found].kind == kind,
            None => forall|i: int| 0 <= i < end ==> (#[trigger] models[i]).kind != kind,
        },
    decreases end,
{
    if end > 0 && models[end - 1].kind != kind {
        last_of_kind_is_last(models, end - 1, kind);
    }
}

/// A model that has gone is no longer in use, as long as no other has its identifier.
pub proof fn removed_model_is_not_selected(settings: LlmSettingsView, index: int, kind: ModelKind)
    requires
        0 <= index < settings.models.len(),
        forall|i: int|
            0 <= i < settings.models.len() && i != index ==> (#[trigger] settings.models[i]).id
                != settings.models[index].id,
    ensures
        settings.without_model(index, kind).selected_model != Some(settings.models[index].id),
        settings.without_model(index, kind).selected_transcription_model != Some(
            settings.models[index].id,
        ),
{
    let rest = settings.models.remove(index);
    neighbour_is_of_kind(rest, index, kind);
    assert forall|i: int| 0 <= i < rest.len() implies (#[trigger] rest[i]).id
        != settings.models[index].id by {
        if i < index {
            assert(rest[i] == settings.models[i]);
        } else {
            assert(rest[i] == settings.models[i + 1]);
        }
    }
}

} // verus!
