//! What personas and their form hold, told field by field.

use vstd::prelude::*;

use crate::fresh_id::numbered;
use crate::number_text::{decimal_text, parsed_u32};
use crate::path::spell_same_path;
use crate::search::first_position_is_first;
use crate::settings::llm::{LlmModelView, LlmSettingsView, ModelKind};
use crate::settings::persona::actions::{
    MemoryScope, PersonaAction, PersonaActions, PersonaEffect, PersonaPage,
};
use crate::settings::persona::config::{
    without_text, PersonaSettings, PersonaSettingsData, PersonaView,
};
use crate::settings::persona::form::{
    limit_text, missing_model, on_offer, Live2dChoices, Live2dChoicesView, PersonaForm,
    PersonaFormView,
};
use crate::settings::persona::options::{
    has_id, is_next_persona_id, is_next_persona_number, is_path, live2d_choice, live2d_labels,
    live2d_missing, live2d_paths, live2d_row, model_choice, model_choices, model_label, model_row,
    models_of_kind, persona_id_taken, unbound_option, Live2dModelOption, ModelOption,
};
use crate::settings::persona::pane::{
    drag_view, editor_views, loaded_views, ContextMessage, ContextMessageEditor, ContextPane,
    ContextSelectionDrag,
};
use crate::settings::persona::render::PersonaRow;
use crate::settings::persona::view::{
    confirm_view, CleanupState, MemoryPane, PendingConfirm, PendingConfirmView, PersonaSettingsView,
};
use crate::settings::promises::seen_as_it_is;
use crate::id_set::TextSet;

verus! {

/// The page is seen part by part under the names of its parts.
pub proof fn page_is_seen_as_it_is(page: PersonaSettingsView)
    ensures
        page@.draft == page.draft@,
        page@.submitted == page.submitted@,
        page@.providers == page.providers@,
        page@.live2d == page.live2d@,
        page@.form == page.form@,
        page@.pane == page.pane@,
        page@.memory == page.memory@,
        page@.cleanup == page.cleanup@,
        page@.ui == page.ui,
        page@.status == page.status,
        page@.input_edit == page.input_edit,
{
}

/// So are its memory and what is being cleaned up.
pub proof fn memory_is_seen_as_it_is(memory: MemoryPane, cleanup: CleanupState)
    ensures
        memory@.available == memory.available,
        memory@.usage == memory.usage,
        memory@.usage_error == memory.usage_error,
        memory@.usage_revision == memory.usage_revision,
        memory.pending_confirm is None ==> memory@.pending_confirm is None,
        memory.pending_confirm matches Some(pending) ==> memory@.pending_confirm == Some(pending@),
        confirm_view(memory.pending_confirm) == memory@.pending_confirm,
        cleanup@.pending == cleanup.pending@,
        cleanup@.in_flight == cleanup.in_flight@,
{
}

/// A question is about the persona, the scope and the messages that it was asked for.
pub proof fn question_is_seen_as_it_is(
    persona: String,
    scope: MemoryScope,
    message_ids: Vec<u64>,
)
    ensures
        (PendingConfirm::ClearMemory { persona, scope })@ == (PendingConfirmView::ClearMemory {
            persona: persona@,
            scope,
        }),
        (PendingConfirm::DeletePersona { persona })@ == (PendingConfirmView::DeletePersona {
            persona: persona@,
        }),
        (PendingConfirm::DeleteMessages { persona, message_ids })@ == (
        PendingConfirmView::DeleteMessages { persona: persona@, message_ids: message_ids@ }),
{
}

/// What is to be done about a persona is about that persona, and about nothing but what it
/// names.
pub proof fn persona_effects_are_seen_as_they_are(
    revision: u64,
    persona: String,
    scope: MemoryScope,
    cleanup: bool,
    target: Option<String>,
    personas: TextSet,
)
    ensures
        (PersonaAction::ClearMemory { persona, scope, cleanup })@ == (PersonaEffect::ClearMemory {
            persona: persona@,
            scope,
            cleanup,
        }),
        (PersonaAction::LoadUsage { revision, persona })@ == (PersonaEffect::LoadUsage {
            revision,
            persona: persona@,
        }),
        (PersonaAction::LoadContext { revision, persona })@ == (PersonaEffect::LoadContext {
            revision,
            persona: persona@,
        }),
        (PersonaAction::WatchContext { revision, persona: target })@ matches
            PersonaEffect::WatchContext { revision: seen, target: who } && seen == revision
            && seen_as_it_is(who, target),
        (PersonaAction::PollContext { revision, persona: target })@ matches
            PersonaEffect::PollContext { revision: seen, target: who } && seen == revision
            && seen_as_it_is(who, target),
        (PersonaAction::CleanupFinished { persona })@ == (PersonaEffect::CleanupFinished {
            persona: persona@,
        }),
        (PersonaAction::ClaimCleanup { persona })@ == (PersonaEffect::ClaimCleanup {
            persona: persona@,
        }),
        (PersonaAction::ReleaseCleanups { personas })@ == (PersonaEffect::ReleaseCleanups {
            personas: personas@,
        }),
        MemoryScope::Context.name() == "context"@,
        MemoryScope::All.name() == "all"@,
{
}

/// What is to be done about messages and fields is about those that it names.
pub proof fn message_effects_are_seen_as_they_are(
    persona: String,
    message_id: u64,
    text: String,
    windowed: bool,
    message_ids: Vec<u64>,
    count: usize,
    field: u32,
)
    ensures
        (PersonaAction::EditMessage { persona, message_id, content: text, windowed })@ == (
        PersonaEffect::EditMessage { persona: persona@, message_id, content: text@, windowed }),
        (PersonaAction::DeleteMessages { persona, message_ids, count })@ == (
        PersonaEffect::DeleteMessages {
            persona: persona@,
            message_ids: message_ids@,
            count: count as int,
        }),
        (PersonaAction::CopyText { text })@ == (PersonaEffect::CopyText { text: text@ }),
        (PersonaAction::RestoreField { field, text })@ == (PersonaEffect::RestoreField {
            field,
            text: text@,
        }),
        (PersonaAction::RestoreMessage { message_id })@ == (PersonaEffect::RestoreMessage {
            message_id,
        }),
        (PersonaAction::FocusMessage { message_id })@ == (PersonaEffect::FocusMessage {
            message_id,
        }),
{
}

/// What is to be done about the page itself is what it says.
pub proof fn page_effects_are_seen_as_they_are(revision: u64, page: PersonaPage)
    ensures
        PersonaAction::Notify@ == PersonaEffect::Notify,
        PersonaAction::FillForm@ == PersonaEffect::FillForm,
        PersonaAction::SaveDraft@ == PersonaEffect::SaveDraft,
        PersonaAction::Saved@ == PersonaEffect::Saved,
        PersonaAction::SaveFinished@ == PersonaEffect::SaveFinished,
        PersonaAction::CheckIdle@ == PersonaEffect::CheckIdle,
        PersonaAction::TransferWindow@ == PersonaEffect::TransferWindow,
        PersonaAction::Blur@ == PersonaEffect::Blur,
        PersonaAction::Consume@ == PersonaEffect::Consume,
        PersonaAction::ScrollToEnd@ == PersonaEffect::ScrollToEnd,
        PersonaAction::FocusMessages@ == PersonaEffect::FocusMessages,
        (PersonaAction::OpenPage { page })@ == (PersonaEffect::OpenPage { page }),
        (PersonaAction::WriteSettings { revision })@ == (PersonaEffect::WriteSettings { revision }),
        (PersonaAction::StartToast { revision })@ == (PersonaEffect::StartToast { revision }),
        (PersonaAction::ScheduleScroll { revision })@ == (PersonaEffect::ScheduleScroll {
            revision,
        }),
{
}

/// Effects are seen one by one in their order.
pub proof fn effects_are_seen_in_order(actions: PersonaActions)
    ensures
        actions@.len() == actions.list@.len(),
        forall|i: int| 0 <= i < actions.list@.len() ==> #[trigger] actions@[i] == actions.list@[i]@,
{
}

/// The messages are seen one by one, each with what it says, what is stored of it and what
/// it weighs.
pub proof fn messages_are_seen_as_they_are(
    pane: ContextPane,
    editor: ContextMessageEditor,
    message: ContextMessage,
    messages: Seq<ContextMessage>,
    drag: ContextSelectionDrag,
)
    ensures
        pane@.editors.len() == pane.editors@.len(),
        forall|i: int| 0 <= i < pane.editors@.len() ==> #[trigger] pane@.editors[i] == pane.editors@[i]@,
        pane@.selected == pane.selected@,
        pane.drag is None ==> pane@.drag is None,
        pane.drag matches Some(drag) ==> pane@.drag == Some(drag@),
        seen_as_it_is(pane@.error, pane.error),
        pane@.flags == pane.flags,
        editor@.id == editor.id,
        editor@.role == editor.role,
        editor@.text == editor.text@,
        editor@.saved_content == editor.saved_content@,
        editor@.tokens == editor.tokens,
        editor@.fixed_tokens == editor.fixed_tokens,
        message@.id == message.id,
        message@.role == message.role,
        message@.text == message.content@,
        message@.saved_content == message.content@,
        message@.tokens == message.tokens,
        message@.fixed_tokens == message.fixed_tokens,
        loaded_views(messages).len() == messages.len(),
        forall|i: int| 0 <= i < messages.len() ==> #[trigger] loaded_views(messages)[i] == messages[i]@,
        drag@.anchor_id == drag.anchor_id,
        drag@.base == drag.base@,
        drag@.moved == drag.moved,
        drag@.additive == drag.additive,
        drag_view(Some(drag)) == Some(drag@),
        editor_views(pane.editors@) == pane@.editors,
{
}

/// The form is seen field by field under the names of its fields, and so are the models that
/// it offers.
pub proof fn persona_form_is_seen_as_it_is(
    form: PersonaForm,
    choices: Live2dChoices,
    row: PersonaRow,
)
    ensures
        form@.name == form.name@,
        form@.system_prompt == form.system_prompt@,
        form@.input_prompt == form.input_prompt@,
        form@.provider_row == form.provider_row,
        form@.tts_row == form.tts_row,
        form@.live2d_row == form.live2d_row,
        form@.context_messages == form.context_messages@,
        form@.context_tokens == form.context_tokens@,
        choices@.labels == live2d_labels(choices.models@),
        choices@.paths == live2d_paths(choices.models@),
        seen_as_it_is(choices@.missing, choices.missing),
        row@.id == row.id@,
        row@.name == row.name@,
        row@.subtitle == row.subtitle,
        row@.editing == row.editing,
{
}

/// Paths and labels are those of the models in their order.
pub proof fn paths_and_labels_are_those_of_the_models(models: Seq<Live2dModelOption>)
    ensures
        live2d_paths(models).len() == models.len(),
        live2d_labels(models).len() == models.len(),
        forall|i: int| 0 <= i < models.len() ==> #[trigger] live2d_paths(models)[i] == models[i].path@,
        forall|i: int|
            0 <= i < models.len() ==> #[trigger] live2d_labels(models)[i] == models[i].label@,
{
}

/// Each setting of a persona is read from the field of its own name.
pub proof fn each_persona_setting_is_read_from_its_field(
    form: PersonaFormView,
    persona: PersonaView,
    providers: LlmSettingsView,
    live2d: Live2dChoicesView,
)
    ensures
        ({
            let captured = form.captured(persona, providers, live2d);
            &&& captured.id == persona.id
            &&& captured.name == form.name
            &&& captured.system_prompt == form.system_prompt
            &&& captured.input_prompt == form.input_prompt
            &&& captured.model == model_choice(
                providers,
                ModelKind::ChatCompletions,
                form.provider_row,
            )
            &&& captured.tts_model == model_choice(
                providers,
                ModelKind::SpeechSynthesis,
                form.tts_row,
            )
            &&& captured.live2d_model == live2d_choice(
                live2d.paths,
                live2d.missing,
                form.live2d_row,
            )
            &&& captured.context.max_messages == parsed_u32(form.context_messages)
            &&& captured.context.max_tokens == parsed_u32(form.context_tokens)
        }),
{
}

/// Each field shows the setting of its own name.
pub proof fn each_field_shows_its_persona_setting(
    persona: PersonaView,
    providers: LlmSettingsView,
    paths: Seq<Seq<char>>,
    limit: u32,
)
    ensures
        ({
            let form = PersonaFormView::showing(Some(persona), providers, paths);
            &&& form.name == persona.name
            &&& form.system_prompt == persona.system_prompt
            &&& form.input_prompt == persona.input_prompt
            &&& form.provider_row == model_row(
                providers,
                ModelKind::ChatCompletions,
                persona.model,
            )
            &&& form.tts_row == model_row(providers, ModelKind::SpeechSynthesis, persona.tts_model)
            &&& form.live2d_row == live2d_row(paths, persona.live2d_model)
            &&& persona.context.max_messages matches Some(value) ==> form.context_messages
                == decimal_text(value as nat)
            &&& persona.context.max_messages is None ==> form.context_messages.len() == 0
            &&& persona.context.max_tokens matches Some(value) ==> form.context_tokens
                == decimal_text(value as nat)
            &&& persona.context.max_tokens is None ==> form.context_tokens.len() == 0
        }),
        ({
            let empty = PersonaFormView::showing(None, providers, paths);
            &&& empty.name.len() == 0 && empty.system_prompt.len() == 0
                && empty.input_prompt.len() == 0
            &&& empty.provider_row == 0 && empty.tts_row == 0 && empty.live2d_row == 0
            &&& empty.context_messages.len() == 0 && empty.context_tokens.len() == 0
        }),
        limit_text(Some(limit)) == decimal_text(limit as nat),
        limit_text(None).len() == 0,
        missing_model(None, paths) is None,
        missing_model(Some(persona), paths) == live2d_missing(paths, persona.live2d_model),
{
}

proof fn choices_are_those_before(models: Seq<LlmModelView>, kind: ModelKind, count: int)
    requires
        0 <= count <= models.len(),
    ensures
        ({
            let choices = models_of_kind(models, kind, count);
            &&& choices.len() <= count
            &&& forall|i: int|
                0 <= i < choices.len() ==> exists|at: int|
                    i <= at < count && #[trigger] models[at] == #[trigger] choices[i]
            &&& forall|i: int| 0 <= i < choices.len() ==> (#[trigger] choices[i]).kind == kind
            &&& forall|at: int|
                0 <= at < count && (#[trigger] models[at]).kind == kind ==> choices.contains(
                    models[at],
                )
        }),
    decreases count,
{
    if count > 0 {
        choices_are_those_before(models, kind, count - 1);
        let before = models_of_kind(models, kind, count - 1);
        let choices = models_of_kind(models, kind, count);
        assert forall|i: int| 0 <= i < choices.len() implies exists|at: int|
            i <= at < count && #[trigger] models[at] == #[trigger] choices[i] by {
            if i < before.len() {
                assert(choices[i] == before[i]);
                let at = choose|at: int|
                    i <= at < count - 1 && #[trigger] models[at] == #[trigger] before[i];
                assert(models[at] == choices[i]);
            } else {
                assert(models[count - 1] == choices[i]);
            }
        }
        assert forall|at: int|
            0 <= at < count && (#[trigger] models[at]).kind == kind implies choices.contains(
            models[at],
        ) by {
            if at < count - 1 {
                assert(before.contains(models[at]));
                let place = choose|i: int| 0 <= i < before.len() && before[i] == models[at];
                assert(choices[place] == models[at]);
            } else {
                assert(choices[before.len() as int] == models[at]);
            }
        }
    }
}

/// The models on offer are those of the kind, and all of them; a model of another kind, or
/// none, changes nothing, and one of the kind comes last.
pub proof fn models_of_the_kind_are_on_offer(
    settings: LlmSettingsView,
    kind: ModelKind,
    model: LlmModelView,
)
    ensures
        ({
            let choices = model_choices(settings, kind);
            let more = LlmSettingsView { models: settings.models.push(model), ..settings };
            &&& forall|i: int|
                0 <= i < choices.len() ==> (#[trigger] choices[i]).kind == kind
                    && settings.models.contains(choices[i])
            &&& forall|at: int|
                0 <= at < settings.models.len() && (#[trigger] settings.models[at]).kind == kind
                    ==> choices.contains(settings.models[at])
            &&& model.kind == kind ==> model_choices(more, kind) == choices.push(model)
            &&& model.kind != kind ==> model_choices(more, kind) == choices
            &&& settings.models.len() == 0 ==> choices.len() == 0
        }),
{
    let models = settings.models;
    choices_are_those_before(models, kind, models.len() as int);
    let choices = model_choices(settings, kind);
    assert forall|i: int| 0 <= i < choices.len() implies models.contains(#[trigger] choices[i]) by {
        let at = choose|at: int|
            i <= at < models.len() && #[trigger] models[at] == #[trigger] choices[i];
        assert(models[at] == choices[i]);
    }
    offer_is_that_before(models, model, kind, models.len() as int);
}

proof fn offer_is_that_before(
    models: Seq<LlmModelView>,
    model: LlmModelView,
    kind: ModelKind,
    count: int,
)
    requires
        0 <= count <= models.len(),
    ensures
        models_of_kind(models.push(model), kind, count) == models_of_kind(models, kind, count),
    decreases count,
{
    if count > 0 {
        offer_is_that_before(models, model, kind, count - 1);
        assert(models.push(model)[count - 1] == models[count - 1]);
    }
}

/// The first row binds no model; the others are the models on offer in their order.
pub proof fn model_rows_are_the_models(
    settings: LlmSettingsView,
    kind: ModelKind,
    row: int,
    id: Seq<char>,
)
    ensures
        ({
            let choices = model_choices(settings, kind);
            let found = model_row(settings, kind, Some(id));
            &&& 1 <= row <= choices.len() ==> model_choice(settings, kind, row) == Some(
                choices[row - 1].id,
            )
            &&& row <= 0 || row > choices.len() ==> model_choice(settings, kind, row) is None
            &&& model_row(settings, kind, None) == 0
            &&& 0 <= found <= choices.len()
            &&& found > 0 ==> choices[found - 1].id == id && forall|i: int|
                0 <= i < found - 1 ==> (#[trigger] choices[i]).id != id
            &&& found == 0 ==> forall|i: int|
                0 <= i < choices.len() ==> (#[trigger] choices[i]).id != id
            &&& on_offer(settings, kind, None)
            &&& on_offer(settings, kind, Some(id)) <==> found > 0
        }),
{
    let choices = model_choices(settings, kind);
    first_position_is_first(choices, 0, has_id(id));
    let found = model_row(settings, kind, Some(id));
    if found > 0 {
        assert(choices[found - 1].id == id);
    }
}

/// The first row binds no model, the next are the models in their order, and one more is the
/// bound model where it is missing.
pub proof fn live2d_rows_are_the_models(
    paths: Seq<Seq<char>>,
    missing: Option<Seq<char>>,
    row: int,
    path: Seq<char>,
)
    ensures
        row <= 0 ==> live2d_choice(paths, missing, row) is None,
        1 <= row <= paths.len() ==> live2d_choice(paths, missing, row) == Some(paths[row - 1]),
        row > paths.len() && row > 0 ==> live2d_choice(paths, missing, row) == missing,
        live2d_row(paths, None) == 0,
        live2d_missing(paths, None) is None,
        ({
            let found = live2d_row(paths, Some(path));
            &&& 1 <= found <= paths.len() + 1
            &&& found <= paths.len() ==> spell_same_path(paths[found - 1], path) && forall|i: int|
                0 <= i < found - 1 ==> !spell_same_path(#[trigger] paths[i], path)
            &&& found == paths.len() + 1 ==> forall|i: int|
                0 <= i < paths.len() ==> !spell_same_path(#[trigger] paths[i], path)
            &&& found <= paths.len() ==> live2d_missing(paths, Some(path)) is None
            &&& found == paths.len() + 1 ==> live2d_missing(paths, Some(path)) == Some(path)
        }),
{
    first_position_is_first(paths, 0, is_path(path));
}

/// A model is offered with its label and its provider; in place of none, chat follows the
/// general choice, and speech is off.
pub proof fn model_is_offered_by_label_and_provider(label: Seq<char>, provider: Seq<char>)
    ensures
        model_label(label, provider) == label + " · "@ + provider,
        unbound_option(ModelKind::ChatCompletions) == ModelOption::Inherit,
        unbound_option(ModelKind::SpeechSynthesis) == ModelOption::Disabled,
        unbound_option(ModelKind::Transcription) == ModelOption::Disabled,
{
}

/// A new persona gets the smallest number from one on whose identifier is neither in use nor
/// held back.
pub proof fn new_persona_gets_the_smallest_number(
    settings: PersonaSettingsData,
    reserved: Set<Seq<char>>,
    id: Seq<char>,
)
    requires
        is_next_persona_id(settings, reserved, id),
    ensures
        !reserved.contains(id),
        !settings.pending_deletions.contains(id),
        !settings.has_persona(id),
        exists|number: nat|
            {
                &&& number >= 1
                &&& id == "persona-"@ + #[trigger] decimal_text(number)
                &&& forall|smaller: nat|
                    1 <= smaller < number ==> {
                        let taken = "persona-"@ + #[trigger] decimal_text(smaller);
                        reserved.contains(taken) || settings.pending_deletions.contains(taken)
                            || settings.has_persona(taken)
                    }
            },
{
    let number = choose|number: nat| #[trigger]
        is_next_persona_number(settings, reserved, number) && id == numbered("persona-"@, number);
    assert(id == "persona-"@ + decimal_text(number));
    assert forall|smaller: nat| 1 <= smaller < number implies persona_id_taken(
        settings,
        reserved,
        "persona-"@ + #[trigger] decimal_text(smaller),
    ) by {
        assert(persona_id_taken(settings, reserved, numbered("persona-"@, smaller)));
    }
}

/// A persona is found under its identifier wherever it is, and only there; the one in use is
/// the one that is selected.
pub proof fn persona_is_found_by_identifier(
    settings: PersonaSettingsData,
    id: Seq<char>,
    index: usize,
)
    ensures
        settings.position_of(id) matches Some(at) ==> {
            &&& 0 <= at < settings.personas.len()
            &&& settings.personas[at].id == id
            &&& forall|i: int| 0 <= i < at ==> (#[trigger] settings.personas[i]).id != id
        },
        settings.position_of(id) is None ==> forall|i: int|
            0 <= i < settings.personas.len() ==> (#[trigger] settings.personas[i]).id != id,
        settings.has_persona(id) <==> exists|i: int|
            0 <= i < settings.personas.len() && (#[trigger] settings.personas[i]).id == id,
        settings.selected == Some(id) ==> settings.selected_position() == settings.position_of(id),
        settings.selected is None ==> settings.selected_position() is None,
        index < settings.personas.len() ==> settings.persona_at(Some(index)) == Some(
            settings.personas[index as int],
        ),
        index >= settings.personas.len() ==> settings.persona_at(Some(index)) is None,
        settings.persona_at(None) is None,
{
    first_position_is_first(settings.personas, 0, |persona: PersonaView| persona.id == id);
}

/// The page opens at the persona in use, or else at the first.
pub proof fn page_opens_at_the_persona_in_use(settings: PersonaSettingsData)
    ensures
        settings.selected_position() matches Some(index) ==> settings.opening_position() == Some(
            index,
        ),
        settings.selected_position() is None && settings.personas.len() > 0
            ==> settings.opening_position() == Some(0int),
        settings.selected_position() is None && settings.personas.len() == 0
            ==> settings.opening_position() is None,
{
}

/// Taking a text out leaves the others in their order.
pub proof fn only_the_text_is_taken_out(texts: Seq<Seq<char>>, last: Seq<char>, text: Seq<char>)
    ensures
        without_text(Seq::empty(), text).len() == 0,
        without_text(texts.push(text), text) == without_text(texts, text),
        last != text ==> without_text(texts.push(last), text) == without_text(texts, text).push(
            last,
        ),
{
    assert(texts.push(text).drop_last() =~= texts);
    assert(texts.push(last).drop_last() =~= texts);
}

/// Unmarking a persona takes its mark, and nothing else.
pub proof fn only_the_mark_goes(settings: PersonaSettingsData, id: Seq<char>)
    ensures
        PersonaSettings::without_mark(settings, id).personas == settings.personas,
        PersonaSettings::without_mark(settings, id).selected == settings.selected,
        PersonaSettings::without_mark(settings, id).pending_deletions == without_text(
            settings.pending_deletions,
            id,
        ),
{
}

} // verus!
