//! What the page of models does, told in terms of the fields and models it is about.

use vstd::prelude::*;

use crate::number_text::{decimal_text, parsed_u32, trimmed};
use crate::revision::revision_after;
use crate::search::first_position_is_first;
use crate::settings::llm::{
    no_advanced_options, LlmAdvancedOptions, LlmModelView, LlmProvider, LlmSettings,
    LlmSettingsView, ModelKind, ModelProvider, ReasoningEffort,
};
use crate::settings::promises::seen_as_it_is;
use crate::settings::provider::form::{
    field_text, field_value, is_field_value, ProviderForm, ProviderFormView,
};
use crate::settings::provider::options::{
    code_views, first_provider, is_code, reasoning_choice, reasoning_row, whisper_choice,
    whisper_row, AdvancedForm, AdvancedFormView, NamedProvider, ProviderCatalog,
};
use crate::settings::provider::persistence::{FormSwitch, WriteOutcome};
use crate::settings::provider::render::{
    kind_tab, language_count, language_label, language_view, reasoning_options, row_of, row_views,
    rows_of, LanguageOption, ProviderRow, ProviderRowView, ReasoningOption,
};
use crate::settings::provider::selection::{last_of_kind, model_ids, neighbour, new_model};
use crate::settings::provider::view::{
    ProviderAction, ProviderSettingsView, ProviderStatus, ProviderUi,
};

verus! {

/// The form is seen field by field under the names of its fields.
pub proof fn form_is_seen_as_it_is(form: ProviderForm)
    ensures
        form@.label == form.label@,
        form@.model == form.model@,
        form@.endpoint == form.endpoint@,
        form@.api_key == form.api_key@,
        form@.voice == form.voice@,
        form@.local_path == form.local_path@,
        form@.whisper_row == form.whisper_row,
        seen_as_it_is(form@.provider_name, form.provider_name),
        form@.use_gpu == form.use_gpu,
        form@.advanced == form.advanced@,
{
}

/// So are its advanced fields.
pub proof fn advanced_form_is_seen_as_it_is(form: AdvancedForm)
    ensures
        form@.reasoning_row == form.reasoning_row,
        form@.reasoning_budget == form.reasoning_budget@,
        form@.context_window_tokens == form.context_window_tokens@,
        form@.max_output_tokens == form.max_output_tokens@,
        form@.temperature == form.temperature,
        form@.top_p == form.top_p,
        form@.context_window_tokens_enabled == form.context_window_tokens_enabled,
        form@.max_output_tokens_enabled == form.max_output_tokens_enabled,
        form@.temperature_enabled == form.temperature_enabled,
        form@.top_p_enabled == form.top_p_enabled,
{
}

/// A text field that may be left empty holds its text without the space around it, and
/// shows a value as it is.
pub proof fn field_holds_its_trimmed_text(text: Seq<char>)
    ensures
        trimmed(text).len() > 0 ==> field_value(text) == Some(trimmed(text)),
        trimmed(text).len() == 0 ==> field_value(text) is None,
        field_text(Some(text)) == text,
        field_text(None).len() == 0,
        is_field_value(None),
        is_field_value(Some(text)) <==> text.len() > 0 && trimmed(text) == text,
{
}

/// Whether a value is what a field with that text holds.
pub open spec fn holds(value: Option<Seq<char>>, text: Seq<char>) -> bool {
    if trimmed(text).len() > 0 {
        value == Some(trimmed(text))
    } else {
        value is None
    }
}

/// Whether a field with that text shows a value.
pub open spec fn shows(text: Seq<char>, value: Option<Seq<char>>) -> bool {
    match value {
        Some(shown) => text == shown,
        None => text.len() == 0,
    }
}

/// Each setting of a model is read from the field of its own name; a Doubao model has its
/// voice as a voice type, and any other as a voice.
pub proof fn each_setting_is_read_from_its_field(
    catalog: ProviderCatalog,
    model: LlmModelView,
    form: ProviderFormView,
)
    ensures
        ({
            let captured = catalog.captured_model(model, form);
            &&& captured.id == model.id
            &&& captured.kind == model.kind
            &&& captured.label == form.label
            &&& captured.model == form.model
            &&& holds(captured.endpoint, form.endpoint)
            &&& holds(captured.api_key, form.api_key)
            &&& holds(captured.local_path, form.local_path)
            &&& captured.provider == ModelProvider::Doubao ==> holds(
                captured.voice_type,
                form.voice,
            ) && captured.voice is None
            &&& captured.provider != ModelProvider::Doubao ==> holds(captured.voice, form.voice)
                && captured.voice_type is None
            &&& captured.use_gpu == form.use_gpu
            &&& 1 <= form.whisper_row <= catalog.whisper_languages@.len()
                ==> captured.whisper_language == Some(
                catalog.whisper_languages@[form.whisper_row - 1]@,
            )
            &&& !(1 <= form.whisper_row <= catalog.whisper_languages@.len())
                ==> captured.whisper_language is None
            &&& captured.provider == catalog.form_provider(model.kind, form.provider_name)
            &&& captured.advanced == catalog.captured_advanced(form.advanced)
        }),
{
}

/// Editing one field changes the setting of its name, and no other.
pub proof fn editing_a_field_changes_its_setting_alone(
    catalog: ProviderCatalog,
    model: LlmModelView,
    form: ProviderFormView,
    text: Seq<char>,
)
    ensures
        ({
            let before = catalog.captured_model(model, form);
            let endpoint = catalog.captured_model(model, ProviderFormView { endpoint: text, ..form });
            let api_key = catalog.captured_model(model, ProviderFormView { api_key: text, ..form });
            let local_path = catalog.captured_model(
                model,
                ProviderFormView { local_path: text, ..form },
            );
            let label = catalog.captured_model(model, ProviderFormView { label: text, ..form });
            let name = catalog.captured_model(model, ProviderFormView { model: text, ..form });
            &&& (LlmModelView { endpoint: before.endpoint, ..endpoint }) == before
            &&& holds(endpoint.endpoint, text)
            &&& (LlmModelView { api_key: before.api_key, ..api_key }) == before
            &&& holds(api_key.api_key, text)
            &&& (LlmModelView { local_path: before.local_path, ..local_path }) == before
            &&& holds(local_path.local_path, text)
            &&& label == (LlmModelView { label: text, ..before })
            &&& name == (LlmModelView { model: text, ..before })
        }),
{
}

/// Each field shows the setting of its own name.
pub proof fn each_field_shows_its_setting(
    catalog: ProviderCatalog,
    kind: ModelKind,
    model: LlmModelView,
)
    ensures
        ({
            let form = catalog.shown_form(kind, Some(model));
            &&& form.label == model.label
            &&& form.model == model.model
            &&& shows(form.endpoint, model.endpoint)
            &&& shows(form.api_key, model.api_key)
            &&& shows(form.local_path, model.local_path)
            &&& model.provider == ModelProvider::Doubao ==> shows(form.voice, model.voice_type)
            &&& model.provider != ModelProvider::Doubao ==> shows(form.voice, model.voice)
            &&& form.use_gpu == model.use_gpu
            &&& form.provider_name == Some(catalog.provider_name(model.provider))
            &&& form.whisper_row == whisper_row(
                code_views(catalog.whisper_languages@),
                model.whisper_language,
            )
            &&& form.advanced == catalog.shown_advanced(model.advanced)
        }),
{
}

/// A form without a model is empty, with the first provider of its kind.
pub proof fn form_without_model_is_empty(catalog: ProviderCatalog, kind: ModelKind)
    ensures
        ({
            let form = catalog.shown_form(kind, None);
            &&& form.label.len() == 0 && form.model.len() == 0 && form.endpoint.len() == 0
            &&& form.api_key.len() == 0 && form.voice.len() == 0 && form.local_path.len() == 0
            &&& form.whisper_row == 0
            &&& !form.use_gpu
            &&& form.provider_name == Some(catalog.provider_name(first_provider(kind)))
            &&& !form.advanced.context_window_tokens_enabled
                && !form.advanced.max_output_tokens_enabled
                && !form.advanced.temperature_enabled && !form.advanced.top_p_enabled
            &&& form.advanced.reasoning_row == 0
        }),
        first_provider(ModelKind::ChatCompletions) == ModelProvider::Genai(LlmProvider::Ollama),
        first_provider(ModelKind::SpeechSynthesis) == ModelProvider::Genai(LlmProvider::OpenAI),
        first_provider(ModelKind::Transcription) == ModelProvider::Genai(LlmProvider::OpenAI),
{
}

/// Each advanced option is read from the field of its own name, where it is switched on.
pub proof fn each_option_is_read_from_its_field(catalog: ProviderCatalog, form: AdvancedFormView)
    ensures
        ({
            let options = catalog.captured_advanced(form);
            &&& form.context_window_tokens_enabled ==> options.context_window_tokens == parsed_u32(
                form.context_window_tokens,
            )
            &&& !form.context_window_tokens_enabled ==> options.context_window_tokens is None
            &&& form.max_output_tokens_enabled ==> options.max_output_tokens == parsed_u32(
                form.max_output_tokens,
            )
            &&& !form.max_output_tokens_enabled ==> options.max_output_tokens is None
            &&& form.temperature_enabled ==> options.temperature == form.temperature
            &&& !form.temperature_enabled ==> options.temperature is None
            &&& form.top_p_enabled ==> options.top_p == form.top_p
            &&& !form.top_p_enabled ==> options.top_p is None
            &&& options.reasoning_effort == reasoning_choice(
                catalog.reasoning_levels@,
                form.reasoning_row,
                parsed_u32(form.reasoning_budget),
                catalog.default_reasoning_budget,
            )
        }),
{
}

/// Each advanced field shows the option of its own name, or what it would start from.
pub proof fn each_field_shows_its_option(catalog: ProviderCatalog, options: LlmAdvancedOptions)
    ensures
        ({
            let form = catalog.shown_advanced(options);
            &&& form.context_window_tokens_enabled == options.context_window_tokens is Some
            &&& form.max_output_tokens_enabled == options.max_output_tokens is Some
            &&& form.temperature_enabled == options.temperature is Some
            &&& form.top_p_enabled == options.top_p is Some
            &&& options.context_window_tokens matches Some(tokens) ==> form.context_window_tokens
                == decimal_text(tokens as nat)
            &&& options.context_window_tokens is None ==> form.context_window_tokens
                == decimal_text(catalog.default_context_tokens as nat)
            &&& options.max_output_tokens matches Some(tokens) ==> form.max_output_tokens
                == decimal_text(tokens as nat)
            &&& options.max_output_tokens is None ==> form.max_output_tokens == decimal_text(
                catalog.default_max_output_tokens as nat,
            )
            &&& options.temperature is Some ==> form.temperature == options.temperature
            &&& options.temperature is None ==> form.temperature == Some(
                catalog.default_temperature,
            )
            &&& options.top_p is Some ==> form.top_p == options.top_p
            &&& options.top_p is None ==> form.top_p == Some(catalog.default_top_p)
            &&& options.reasoning_effort matches Some(ReasoningEffort::Budget(budget))
                ==> form.reasoning_budget == decimal_text(budget as nat)
            &&& !(options.reasoning_effort matches Some(ReasoningEffort::Budget(_)))
                ==> form.reasoning_budget == decimal_text(catalog.default_reasoning_budget as nat)
            &&& form.reasoning_row == reasoning_row(
                catalog.reasoning_levels@,
                options.reasoning_effort,
            )
        }),
{
}

/// The first row leaves the effort open, the last one is a budget, and those between are the
/// levels in their order.
pub proof fn effort_rows_are_the_levels(
    levels: Seq<ReasoningEffort>,
    row: int,
    budget: Option<u32>,
    default_budget: u32,
    chosen: u32,
)
    ensures
        reasoning_choice(levels, 0, budget, default_budget) is None,
        1 <= row <= levels.len() ==> reasoning_choice(levels, row, budget, default_budget) == Some(
            levels[row - 1],
        ),
        reasoning_choice(levels, levels.len() as int + 1, Some(chosen), default_budget) == Some(
            ReasoningEffort::Budget(chosen),
        ),
        reasoning_choice(levels, levels.len() as int + 1, None, default_budget) == Some(
            ReasoningEffort::Budget(default_budget),
        ),
        row < 0 || row > levels.len() + 1 ==> reasoning_choice(levels, row, budget, default_budget)
            is None,
        reasoning_row(levels, None) == 0,
        reasoning_row(levels, Some(ReasoningEffort::Budget(chosen))) == levels.len() + 1,
{
}

/// A level has the row at which it is listed first; one that is not listed is left open.
pub proof fn effort_row_is_that_of_its_level(levels: Seq<ReasoningEffort>, level: ReasoningEffort)
    requires
        !(level is Budget),
    ensures
        ({
            let row = reasoning_row(levels, Some(level));
            &&& 0 <= row <= levels.len()
            &&& row > 0 ==> levels[row - 1] == level && forall|i: int|
                0 <= i < row - 1 ==> #[trigger] levels[i] != level
            &&& row == 0 ==> forall|i: int| 0 <= i < levels.len() ==> #[trigger] levels[i] != level
        }),
{
    first_position_is_first(levels, 0, |listed: ReasoningEffort| listed == level);
}

/// The first row leaves the language open; the others are the languages in their order.
pub proof fn language_rows_are_the_languages(codes: Seq<String>, row: int, language: Seq<char>)
    ensures
        code_views(codes).len() == codes.len(),
        forall|i: int| 0 <= i < codes.len() ==> #[trigger] code_views(codes)[i] == codes[i]@,
        1 <= row <= codes.len() ==> whisper_choice(code_views(codes), row) == Some(codes[row - 1]@),
        row <= 0 || row > codes.len() ==> whisper_choice(code_views(codes), row) is None,
        whisper_row(code_views(codes), None) == 0,
        ({
            let found = whisper_row(code_views(codes), Some(language));
            &&& 0 <= found <= codes.len()
            &&& found > 0 ==> codes[found - 1]@ == language && forall|i: int|
                0 <= i < found - 1 ==> (#[trigger] codes[i])@ != language
            &&& found == 0 ==> forall|i: int|
                0 <= i < codes.len() ==> (#[trigger] codes[i])@ != language
        }),
{
    let seen = code_views(codes);
    first_position_is_first(seen, 0, is_code(language));
    assert forall|i: int| 0 <= i < codes.len() implies (#[trigger] codes[i])@ == seen[i] by {}
}

/// Chat models may come from any chat provider, speech and transcription models from those
/// that offer them.
pub proof fn providers_are_those_of_the_kind(catalog: ProviderCatalog)
    ensures
        catalog.provider_choices(ModelKind::ChatCompletions).len()
            == catalog.chat_providers@.len(),
        forall|i: int|
            0 <= i < catalog.chat_providers@.len() ==> #[trigger] catalog.provider_choices(
                ModelKind::ChatCompletions,
            )[i] == ModelProvider::Genai(catalog.chat_providers@[i].provider),
        catalog.provider_choices(ModelKind::SpeechSynthesis) == seq![
            ModelProvider::Genai(LlmProvider::OpenAI),
            ModelProvider::Doubao,
        ],
        catalog.provider_choices(ModelKind::Transcription) == seq![
            ModelProvider::Genai(LlmProvider::OpenAI),
            ModelProvider::Doubao,
            ModelProvider::LocalWhisper,
        ],
{
}

/// A provider is shown by its own name.
pub proof fn provider_is_shown_by_its_name(catalog: ProviderCatalog, provider: LlmProvider)
    ensures
        catalog.provider_name(ModelProvider::Doubao) == catalog.doubao_name@,
        catalog.provider_name(ModelProvider::LocalWhisper) == catalog.local_whisper_name@,
        (forall|i: int|
            0 <= i < catalog.chat_providers@.len() ==> (#[trigger] catalog.chat_providers@[i]).provider
                != provider) ==> catalog.provider_name(ModelProvider::Genai(provider)).len() == 0,
        (exists|i: int|
            0 <= i < catalog.chat_providers@.len() && (#[trigger] catalog.chat_providers@[i]).provider
                == provider) ==> exists|i: int|
            0 <= i < catalog.chat_providers@.len() && (#[trigger] catalog.chat_providers@[i]).provider
                == provider && catalog.provider_name(ModelProvider::Genai(provider))
                == catalog.chat_providers@[i].name@ && forall|j: int|
                0 <= j < i ==> (#[trigger] catalog.chat_providers@[j]).provider != provider,
{
    first_position_is_first(
        catalog.chat_providers@,
        0,
        |entry: NamedProvider| entry.provider == provider,
    );
}

/// A chosen name stands for the first provider of the kind that is called so; any other name
/// for the first provider of the kind.
pub proof fn name_stands_for_its_provider(
    catalog: ProviderCatalog,
    kind: ModelKind,
    name: Seq<char>,
)
    ensures
        catalog.form_provider(kind, None) == first_provider(kind),
        catalog.provider_by_name(kind, name) matches Some(provider) ==> {
            &&& catalog.form_provider(kind, Some(name)) == provider
            &&& catalog.provider_name(provider) == name
            &&& exists|i: int|
                {
                    &&& 0 <= i < catalog.provider_choices(kind).len()
                    &&& #[trigger] catalog.provider_choices(kind)[i] == provider
                    &&& forall|j: int|
                        0 <= j < i ==> catalog.provider_name(
                            #[trigger] catalog.provider_choices(kind)[j],
                        ) != name
                }
        },
        catalog.provider_by_name(kind, name) is None ==> {
            &&& catalog.form_provider(kind, Some(name)) == first_provider(kind)
            &&& forall|i: int|
                0 <= i < catalog.provider_choices(kind).len() ==> catalog.provider_name(
                    #[trigger] catalog.provider_choices(kind)[i],
                ) != name
        },
{
    first_position_is_first(
        catalog.provider_choices(kind),
        0,
        |provider: ModelProvider| catalog.provider_name(provider) == name,
    );
}

/// The model that is edited takes what the form holds; every other model and the selections
/// stay as they are.
pub proof fn only_the_edited_model_is_captured(page: ProviderSettingsView, i: int)
    ensures
        ({
            let captured = page.captured_draft();
            let edited = page.ui.editing_index matches Some(index) && index
                < page.draft@.models.len();
            &&& captured.models.len() == page.draft@.models.len()
            &&& captured.selected_model == page.draft@.selected_model
            &&& captured.selected_transcription_model == page.draft@.selected_transcription_model
            &&& !edited ==> captured == page.draft@
            &&& edited ==> captured.models[page.ui.editing_index->0 as int]
                == page.catalog.captured_model(
                page.draft@.models[page.ui.editing_index->0 as int],
                page.form@,
            )
            &&& 0 <= i < page.draft@.models.len() && page.ui.editing_index != Some(i as usize)
                ==> captured.models[i] == page.draft@.models[i]
            &&& page.edits_model() == edited
        }),
{
}

/// The form shows the model at the index, in the kind that is on screen.
pub proof fn form_shows_the_model_at_the_index(page: ProviderSettingsView, index: usize)
    ensures
        index < page.draft@.models.len() ==> page.form_for(Some(index)) == page.catalog.shown_form(
            page.ui.active_kind,
            Some(page.draft@.models[index as int]),
        ),
        index >= page.draft@.models.len() ==> page.form_for(Some(index))
            == page.catalog.shown_form(page.ui.active_kind, None),
        page.form_for(None) == page.catalog.shown_form(page.ui.active_kind, None),
        page.loading_ui(Some(index)).editing_index == Some(index),
        page.loading_ui(None).editing_index is None,
        page.loading_ui(Some(index)).loading_form,
        page.loading_ui(Some(index)).picker_revision == revision_after(page.ui.picker_revision),
        (ProviderUi {
            editing_index: page.ui.editing_index,
            loading_form: page.ui.loading_form,
            picker_revision: page.ui.picker_revision,
            ..page.loading_ui(Some(index))
        }) == page.ui,
{
}

/// The page opens on the kind of the model in use.
pub proof fn page_opens_on_the_kind_in_use(settings: LlmSettingsView)
    ensures
        settings.selected_model_view() matches Some(model) ==> settings.opening_kind()
            == model.kind && settings.selected_model == Some(model.id)
            && settings.models.contains(model),
        settings.selected_model_view() is None ==> (
        settings.selected_transcription_view() matches Some(model) ==> settings.opening_kind()
            == model.kind && settings.selected_transcription_model == Some(model.id)),
        settings.selected_model_view() is None && settings.selected_transcription_view() is None
            ==> settings.opening_kind() == ModelKind::ChatCompletions,
        settings.selected_model is None ==> settings.selected_model_view() is None,
        settings.selected_transcription_model is None
            ==> settings.selected_transcription_view() is None,
        settings.selected_model matches Some(id) ==> (settings.selected_model_view() is None
            ==> forall|i: int|
            0 <= i < settings.models.len() ==> (#[trigger] settings.models[i]).id != id),
        settings.selected_transcription_model matches Some(id) ==> (
        settings.selected_transcription_view() is None ==> forall|i: int|
            0 <= i < settings.models.len() ==> (#[trigger] settings.models[i]).id != id),
{
    if let Some(id) = settings.selected_model {
        first_position_is_first(settings.models, 0, |model: LlmModelView| model.id == id);
    }
    if let Some(id) = settings.selected_transcription_model {
        first_position_is_first(settings.models, 0, |model: LlmModelView| model.id == id);
    }
}

/// A model that is selected comes into use for its own kind, and for no other.
pub proof fn selected_model_is_in_use_for_its_kind(settings: LlmSettingsView, index: int)
    requires
        0 <= index < settings.models.len(),
    ensures
        ({
            let after = settings.with_selected(index);
            let model = settings.models[index];
            &&& after.models == settings.models
            &&& model.kind == ModelKind::ChatCompletions ==> after.selected_model == Some(model.id)
                && after.selected_transcription_model == settings.selected_transcription_model
            &&& model.kind == ModelKind::Transcription ==> after.selected_transcription_model
                == Some(model.id) && after.selected_model == settings.selected_model
            &&& model.kind == ModelKind::SpeechSynthesis ==> after == settings
        }),
{
}

/// Selecting captures the form first, and then takes the model at the index into use.
pub proof fn selecting_keeps_what_was_edited(page: ProviderSettingsView, index: usize)
    ensures
        page.selected_draft(index).models == page.captured_draft().models,
        index >= page.draft@.models.len() ==> page.selected_draft(index) == page.captured_draft(),
        index < page.draft@.models.len() ==> page.selected_draft(index)
            == page.captured_draft().with_selected(index as int),
{
}

/// Deleting takes the model at the index away and no other; the selections move on to the
/// model that is edited next, if it is of their kind, where they named the deleted one.
pub proof fn only_the_deleted_model_goes(settings: LlmSettingsView, index: int, kind: ModelKind)
    requires
        0 <= index < settings.models.len(),
    ensures
        ({
            let after = settings.without_model(index, kind);
            let gone = settings.models[index].id;
            let next = neighbour(after.models, index, kind);
            let next_id = |wanted: ModelKind|
                match next {
                    Some(at) => if after.models[at].kind == wanted {
                        Some(after.models[at].id)
                    } else {
                        None
                    },
                    None => None,
                };
            &&& after.models.len() == settings.models.len() - 1
            &&& forall|i: int| 0 <= i < index ==> #[trigger] after.models[i] == settings.models[i]
            &&& forall|i: int|
                index <= i < after.models.len() ==> #[trigger] after.models[i] == settings.models[i
                    + 1]
            &&& settings.selected_model != Some(gone) ==> after.selected_model
                == settings.selected_model
            &&& settings.selected_model == Some(gone) ==> after.selected_model == next_id(
                ModelKind::ChatCompletions,
            )
            &&& settings.selected_transcription_model != Some(gone)
                ==> after.selected_transcription_model == settings.selected_transcription_model
            &&& settings.selected_transcription_model == Some(gone)
                ==> after.selected_transcription_model == next_id(ModelKind::Transcription)
        }),
{
}

proof fn last_is_last(models: Seq<LlmModelView>, end: int, kind: ModelKind)
    requires
        0 <= end <= models.len(),
    ensures
        match last_of_kind(models, end, kind) {
            Some(at) => 0 <= at < end && models[at].kind == kind && forall|i: int|
                at < i < end ==> (#[trigger] models[i]).kind != kind,
            None => forall|i: int| 0 <= i < end ==> (#[trigger] models[i]).kind != kind,
        },
    decreases end,
{
    if end > 0 && models[end - 1].kind != kind {
        last_is_last(models, end - 1, kind);
    }
}

/// The neighbour of a place is the next model of the kind from there on, or else the last one
/// before it.
pub proof fn neighbour_is_next_or_last(models: Seq<LlmModelView>, index: int, kind: ModelKind)
    requires
        0 <= index <= models.len(),
    ensures
        match neighbour(models, index, kind) {
            Some(at) => {
                &&& 0 <= at < models.len()
                &&& models[at].kind == kind
                &&& at >= index ==> forall|i: int|
                    index <= i < at ==> (#[trigger] models[i]).kind != kind
                &&& at < index ==> forall|i: int|
                    at < i < models.len() ==> (#[trigger] models[i]).kind != kind
            },
            None => forall|i: int| 0 <= i < models.len() ==> (#[trigger] models[i]).kind != kind,
        },
{
    first_position_is_first(models, index, |model: LlmModelView| model.kind == kind);
    last_is_last(models, index, kind);
}

/// A new model has the identifier, the label and the kind it was made with, and starts from
/// the defaults of its kind.
pub proof fn new_model_starts_from_defaults(id: Seq<char>, label: Seq<char>, kind: ModelKind)
    ensures
        ({
            let model = new_model(id, label, kind);
            &&& model.id == id
            &&& model.label == label
            &&& model.kind == kind
            &&& kind == ModelKind::ChatCompletions ==> model.provider == ModelProvider::Genai(
                LlmProvider::Ollama,
            ) && model.endpoint == Some("http://localhost:11434/"@)
            &&& kind != ModelKind::ChatCompletions ==> model.provider == ModelProvider::Genai(
                LlmProvider::OpenAI,
            ) && model.endpoint is None
            &&& kind == ModelKind::SpeechSynthesis ==> model.voice == Some("alloy"@)
            &&& kind != ModelKind::SpeechSynthesis ==> model.voice is None
            &&& model.model.len() == 0
            &&& model.api_key is None && model.voice_type is None && model.local_path is None
                && model.whisper_language is None
            &&& !model.use_gpu
            &&& model.advanced == (LlmAdvancedOptions {
                context_window_tokens: None,
                reasoning_effort: None,
                max_output_tokens: None,
                temperature: None,
                top_p: None,
            })
            &&& model.advanced == no_advanced_options()
        }),
{
}

/// The identifiers are those of the models in their order.
pub proof fn identifiers_are_those_of_the_models(models: Seq<LlmModelView>)
    ensures
        model_ids(models).len() == models.len(),
        forall|i: int| 0 <= i < models.len() ==> #[trigger] model_ids(models)[i] == models[i].id,
{
}

/// A write that is begun gets a revision of its own and counts as under way.
pub proof fn begun_write_is_under_way(page: ProviderSettingsView)
    ensures
        ({
            let after = page.submitted_ui();
            &&& after.save_revision == revision_after(page.ui.save_revision)
            &&& after.toast_revision == revision_after(page.ui.toast_revision)
            &&& page.ui.writes_in_flight < usize::MAX ==> after.writes_in_flight
                == page.ui.writes_in_flight + 1
            &&& (ProviderUi {
                save_revision: page.ui.save_revision,
                toast_revision: page.ui.toast_revision,
                writes_in_flight: page.ui.writes_in_flight,
                ..after
            }) == page.ui
            &&& page.ui.writes_in_flight > 0 ==> page.writes_after_one()
                == page.ui.writes_in_flight - 1
            &&& page.ui.writes_in_flight == 0 ==> page.writes_after_one() == 0
        }),
{
}

/// The latest write is reported as it ended; an earlier one is not, but what it stored is
/// taken note of, and the last one of all ends the saving.
pub proof fn latest_write_is_reported(
    page: ProviderSettingsView,
    revision: u64,
    current: LlmSettings,
    error: String,
)
    ensures
        ({
            let latest = page.ui.save_revision == revision;
            let done = page.ui.writes_in_flight <= 1;
            let told = if latest {
                seq![
                    ProviderAction::StartToast { revision: revision_after(page.ui.toast_revision) },
                    ProviderAction::Notify,
                ]
            } else {
                seq![]
            };
            let end = if done {
                seq![ProviderAction::SaveFinished]
            } else {
                seq![]
            };
            let replaced = WriteOutcome::Replaced { current };
            let failed = WriteOutcome::Failed { current, error };
            &&& latest ==> page.write_status(revision, WriteOutcome::Stored) == Some(
                ProviderStatus::Saved,
            )
            &&& latest ==> page.write_status(revision, replaced) == Some(
                ProviderStatus::SaveReplaced,
            )
            &&& latest ==> page.write_status(revision, failed) == Some(
                ProviderStatus::SaveFailed(error),
            )
            &&& !latest ==> page.write_status(revision, WriteOutcome::Stored) is None
                && page.write_status(revision, replaced) is None && page.write_status(
                revision,
                failed,
            ) is None
            &&& page.write_actions(revision, WriteOutcome::Stored) == seq![ProviderAction::Saved]
                + told + end
            &&& page.write_actions(revision, replaced) == told + end
            &&& page.write_actions(revision, failed) == told + end
        }),
{
}

/// A switch turns over what it is for, and nothing else.
pub proof fn switch_turns_over_its_own(form: ProviderForm)
    ensures
        ({
            let turned = |switch: FormSwitch| ProviderSettingsView::switched_form(form, switch);
            let context = turned(FormSwitch::ContextWindowTokens);
            let output = turned(FormSwitch::MaxOutputTokens);
            let temperature = turned(FormSwitch::Temperature);
            let top_p = turned(FormSwitch::TopP);
            let gpu = turned(FormSwitch::UseGpu);
            &&& context.advanced.context_window_tokens_enabled
                == !form.advanced.context_window_tokens_enabled
            &&& (ProviderForm {
                advanced: AdvancedForm {
                    context_window_tokens_enabled: form.advanced.context_window_tokens_enabled,
                    ..context.advanced
                },
                ..context
            }) == form
            &&& output.advanced.max_output_tokens_enabled
                == !form.advanced.max_output_tokens_enabled
            &&& (ProviderForm {
                advanced: AdvancedForm {
                    max_output_tokens_enabled: form.advanced.max_output_tokens_enabled,
                    ..output.advanced
                },
                ..output
            }) == form
            &&& temperature.advanced.temperature_enabled == !form.advanced.temperature_enabled
            &&& (ProviderForm {
                advanced: AdvancedForm {
                    temperature_enabled: form.advanced.temperature_enabled,
                    ..temperature.advanced
                },
                ..temperature
            }) == form
            &&& top_p.advanced.top_p_enabled == !form.advanced.top_p_enabled
            &&& (ProviderForm {
                advanced: AdvancedForm {
                    top_p_enabled: form.advanced.top_p_enabled,
                    ..top_p.advanced
                },
                ..top_p
            }) == form
            &&& gpu.use_gpu == !form.use_gpu
            &&& (ProviderForm { use_gpu: form.use_gpu, ..gpu }) == form
        }),
{
}

/// A field is the one that is edited if the edit is of that field.
pub proof fn edit_is_of_its_field(page: ProviderSettingsView, field: u32)
    ensures
        page.input_edit is None ==> !page.edits_field(field),
        page.input_edit matches Some(edit) ==> (page.edits_field(field) <==> edit.field == field),
{
}

/// A row is seen as it is.
pub proof fn row_is_seen_as_it_is(row: ProviderRow, rows: Seq<ProviderRow>)
    ensures
        row@.index == row.index,
        row@.label == row.label@,
        row@.provider == row.provider,
        seen_as_it_is(row@.model_name, row.model_name),
        row@.editing == row.editing,
        row@.active == row.active,
        row_views(rows).len() == rows.len(),
        forall|i: int| 0 <= i < rows.len() ==> #[trigger] row_views(rows)[i] == rows[i]@,
{
}

/// The row of a model shows that model, whether it is edited, and whether it is in use.
pub proof fn row_shows_its_model(
    model: LlmModelView,
    index: int,
    editing: Option<usize>,
    active: Option<Seq<char>>,
)
    ensures
        ({
            let row = row_of(model, index, editing, active);
            &&& row.index == index
            &&& row.label == model.label
            &&& row.provider == model.provider
            &&& trimmed(model.model).len() > 0 ==> row.model_name == Some(model.model)
            &&& trimmed(model.model).len() == 0 ==> row.model_name is None
            &&& editing is None ==> !row.editing
            &&& editing matches Some(edited) ==> (row.editing <==> edited == index)
            &&& active is None ==> !row.active
            &&& active matches Some(id) ==> (row.active <==> id == model.id)
        }),
{
}

proof fn rows_are_those_before(
    models: Seq<LlmModelView>,
    count: int,
    kind: ModelKind,
    editing: Option<usize>,
    active: Option<Seq<char>>,
)
    requires
        0 <= count <= models.len(),
    ensures
        ({
            let rows = rows_of(models, count, kind, editing, active);
            &&& forall|i: int|
                0 <= i < rows.len() ==> {
                    &&& 0 <= (#[trigger] rows[i]).index < count
                    &&& models[rows[i].index].kind == kind
                    &&& rows[i] == row_of(models[rows[i].index], rows[i].index, editing, active)
                }
            &&& forall|i: int, j: int|
                0 <= i < j < rows.len() ==> (#[trigger] rows[i]).index < (#[trigger] rows[j]).index
            &&& forall|at: int|
                0 <= at < count && (#[trigger] models[at]).kind == kind ==> rows.contains(
                    row_of(models[at], at, editing, active),
                )
        }),
    decreases count,
{
    if count > 0 {
        rows_are_those_before(models, count - 1, kind, editing, active);
        let before = rows_of(models, count - 1, kind, editing, active);
        let rows = rows_of(models, count, kind, editing, active);
        if models[count - 1].kind == kind {
            assert(rows[before.len() as int] == row_of(
                models[count - 1],
                count - 1,
                editing,
                active,
            ));
        }
        assert forall|at: int|
            0 <= at < count && (#[trigger] models[at]).kind == kind implies rows.contains(
            row_of(models[at], at, editing, active),
        ) by {
            let row = row_of(models[at], at, editing, active);
            if at < count - 1 {
                assert(before.contains(row));
                let place = choose|i: int| 0 <= i < before.len() && before[i] == row;
                assert(rows[place] == row);
            } else {
                assert(rows[before.len() as int] == row);
            }
        }
    }
}

/// The list shows every model of the kind on screen once, in the order of the models, and no
/// other.
pub proof fn list_shows_the_models_of_the_kind(page: ProviderSettingsView)
    ensures
        ({
            let rows = page.list_rows();
            let models = page.draft@.models;
            let kind = page.ui.active_kind;
            &&& forall|i: int|
                0 <= i < rows.len() ==> {
                    &&& 0 <= (#[trigger] rows[i]).index < models.len()
                    &&& models[rows[i].index].kind == kind
                    &&& rows[i] == row_of(
                        models[rows[i].index],
                        rows[i].index,
                        page.ui.editing_index,
                        page.draft@.selected_id(kind),
                    )
                }
            &&& forall|i: int, j: int|
                0 <= i < j < rows.len() ==> (#[trigger] rows[i]).index < (#[trigger] rows[j]).index
            &&& forall|at: int|
                0 <= at < models.len() && (#[trigger] models[at]).kind == kind ==> rows.contains(
                    row_of(
                        models[at],
                        at,
                        page.ui.editing_index,
                        page.draft@.selected_id(kind),
                    ),
                )
        }),
{
    rows_are_those_before(
        page.draft@.models,
        page.draft@.models.len() as int,
        page.ui.active_kind,
        page.ui.editing_index,
        page.draft@.selected_id(page.ui.active_kind),
    );
}

/// The line below a model names its provider and the model, or what stands for no model.
pub proof fn detail_names_provider_and_model(
    page: ProviderSettingsView,
    row: ProviderRowView,
    unset: Seq<char>,
)
    ensures
        row.model_name matches Some(name) ==> page.row_detail(row, unset)
            == page.catalog.provider_name(row.provider) + " · "@ + name,
        row.model_name is None ==> page.row_detail(row, unset) == page.catalog.provider_name(
            row.provider,
        ) + " · "@ + unset,
{
}

/// Each kind has a tab of its own.
pub proof fn tabs_are_those_of_the_kinds()
    ensures
        kind_tab(ModelKind::ChatCompletions) == "Chat"@,
        kind_tab(ModelKind::SpeechSynthesis) == "TTS"@,
        kind_tab(ModelKind::Transcription) == "STT"@,
{
}

/// The options for the effort stand in the rows that they are read from.
pub proof fn effort_options_stand_in_their_rows(levels: Seq<ReasoningEffort>, row: int)
    ensures
        reasoning_options(levels).len() == levels.len() + 2,
        reasoning_options(levels)[0] == ReasoningOption::Auto,
        1 <= row <= levels.len() ==> reasoning_options(levels)[row] == ReasoningOption::Level(
            levels[row - 1],
        ),
        reasoning_options(levels)[levels.len() as int + 1] == ReasoningOption::Budget,
{
}

/// A language is shown by its name, with its code in brackets.
pub proof fn language_is_shown_with_its_code(
    name: Seq<char>,
    code: Seq<char>,
    label: String,
    codes: Seq<String>,
    names: Seq<String>,
)
    ensures
        language_label(name, code) == name + " ("@ + code + ")"@,
        language_view(LanguageOption::Open) is None,
        language_view(LanguageOption::Named(label)) == Some(label@),
        codes.len() <= names.len() ==> language_count(codes, names) == codes.len(),
        names.len() <= codes.len() ==> language_count(codes, names) == names.len(),
{
}

/// The editor is that of the provider chosen in the form, and shows the fields of the options
/// that are switched on.
pub proof fn editor_is_that_of_the_chosen_provider(page: ProviderSettingsView)
    ensures
        page.ui.editing_index is None ==> page.edited_provider() is None,
        page.ui.editing_index is Some ==> page.edited_provider() == Some(
            page.catalog.form_provider(page.ui.active_kind, page.form@.provider_name),
        ),
        ({
            let scene = page.advanced_view();
            &&& scene.expanded == page.ui.advanced_expanded
            &&& scene.budget_field <==> page.form.advanced.reasoning_row
                == page.catalog.reasoning_levels@.len() + 1
            &&& scene.context_window_tokens == page.form.advanced.context_window_tokens_enabled
            &&& scene.max_output_tokens == page.form.advanced.max_output_tokens_enabled
            &&& scene.temperature == page.form.advanced.temperature_enabled
            &&& scene.top_p == page.form.advanced.top_p_enabled
        }),
{
}

/// What surrounds the models is the same if all of it is.
pub proof fn surroundings_are_the_same_in_everything(
    one: ProviderSettingsView,
    other: ProviderSettingsView,
)
    ensures
        one.same_surroundings(other) <==> one.submitted == other.submitted && one.catalog
            == other.catalog && one.status == other.status && one.input_edit == other.input_edit,
{
}

} // verus!
