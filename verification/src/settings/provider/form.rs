//! The form in which a model is edited.

use vstd::prelude::*;

use crate::number_text::{non_empty, trimmed};
use crate::settings::llm::{
    no_advanced_options, LlmAdvancedOptions, LlmModelConfig, LlmModelView, ModelKind, ModelProvider,
};
use crate::settings::provider::options::{
    advanced_form_round_trips, code_views, default_provider, first_provider,
    provider_is_found_by_name, selected_whisper_language, whisper_choice, whisper_language_index,
    whisper_row, whisper_row_stands_for_language, AdvancedForm, AdvancedFormView, ProviderCatalog,
};
use crate::text::optional_view;

verus! {

/// The fields of the form. `provider_name` is the provider chosen by name, if one is.
#[derive(Debug)]
pub struct ProviderForm {
    pub label: String,
    pub model: String,
    pub endpoint: String,
    pub api_key: String,
    pub voice: String,
    pub local_path: String,
    pub whisper_row: usize,
    pub provider_name: Option<String>,
    pub use_gpu: bool,
    pub advanced: AdvancedForm,
}

/// The fields of the form, in their texts.
#[verifier::ext_equal]
pub struct ProviderFormView {
    pub label: Seq<char>,
    pub model: Seq<char>,
    pub endpoint: Seq<char>,
    pub api_key: Seq<char>,
    pub voice: Seq<char>,
    pub local_path: Seq<char>,
    pub whisper_row: int,
    pub provider_name: Option<Seq<char>>,
    pub use_gpu: bool,
    pub advanced: AdvancedFormView,
}

impl View for ProviderForm {
    type V = ProviderFormView;

    open spec fn view(&self) -> ProviderFormView {
        ProviderFormView {
            label: self.label@,
            model: self.model@,
            endpoint: self.endpoint@,
            api_key: self.api_key@,
            voice: self.voice@,
            local_path: self.local_path@,
            whisper_row: self.whisper_row as int,
            provider_name: optional_view(self.provider_name),
            use_gpu: self.use_gpu,
            advanced: self.advanced@,
        }
    }
}

/// What an optional field holds: its text without white space around it, or nothing.
pub open spec fn field_value(text: Seq<char>) -> Option<Seq<char>> {
    if trimmed(text).len() > 0 {
        Some(trimmed(text))
    } else {
        None
    }
}

/// What an optional field shows of a value.
pub open spec fn field_text(value: Option<Seq<char>>) -> Seq<char> {
    match value {
        Some(text) => text,
        None => Seq::empty(),
    }
}

fn optional_field(text: &String) -> (value: Option<String>)
    ensures
        optional_view(value) == field_value(text@),
{
    non_empty(text.as_str())
}

fn shown_field(value: &Option<String>) -> (text: String)
    ensures
        text@ == field_text(optional_view(*value)),
{
    match value {
        Some(text) => text.clone(),
        None => String::new(),
    }
}

impl ProviderCatalog {
    /// The provider that the form stands for: the one chosen, or the first one for the kind
    /// of model.
    pub open spec fn form_provider(self, kind: ModelKind, name: Option<Seq<char>>) -> ModelProvider {
        match name {
            Some(name) => match self.provider_by_name(kind, name) {
                Some(provider) => provider,
                None => first_provider(kind),
            },
            None => first_provider(kind),
        }
    }

    /// The model that the form stands for, where it edits `model`. The voice field belongs
    /// to the voice or to the voice type, depending on the provider.
    pub open spec fn captured_model(self, model: LlmModelView, form: ProviderFormView) -> LlmModelView {
        let provider = self.form_provider(model.kind, form.provider_name);
        LlmModelView {
            id: model.id,
            kind: model.kind,
            label: form.label,
            provider,
            model: form.model,
            endpoint: field_value(form.endpoint),
            api_key: field_value(form.api_key),
            voice: if provider == ModelProvider::Doubao {
                None
            } else {
                field_value(form.voice)
            },
            voice_type: if provider == ModelProvider::Doubao {
                field_value(form.voice)
            } else {
                None
            },
            local_path: field_value(form.local_path),
            use_gpu: form.use_gpu,
            whisper_language: whisper_choice(
                code_views(self.whisper_languages@),
                form.whisper_row,
            ),
            advanced: self.captured_advanced(form.advanced),
        }
    }

    /// The form that shows `model`, or an empty one for a kind of model.
    pub open spec fn shown_form(self, kind: ModelKind, model: Option<LlmModelView>) -> ProviderFormView {
        match model {
            Some(model) => ProviderFormView {
                label: model.label,
                model: model.model,
                endpoint: field_text(model.endpoint),
                api_key: field_text(model.api_key),
                voice: field_text(
                    if model.provider == ModelProvider::Doubao {
                        model.voice_type
                    } else {
                        model.voice
                    },
                ),
                local_path: field_text(model.local_path),
                whisper_row: whisper_row(
                    code_views(self.whisper_languages@),
                    model.whisper_language,
                ),
                provider_name: Some(self.provider_name(model.provider)),
                use_gpu: model.use_gpu,
                advanced: self.shown_advanced(model.advanced),
            },
            None => ProviderFormView {
                label: Seq::empty(),
                model: Seq::empty(),
                endpoint: Seq::empty(),
                api_key: Seq::empty(),
                voice: Seq::empty(),
                local_path: Seq::empty(),
                whisper_row: 0,
                provider_name: Some(self.provider_name(first_provider(kind))),
                use_gpu: false,
                advanced: self.shown_advanced(no_advanced_options()),
            },
        }
    }

    /// Writes what the form holds into `model`.
    pub fn capture_model(&self, model: &LlmModelConfig, form: &ProviderForm) -> (captured:
        LlmModelConfig)
        requires
            self.well_formed(),
        ensures
            captured@ == self.captured_model(model@, form@),
    {
        let provider = match &form.provider_name {
            Some(name) => match self.model_provider_from_display_name(model.kind, name) {
                Some(provider) => provider,
                None => default_provider(model.kind),
            },
            None => default_provider(model.kind),
        };
        let speech_voice = optional_field(&form.voice);
        let (voice, voice_type) = if provider == ModelProvider::Doubao {
            (None, speech_voice)
        } else {
            (speech_voice, None)
        };
        LlmModelConfig {
            id: model.id.clone(),
            label: form.label.clone(),
            kind: model.kind,
            provider,
            model: form.model.clone(),
            endpoint: optional_field(&form.endpoint),
            api_key: optional_field(&form.api_key),
            voice,
            voice_type,
            local_path: optional_field(&form.local_path),
            use_gpu: form.use_gpu,
            whisper_language: selected_whisper_language(&self.whisper_languages, form.whisper_row),
            advanced: self.capture_advanced(&form.advanced),
        }
    }

    /// Fills the form with `model`, or empties it for a kind of model.
    pub fn show_model(&self, kind: ModelKind, model: Option<&LlmModelConfig>) -> (form:
        ProviderForm)
        requires
            self.well_formed(),
        ensures
            form@ == self.shown_form(
                kind,
                match model {
                    Some(model) => Some(model@),
                    None => None,
                },
            ),
    {
        match model {
            Some(model) => {
                let voice = if model.provider == ModelProvider::Doubao {
                    shown_field(&model.voice_type)
                } else {
                    shown_field(&model.voice)
                };
                ProviderForm {
                    label: model.label.clone(),
                    model: model.model.clone(),
                    endpoint: shown_field(&model.endpoint),
                    api_key: shown_field(&model.api_key),
                    voice,
                    local_path: shown_field(&model.local_path),
                    whisper_row: whisper_language_index(
                        &self.whisper_languages,
                        &model.whisper_language,
                    ),
                    provider_name: Some(self.provider_display_name(model.provider)),
                    use_gpu: model.use_gpu,
                    advanced: self.load_advanced_form(model.advanced),
                }
            },
            None => ProviderForm {
                label: String::new(),
                model: String::new(),
                endpoint: String::new(),
                api_key: String::new(),
                voice: String::new(),
                local_path: String::new(),
                whisper_row: 0,
                provider_name: Some(self.provider_display_name(default_provider(kind))),
                use_gpu: false,
                advanced: self.load_advanced_form(LlmAdvancedOptions::none()),
            },
        }
    }
}

/// Whether an optional value can be told from its field: it is missing, or a text with no
/// white space around it and not empty.
pub open spec fn is_field_value(value: Option<Seq<char>>) -> bool {
    value matches Some(text) ==> text.len() > 0 && trimmed(text) == text
}

/// Whether everything about a model can be told from its form.
pub open spec fn is_form_model(catalog: ProviderCatalog, model: LlmModelView) -> bool {
    &&& catalog.provider_choices(model.kind).contains(model.provider)
    &&& forall|other: ModelProvider|
        catalog.provider_choices(model.kind).contains(other) && #[trigger] catalog.provider_name(
            other,
        ) == catalog.provider_name(model.provider) ==> other == model.provider
    &&& is_field_value(model.endpoint)
    &&& is_field_value(model.api_key)
    &&& is_field_value(model.voice)
    &&& is_field_value(model.voice_type)
    &&& is_field_value(model.local_path)
    &&& (if model.provider == ModelProvider::Doubao {
        model.voice is None
    } else {
        model.voice_type is None
    })
    &&& model.whisper_language matches Some(code) ==> code_views(
        catalog.whisper_languages@,
    ).contains(code)
    &&& model.advanced.reasoning_effort matches Some(level) ==> level is Budget
        || catalog.reasoning_levels@.contains(level)
}

proof fn field_round_trips(value: Option<Seq<char>>)
    requires
        is_field_value(value),
    ensures
        field_value(field_text(value)) == value,
{
    if value is None {
        assert(trimmed(Seq::<char>::empty()).len() == 0);
    }
}

/// Showing a model in the form and reading it back changes nothing.
pub proof fn form_round_trips(catalog: ProviderCatalog, model: LlmModelView)
    requires
        is_form_model(catalog, model),
    ensures
        catalog.captured_model(model, catalog.shown_form(model.kind, Some(model))) == model,
{
    provider_is_found_by_name(catalog, model.kind, model.provider);
    advanced_form_round_trips(catalog, model.advanced);
    whisper_row_stands_for_language(code_views(catalog.whisper_languages@), model.whisper_language);
    field_round_trips(model.endpoint);
    field_round_trips(model.api_key);
    field_round_trips(model.voice);
    field_round_trips(model.voice_type);
    field_round_trips(model.local_path);
}

} // verus!
