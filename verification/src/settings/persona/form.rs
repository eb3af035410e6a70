//! The form in which a persona is edited.

use vstd::prelude::*;

use crate::number_text::{decimal, decimal_text, parse_u32, parsed_u32, shown_number_is_read_back};
use crate::settings::llm::{LlmSettings, LlmSettingsView, ModelKind};
use crate::settings::persona::config::{PersonaConfig, PersonaContextLimits, PersonaView};
use crate::settings::persona::options::{
    live2d_choice, live2d_labels, live2d_missing, live2d_option_state, live2d_paths, live2d_row,
    live2d_row_stands_for_model, model_choice, model_choices, model_option_id, model_option_index,
    model_row, model_row_stands_for_model, selected_live2d_model, Live2dModelOption,
};
use crate::text::optional_view;

verus! {

/// The Live2D models on offer, and the bound one that is no longer among them.
#[derive(Debug)]
pub struct Live2dChoices {
    pub models: Vec<Live2dModelOption>,
    pub missing: Option<String>,
}

/// The Live2D models on offer, as they are shown and where they lie, and the bound one that
/// is not among them.
#[verifier::ext_equal]
pub struct Live2dChoicesView {
    pub labels: Seq<Seq<char>>,
    pub paths: Seq<Seq<char>>,
    pub missing: Option<Seq<char>>,
}

impl View for Live2dChoices {
    type V = Live2dChoicesView;

    open spec fn view(&self) -> Live2dChoicesView {
        Live2dChoicesView {
            labels: live2d_labels(self.models@),
            paths: live2d_paths(self.models@),
            missing: optional_view(self.missing),
        }
    }
}

/// The fields of the form. A row is a position in a list, the first of which binds nothing.
#[derive(Debug)]
pub struct PersonaForm {
    pub name: String,
    pub system_prompt: String,
    pub input_prompt: String,
    pub provider_row: usize,
    pub tts_row: usize,
    pub live2d_row: usize,
    pub context_messages: String,
    pub context_tokens: String,
}

/// The fields of the form, in their texts.
#[verifier::ext_equal]
pub struct PersonaFormView {
    pub name: Seq<char>,
    pub system_prompt: Seq<char>,
    pub input_prompt: Seq<char>,
    pub provider_row: int,
    pub tts_row: int,
    pub live2d_row: int,
    pub context_messages: Seq<char>,
    pub context_tokens: Seq<char>,
}

impl View for PersonaForm {
    type V = PersonaFormView;

    open spec fn view(&self) -> PersonaFormView {
        PersonaFormView {
            name: self.name@,
            system_prompt: self.system_prompt@,
            input_prompt: self.input_prompt@,
            provider_row: self.provider_row as int,
            tts_row: self.tts_row as int,
            live2d_row: self.live2d_row as int,
            context_messages: self.context_messages@,
            context_tokens: self.context_tokens@,
        }
    }
}

/// How a limit is shown: as a number, or not at all.
pub open spec fn limit_text(limit: Option<u32>) -> Seq<char> {
    match limit {
        Some(value) => decimal_text(value as nat),
        None => Seq::empty(),
    }
}

fn show_limit(limit: Option<u32>) -> (text: String)
    ensures
        text@ == limit_text(limit),
{
    match limit {
        Some(value) => decimal(value as u64),
        None => {
            let text = String::new();
            proof {
                assert(text@ =~= Seq::<char>::empty());
            }
            text
        },
    }
}

impl PersonaFormView {
    /// The limits that the form asks for.
    pub open spec fn limits(self) -> PersonaContextLimits {
        PersonaContextLimits {
            max_messages: parsed_u32(self.context_messages),
            max_tokens: parsed_u32(self.context_tokens),
        }
    }

    /// The persona with what the form holds.
    pub open spec fn captured(
        self,
        persona: PersonaView,
        providers: LlmSettingsView,
        live2d: Live2dChoicesView,
    ) -> PersonaView {
        PersonaView {
            id: persona.id,
            name: self.name,
            system_prompt: self.system_prompt,
            input_prompt: self.input_prompt,
            model: model_choice(providers, ModelKind::ChatCompletions, self.provider_row),
            tts_model: model_choice(providers, ModelKind::SpeechSynthesis, self.tts_row),
            live2d_model: live2d_choice(live2d.paths, live2d.missing, self.live2d_row),
            context: self.limits(),
        }
    }

    /// The form that shows a persona, or nothing.
    pub open spec fn showing(
        persona: Option<PersonaView>,
        providers: LlmSettingsView,
        paths: Seq<Seq<char>>,
    ) -> PersonaFormView {
        match persona {
            Some(persona) => PersonaFormView {
                name: persona.name,
                system_prompt: persona.system_prompt,
                input_prompt: persona.input_prompt,
                provider_row: model_row(providers, ModelKind::ChatCompletions, persona.model),
                tts_row: model_row(providers, ModelKind::SpeechSynthesis, persona.tts_model),
                live2d_row: live2d_row(paths, persona.live2d_model),
                context_messages: limit_text(persona.context.max_messages),
                context_tokens: limit_text(persona.context.max_tokens),
            },
            None => PersonaFormView {
                name: Seq::empty(),
                system_prompt: Seq::empty(),
                input_prompt: Seq::empty(),
                provider_row: 0,
                tts_row: 0,
                live2d_row: 0,
                context_messages: Seq::empty(),
                context_tokens: Seq::empty(),
            },
        }
    }
}

/// The bound Live2D model of a persona that is no longer on offer.
pub open spec fn missing_model(persona: Option<PersonaView>, paths: Seq<Seq<char>>) -> Option<
    Seq<char>,
> {
    match persona {
        Some(persona) => live2d_missing(paths, persona.live2d_model),
        None => None,
    }
}

impl PersonaForm {
    /// Reads the limits that the form asks for.
    pub fn capture_context_limits(&self) -> (limits: PersonaContextLimits)
        ensures
            limits == self@.limits(),
    {
        PersonaContextLimits {
            max_messages: parse_u32(self.context_messages.as_str()),
            max_tokens: parse_u32(self.context_tokens.as_str()),
        }
    }

    /// Writes what the form holds into a persona.
    pub fn capture(
        &self,
        persona: &PersonaConfig,
        providers: &LlmSettings,
        live2d: &Live2dChoices,
    ) -> (captured: PersonaConfig)
        ensures
            captured@ == self@.captured(persona@, providers@, live2d@),
    {
        PersonaConfig {
            id: persona.id.clone(),
            name: self.name.clone(),
            system_prompt: self.system_prompt.clone(),
            input_prompt: self.input_prompt.clone(),
            model: model_option_id(providers, ModelKind::ChatCompletions, self.provider_row),
            tts_model: model_option_id(providers, ModelKind::SpeechSynthesis, self.tts_row),
            live2d_model: selected_live2d_model(&live2d.models, &live2d.missing, self.live2d_row),
            context: self.capture_context_limits(),
        }
    }

    /// Returns the form that shows a persona, or nothing, and the bound Live2D model that is
    /// no longer on offer.
    pub fn show(
        persona: Option<&PersonaConfig>,
        providers: &LlmSettings,
        models: &Vec<Live2dModelOption>,
    ) -> (shown: (PersonaForm, Option<String>))
        requires
            providers.models@.len() < usize::MAX,
            models@.len() < usize::MAX,
        ensures
            shown.0@ == PersonaFormView::showing(
                match persona {
                    Some(persona) => Some(persona@),
                    None => None,
                },
                providers@,
                live2d_paths(models@),
            ),
            optional_view(shown.1) == missing_model(
                match persona {
                    Some(persona) => Some(persona@),
                    None => None,
                },
                live2d_paths(models@),
            ),
    {
        match persona {
            Some(persona) => {
                let (live2d_row, missing) = live2d_option_state(models, &persona.live2d_model);
                let form = PersonaForm {
                    name: persona.name.clone(),
                    system_prompt: persona.system_prompt.clone(),
                    input_prompt: persona.input_prompt.clone(),
                    provider_row: model_option_index(
                        providers,
                        ModelKind::ChatCompletions,
                        &persona.model,
                    ),
                    tts_row: model_option_index(
                        providers,
                        ModelKind::SpeechSynthesis,
                        &persona.tts_model,
                    ),
                    live2d_row,
                    context_messages: show_limit(persona.context.max_messages),
                    context_tokens: show_limit(persona.context.max_tokens),
                };
                (form, missing)
            },
            None => {
                let form = PersonaForm {
                    name: String::new(),
                    system_prompt: String::new(),
                    input_prompt: String::new(),
                    provider_row: 0,
                    tts_row: 0,
                    live2d_row: 0,
                    context_messages: String::new(),
                    context_tokens: String::new(),
                };
                proof {
                    assert(form@ =~= PersonaFormView::showing(
                        None,
                        providers@,
                        live2d_paths(models@),
                    ));
                }
                (form, None)
            },
        }
    }
}

/// A limit that is shown is read back, and one that is not set stays so.
pub proof fn shown_limit_is_read_back(limit: Option<u32>)
    ensures
        parsed_u32(limit_text(limit)) == limit,
{
    if let Some(value) = limit {
        shown_number_is_read_back(value);
    }
}

/// Whether a model is not bound or is on offer.
pub open spec fn on_offer(providers: LlmSettingsView, kind: ModelKind, bound: Option<Seq<char>>) -> bool {
    bound matches Some(id) ==> exists|i: int|
        0 <= i < model_choices(providers, kind).len() && (#[trigger] model_choices(
            providers,
            kind,
        )[i]).id == id
}

/// Reading the form of a persona gives the persona back, provided the models that it is bound
/// to are on offer. Its Live2D model need not be; if it is, its path comes back as it is
/// spelled in the offer.
pub proof fn persona_form_round_trips(
    persona: PersonaView,
    providers: LlmSettingsView,
    labels: Seq<Seq<char>>,
    paths: Seq<Seq<char>>,
)
    requires
        on_offer(providers, ModelKind::ChatCompletions, persona.model),
        on_offer(providers, ModelKind::SpeechSynthesis, persona.tts_model),
    ensures
        PersonaFormView::showing(Some(persona), providers, paths).captured(
            persona,
            providers,
            (Live2dChoicesView { labels, paths, missing: missing_model(Some(persona), paths) }),
        ).alike(persona),
{
    model_row_stands_for_model(providers, ModelKind::ChatCompletions, persona.model);
    model_row_stands_for_model(providers, ModelKind::SpeechSynthesis, persona.tts_model);
    live2d_row_stands_for_model(paths, persona.live2d_model);
    shown_limit_is_read_back(persona.context.max_messages);
    shown_limit_is_read_back(persona.context.max_tokens);
}

} // verus!
