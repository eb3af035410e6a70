//! What the settings hold, told in terms of what they are made of.

use vstd::prelude::*;

use crate::path::spell_same_path;
use crate::search::first_position_is_first;
use crate::settings::llm::{
    LlmModelConfig, LlmModelView, LlmSettings, LlmSettingsView, ModelKind,
};
use crate::settings::persona::config::{
    PersonaConfig, PersonaSettings, PersonaSettingsData, PersonaView,
};

verus! {

/// Whether an optional text is seen as it is.
pub open spec fn seen_as_it_is(seen: Option<Seq<char>>, text: Option<String>) -> bool {
    match text {
        Some(text) => seen == Some(text@),
        None => seen is None,
    }
}

/// A model is seen with each of its settings under its own name.
pub proof fn model_is_seen_as_it_is(model: LlmModelConfig)
    ensures
        model@.id == model.id@,
        model@.label == model.label@,
        model@.kind == model.kind,
        model@.provider == model.provider,
        model@.model == model.model@,
        seen_as_it_is(model@.endpoint, model.endpoint),
        seen_as_it_is(model@.api_key, model.api_key),
        seen_as_it_is(model@.voice, model.voice),
        seen_as_it_is(model@.voice_type, model.voice_type),
        seen_as_it_is(model@.local_path, model.local_path),
        model@.use_gpu == model.use_gpu,
        seen_as_it_is(model@.whisper_language, model.whisper_language),
        model@.advanced == model.advanced,
{
}

/// Models are seen one by one in their order, and so is which of them are in use.
pub proof fn models_are_seen_as_they_are(settings: LlmSettings)
    ensures
        settings@.models.len() == settings.models@.len(),
        forall|i: int|
            0 <= i < settings.models@.len() ==> #[trigger] settings@.models[i]
                == settings.models@[i]@,
        seen_as_it_is(settings@.selected_model, settings.selected_model),
        seen_as_it_is(
            settings@.selected_transcription_model,
            settings.selected_transcription_model,
        ),
{
}

/// A persona is seen with each of its settings under its own name.
pub proof fn persona_is_seen_as_it_is(persona: PersonaConfig)
    ensures
        persona@.id == persona.id@,
        persona@.name == persona.name@,
        persona@.system_prompt == persona.system_prompt@,
        persona@.input_prompt == persona.input_prompt@,
        seen_as_it_is(persona@.model, persona.model),
        seen_as_it_is(persona@.tts_model, persona.tts_model),
        seen_as_it_is(persona@.live2d_model, persona.live2d_model),
        persona@.context == persona.context,
{
}

/// Personas are seen one by one in their order, and so are the one in use and those that wait
/// to be forgotten.
pub proof fn personas_are_seen_as_they_are(settings: PersonaSettings)
    ensures
        settings@.personas.len() == settings.personas@.len(),
        forall|i: int|
            0 <= i < settings.personas@.len() ==> #[trigger] settings@.personas[i]
                == settings.personas@[i]@,
        seen_as_it_is(settings@.selected, settings.selected),
        settings@.pending_deletions.len() == settings.pending_deletions@.len(),
        forall|i: int|
            0 <= i < settings.pending_deletions@.len()
                ==> #[trigger] settings@.pending_deletions[i] == settings.pending_deletions@[i]@,
{
}

/// A model is found under its identifier wherever it is, and only there.
pub proof fn model_is_found_by_identifier(settings: LlmSettingsView, id: Seq<char>)
    ensures
        settings.position_of(id) matches Some(index) ==> {
            &&& 0 <= index < settings.models.len()
            &&& settings.models[index].id == id
            &&& forall|i: int| 0 <= i < index ==> (#[trigger] settings.models[i]).id != id
        },
        settings.position_of(id) is None ==> forall|i: int|
            0 <= i < settings.models.len() ==> (#[trigger] settings.models[i]).id != id,
{
    first_position_is_first(settings.models, 0, |model: LlmModelView| model.id == id);
}

/// The model in use for a kind is the one chosen for that kind, and of that kind; speech
/// models are not in use in general.
pub proof fn model_in_use_is_of_its_kind(settings: LlmSettingsView, kind: ModelKind)
    ensures
        settings.selected_id(ModelKind::ChatCompletions) == settings.selected_model,
        settings.selected_id(ModelKind::Transcription) == settings.selected_transcription_model,
        settings.selected_id(ModelKind::SpeechSynthesis) is None,
        settings.selected_position(kind) matches Some(index) ==> {
            &&& 0 <= index < settings.models.len()
            &&& Some(settings.models[index].id) == settings.selected_id(kind)
            &&& settings.models[index].kind == kind
            &&& forall|i: int|
                0 <= i < index && (#[trigger] settings.models[i]).kind == kind ==> Some(
                    settings.models[i].id,
                ) != settings.selected_id(kind)
        },
        settings.selected_position(kind) is None ==> forall|i: int|
            0 <= i < settings.models.len() && (#[trigger] settings.models[i]).kind == kind ==> Some(
                settings.models[i].id,
            ) != settings.selected_id(kind),
{
    if let Some(id) = settings.selected_id(kind) {
        first_position_is_first(
            settings.models,
            0,
            |model: LlmModelView| model.id == id && model.kind == kind,
        );
    }
}

/// Editing starts at the model in use, or else at the first of the kind; there is none to
/// edit only where there is none of the kind.
pub proof fn editing_starts_within_the_kind(settings: LlmSettingsView, kind: ModelKind)
    ensures
        settings.position_of_kind(kind) matches Some(index) ==> {
            &&& 0 <= index < settings.models.len()
            &&& settings.models[index].kind == kind
            &&& forall|i: int| 0 <= i < index ==> (#[trigger] settings.models[i]).kind != kind
        },
        settings.position_of_kind(kind) is None ==> forall|i: int|
            0 <= i < settings.models.len() ==> (#[trigger] settings.models[i]).kind != kind,
        settings.selected_position(kind) is Some ==> settings.editing_position(kind)
            == settings.selected_position(kind),
        settings.selected_position(kind) is None ==> settings.editing_position(kind)
            == settings.position_of_kind(kind),
{
    first_position_is_first(settings.models, 0, |model: LlmModelView| model.kind == kind);
}

/// Two models are alike if they agree in everything, a path being the same however it is
/// spelled.
pub proof fn models_are_alike_in_everything(one: LlmModelView, other: LlmModelView)
    ensures
        one.alike(other) <==> {
            &&& one.id == other.id
            &&& one.label == other.label
            &&& one.kind == other.kind
            &&& one.provider == other.provider
            &&& one.model == other.model
            &&& one.endpoint == other.endpoint
            &&& one.api_key == other.api_key
            &&& one.voice == other.voice
            &&& one.voice_type == other.voice_type
            &&& one.use_gpu == other.use_gpu
            &&& one.whisper_language == other.whisper_language
            &&& one.advanced == other.advanced
            &&& (one.local_path is None <==> other.local_path is None)
            &&& (one.local_path matches Some(left) ==> (other.local_path matches Some(right)
                ==> spell_same_path(left, right)))
        },
{
}

/// Two sets of models are alike if they hold alike models in the same order and use the same
/// ones.
pub proof fn settings_are_alike_in_everything(one: LlmSettingsView, other: LlmSettingsView)
    ensures
        one.alike(other) ==> one.models.len() == other.models.len() && one.selected_model
            == other.selected_model && one.selected_transcription_model
            == other.selected_transcription_model,
        one.alike(other) ==> forall|i: int|
            0 <= i < one.models.len() ==> (#[trigger] one.models[i]).alike(other.models[i]),
        one == other ==> one.alike(other),
        one.alike(other) && (forall|i: int|
            0 <= i < one.models.len() ==> (#[trigger] one.models[i]).local_path
                == other.models[i].local_path) ==> one == other,
{
    if one.alike(other) && (forall|i: int|
        0 <= i < one.models.len() ==> (#[trigger] one.models[i]).local_path
            == other.models[i].local_path) {
        assert forall|i: int| 0 <= i < one.models.len() implies one.models[i]
            == other.models[i] by {
            assert(one.models[i].alike(other.models[i]));
        }
        assert(one.models =~= other.models);
    }
}

/// Two personas are alike if they agree in everything, a path being the same however it is
/// spelled.
pub proof fn personas_are_alike_in_everything(one: PersonaView, other: PersonaView)
    ensures
        one.alike(other) <==> {
            &&& one.id == other.id
            &&& one.name == other.name
            &&& one.system_prompt == other.system_prompt
            &&& one.input_prompt == other.input_prompt
            &&& one.model == other.model
            &&& one.tts_model == other.tts_model
            &&& one.context == other.context
            &&& (one.live2d_model is None <==> other.live2d_model is None)
            &&& (one.live2d_model matches Some(left) ==> (other.live2d_model matches Some(right)
                ==> spell_same_path(left, right)))
        },
{
}

/// Two sets of personas are alike if they hold alike personas in the same order, use the same
/// one and have the same ones to forget.
pub proof fn persona_settings_are_alike_in_everything(
    one: PersonaSettingsData,
    other: PersonaSettingsData,
)
    ensures
        one.alike(other) ==> one.personas.len() == other.personas.len() && one.selected
            == other.selected && one.pending_deletions == other.pending_deletions,
        one.alike(other) ==> forall|i: int|
            0 <= i < one.personas.len() ==> (#[trigger] one.personas[i]).alike(other.personas[i]),
        one == other ==> one.alike(other),
        one.alike(other) && (forall|i: int|
            0 <= i < one.personas.len() ==> (#[trigger] one.personas[i]).live2d_model
                == other.personas[i].live2d_model) ==> one == other,
{
    if one.alike(other) && (forall|i: int|
        0 <= i < one.personas.len() ==> (#[trigger] one.personas[i]).live2d_model
            == other.personas[i].live2d_model) {
        assert forall|i: int| 0 <= i < one.personas.len() implies one.personas[i]
            == other.personas[i] by {
            assert(one.personas[i].alike(other.personas[i]));
        }
        assert(one.personas =~= other.personas);
    }
}

} // verus!
