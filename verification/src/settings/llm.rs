//! The models that the companion can talk to, listen with and speak through.

use vstd::prelude::*;

use crate::path::{same_optional_path, spell_same_optional_path};
use crate::search::first_position;
use crate::text::{clone_optional, optional_view, same_optional};

verus! {

/// What a model is for.
#[derive(Debug, Clone, Copy, PartialEq, Eq, Structural)]
pub enum ModelKind {
    ChatCompletions,
    SpeechSynthesis,
    Transcription,
}

/// A provider of chat models. Those without a role of their own in these settings are
/// known by number.
#[derive(Debug, Clone, Copy, PartialEq, Eq, Structural)]
pub enum LlmProvider {
    OpenAI,
    Ollama,
    Other(u32),
}

/// Who runs a model.
#[derive(Debug, Clone, Copy, PartialEq, Eq, Structural)]
pub enum ModelProvider {
    Genai(LlmProvider),
    Doubao,
    LocalWhisper,
}

/// How hard a model is asked to think.
#[derive(Debug, Clone, Copy, PartialEq, Eq, Structural)]
pub enum ReasoningEffort {
    Off,
    Minimal,
    Low,
    Medium,
    High,
    XHigh,
    Max,
    /// As many tokens as this.
    Budget(u32),
}

/// A sampling ratio, held by its bit pattern. Equal ratios have equal patterns.
#[derive(Debug, Clone, Copy, PartialEq, Eq, Structural)]
pub struct Ratio {
    pub bits: u64,
}

/// Parameters that are sent along only where they are set.
#[derive(Debug, Clone, Copy, PartialEq, Eq, Structural)]
pub struct LlmAdvancedOptions {
    pub context_window_tokens: Option<u32>,
    pub reasoning_effort: Option<ReasoningEffort>,
    pub max_output_tokens: Option<u32>,
    pub temperature: Option<Ratio>,
    pub top_p: Option<Ratio>,
}

/// Parameters of which none is set.
pub open spec fn no_advanced_options() -> LlmAdvancedOptions {
    LlmAdvancedOptions {
        context_window_tokens: None,
        reasoning_effort: None,
        max_output_tokens: None,
        temperature: None,
        top_p: None,
    }
}

impl LlmAdvancedOptions {
    /// Returns parameters of which none is set.
    pub fn none() -> (options: Self)
        ensures
            options == no_advanced_options(),
    {
        LlmAdvancedOptions {
            context_window_tokens: None,
            reasoning_effort: None,
            max_output_tokens: None,
            temperature: None,
            top_p: None,
        }
    }
}

/// A configured model.
#[derive(Debug)]
pub struct LlmModelConfig {
    pub id: String,
    pub label: String,
    pub kind: ModelKind,
    pub provider: ModelProvider,
    /// The name that the provider knows the model by.
    pub model: String,
    pub endpoint: Option<String>,
    pub api_key: Option<String>,
    pub voice: Option<String>,
    pub voice_type: Option<String>,
    /// Where a local model lies; more than one text may spell it.
    pub local_path: Option<String>,
    pub use_gpu: bool,
    pub whisper_language: Option<String>,
    pub advanced: LlmAdvancedOptions,
}

/// A configured model, in its texts.
#[verifier::ext_equal]
pub struct LlmModelView {
    pub id: Seq<char>,
    pub label: Seq<char>,
    pub kind: ModelKind,
    pub provider: ModelProvider,
    pub model: Seq<char>,
    pub endpoint: Option<Seq<char>>,
    pub api_key: Option<Seq<char>>,
    pub voice: Option<Seq<char>>,
    pub voice_type: Option<Seq<char>>,
    pub local_path: Option<Seq<char>>,
    pub use_gpu: bool,
    pub whisper_language: Option<Seq<char>>,
    pub advanced: LlmAdvancedOptions,
}

impl View for LlmModelConfig {
    type V = LlmModelView;

    open spec fn view(&self) -> LlmModelView {
        LlmModelView {
            id: self.id@,
            label: self.label@,
            kind: self.kind,
            provider: self.provider,
            model: self.model@,
            endpoint: optional_view(self.endpoint),
            api_key: optional_view(self.api_key),
            voice: optional_view(self.voice),
            voice_type: optional_view(self.voice_type),
            local_path: optional_view(self.local_path),
            use_gpu: self.use_gpu,
            whisper_language: optional_view(self.whisper_language),
            advanced: self.advanced,
        }
    }
}

impl Clone for LlmModelConfig {
    fn clone(&self) -> (copy: Self)
        ensures
            copy == *self,
    {
        LlmModelConfig {
            id: self.id.clone(),
            label: self.label.clone(),
            kind: self.kind,
            provider: self.provider,
            model: self.model.clone(),
            endpoint: clone_optional(&self.endpoint),
            api_key: clone_optional(&self.api_key),
            voice: clone_optional(&self.voice),
            voice_type: clone_optional(&self.voice_type),
            local_path: clone_optional(&self.local_path),
            use_gpu: self.use_gpu,
            whisper_language: clone_optional(&self.whisper_language),
            advanced: self.advanced,
        }
    }
}

impl LlmModelConfig {
    /// Tells whether two models are configured alike.
    pub fn same_as(&self, other: &LlmModelConfig) -> (same: bool)
        ensures
            same == self@.alike(other@),
    {
        self.id == other.id && self.label == other.label && self.kind == other.kind && self.provider
            == other.provider && self.model == other.model && same_optional(
            &self.endpoint,
            &other.endpoint,
        ) && same_optional(&self.api_key, &other.api_key) && same_optional(
            &self.voice,
            &other.voice,
        ) && same_optional(&self.voice_type, &other.voice_type) && same_optional_path(
            &self.local_path,
            &other.local_path,
        ) && self.use_gpu == other.use_gpu && same_optional(
            &self.whisper_language,
            &other.whisper_language,
        ) && self.advanced == other.advanced
    }
}

impl LlmModelView {
    /// Whether two models are configured alike. The path of a local one may be spelled in
    /// more ways than one.
    pub open spec fn alike(self, other: LlmModelView) -> bool {
        &&& spell_same_optional_path(self.local_path, other.local_path)
        &&& (LlmModelView { local_path: other.local_path, ..self }) == other
    }
}

/// The texts of a list of models.
pub open spec fn model_views(models: Seq<LlmModelConfig>) -> Seq<LlmModelView> {
    Seq::new(models.len(), |i: int| models[i]@)
}

/// All configured models, and which of them are in use.
#[derive(Debug)]
pub struct LlmSettings {
    pub models: Vec<LlmModelConfig>,
    pub selected_model: Option<String>,
    pub selected_transcription_model: Option<String>,
}

/// All configured models, in their texts.
#[verifier::ext_equal]
pub struct LlmSettingsView {
    pub models: Seq<LlmModelView>,
    pub selected_model: Option<Seq<char>>,
    pub selected_transcription_model: Option<Seq<char>>,
}

impl LlmSettingsView {
    /// Whether two sets of models are configured alike.
    pub open spec fn alike(self, other: LlmSettingsView) -> bool {
        &&& self.models.len() == other.models.len()
        &&& forall|i: int|
            0 <= i < self.models.len() ==> (#[trigger] self.models[i]).alike(other.models[i])
        &&& self.selected_model == other.selected_model
        &&& self.selected_transcription_model == other.selected_transcription_model
    }
}

impl View for LlmSettings {
    type V = LlmSettingsView;

    open spec fn view(&self) -> LlmSettingsView {
        LlmSettingsView {
            models: model_views(self.models@),
            selected_model: optional_view(self.selected_model),
            selected_transcription_model: optional_view(self.selected_transcription_model),
        }
    }
}

impl LlmSettingsView {
    /// Where the model with the given identifier is.
    pub open spec fn position_of(self, id: Seq<char>) -> Option<int> {
        first_position(self.models, 0, |model: LlmModelView| model.id == id)
    }

    /// Where the first model of a kind is.
    pub open spec fn position_of_kind(self, kind: ModelKind) -> Option<int> {
        first_position(self.models, 0, |model: LlmModelView| model.kind == kind)
    }

    /// The identifier of the model in use for a kind. Speech models are chosen by persona.
    pub open spec fn selected_id(self, kind: ModelKind) -> Option<Seq<char>> {
        match kind {
            ModelKind::ChatCompletions => self.selected_model,
            ModelKind::Transcription => self.selected_transcription_model,
            ModelKind::SpeechSynthesis => None,
        }
    }

    /// Where the model in use for a kind is, if it is of that kind.
    pub open spec fn selected_position(self, kind: ModelKind) -> Option<int> {
        match self.selected_id(kind) {
            Some(id) => first_position(
                self.models,
                0,
                |model: LlmModelView| model.id == id && model.kind == kind,
            ),
            None => None,
        }
    }

    /// Where editing starts for a kind: at the model in use, or else at the first.
    pub open spec fn editing_position(self, kind: ModelKind) -> Option<int> {
        match self.selected_position(kind) {
            Some(index) => Some(index),
            None => self.position_of_kind(kind),
        }
    }
}

impl LlmSettings {
    /// Returns where the model with the given identifier is.
    pub fn model_index(&self, id: &String) -> (index: Option<usize>)
        ensures
            match index {
                Some(index) => self@.position_of(id@) == Some(index as int) && index
                    < self.models@.len(),
                None => self@.position_of(id@) is None,
            },
    {
        let ghost wanted = |model: LlmModelView| model.id == id@;
        let mut index: usize = 0;
        while index < self.models.len()
            invariant
                index <= self.models.len(),
                wanted == (|model: LlmModelView| model.id == id@),
                first_position(self@.models, 0, wanted) == first_position(
                    self@.models,
                    index as int,
                    wanted,
                ),
            decreases self.models.len() - index,
        {
            proof {
                assert(self@.models[index as int] == self.models@[index as int]@);
            }
            if self.models[index].id == *id {
                return Some(index);
            }
            index = index + 1;
        }
        None
    }

    /// Returns where the first model of a kind is.
    pub fn kind_index(&self, kind: ModelKind) -> (index: Option<usize>)
        ensures
            match index {
                Some(index) => self@.position_of_kind(kind) == Some(index as int) && index
                    < self.models@.len(),
                None => self@.position_of_kind(kind) is None,
            },
    {
        let ghost wanted = |model: LlmModelView| model.kind == kind;
        let mut index: usize = 0;
        while index < self.models.len()
            invariant
                index <= self.models.len(),
                wanted == (|model: LlmModelView| model.kind == kind),
                first_position(self@.models, 0, wanted) == first_position(
                    self@.models,
                    index as int,
                    wanted,
                ),
            decreases self.models.len() - index,
        {
            proof {
                assert(self@.models[index as int] == self.models@[index as int]@);
            }
            if self.models[index].kind == kind {
                return Some(index);
            }
            index = index + 1;
        }
        None
    }

    /// Returns the identifier of the model in use for a kind.
    pub fn selected_model_id(&self, kind: ModelKind) -> (id: Option<String>)
        ensures
            optional_view(id) == self@.selected_id(kind),
    {
        match kind {
            ModelKind::ChatCompletions => clone_optional(&self.selected_model),
            ModelKind::Transcription => clone_optional(&self.selected_transcription_model),
            ModelKind::SpeechSynthesis => None,
        }
    }

    fn selected_index(&self, kind: ModelKind) -> (index: Option<usize>)
        ensures
            match index {
                Some(index) => self@.selected_position(kind) == Some(index as int) && index
                    < self.models@.len(),
                None => self@.selected_position(kind) is None,
            },
    {
        let Some(id) = self.selected_model_id(kind) else {
            return None;
        };
        let ghost wanted = |model: LlmModelView| model.id == id@ && model.kind == kind;
        let mut index: usize = 0;
        while index < self.models.len()
            invariant
                index <= self.models.len(),
                self@.selected_id(kind) == Some(id@),
                wanted == (|model: LlmModelView| model.id == id@ && model.kind == kind),
                first_position(self@.models, 0, wanted) == first_position(
                    self@.models,
                    index as int,
                    wanted,
                ),
            decreases self.models.len() - index,
        {
            proof {
                assert(self@.models[index as int] == self.models@[index as int]@);
            }
            if self.models[index].id == id && self.models[index].kind == kind {
                return Some(index);
            }
            index = index + 1;
        }
        None
    }

    /// Returns where editing starts for a kind: at the model in use, or else at the first.
    pub fn editing_index(&self, kind: ModelKind) -> (index: Option<usize>)
        ensures
            match index {
                Some(index) => self@.editing_position(kind) == Some(index as int) && index
                    < self.models@.len(),
                None => self@.editing_position(kind) is None,
            },
    {
        match self.selected_index(kind) {
            Some(index) => Some(index),
            None => self.kind_index(kind),
        }
    }

    /// Tells whether two sets of models are configured alike.
    pub fn same_as(&self, other: &LlmSettings) -> (same: bool)
        ensures
            same == self@.alike(other@),
    {
        if self.models.len() != other.models.len() {
            proof {
                assert(self@.models.len() != other@.models.len());
            }
            return false;
        }
        let mut index: usize = 0;
        while index < self.models.len()
            invariant
                index <= self.models.len(),
                self.models.len() == other.models.len(),
                forall|i: int|
                    0 <= i < index ==> (#[trigger] self@.models[i]).alike(other@.models[i]),
            decreases self.models.len() - index,
        {
            proof {
                assert(self@.models[index as int] == self.models@[index as int]@);
                assert(other@.models[index as int] == other.models@[index as int]@);
            }
            if !self.models[index].same_as(&other.models[index]) {
                return false;
            }
            index = index + 1;
        }
        same_optional(&self.selected_model, &other.selected_model) && same_optional(
            &self.selected_transcription_model,
            &other.selected_transcription_model,
        )
    }

    /// Copies the settings.
    pub fn copy(&self) -> (copy: LlmSettings)
        ensures
            copy@ == self@,
    {
        let mut models: Vec<LlmModelConfig> = Vec::new();
        let mut index: usize = 0;
        while index < self.models.len()
            invariant
                index <= self.models.len(),
                models@ == self.models@.take(index as int),
            decreases self.models.len() - index,
        {
            models.push(self.models[index].clone());
            index = index + 1;
        }
        proof {
            assert(models@ =~= self.models@);
        }
        LlmSettings {
            models,
            selected_model: clone_optional(&self.selected_model),
            selected_transcription_model: clone_optional(&self.selected_transcription_model),
        }
    }
}

} // verus!
