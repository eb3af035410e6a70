//! What the page draws.

use vstd::prelude::*;

use crate::number_text::{trim, trimmed};
use crate::settings::llm::{LlmModelView, ModelKind, ModelProvider, ReasoningEffort};
use crate::settings::provider::options::default_provider;
use crate::settings::provider::view::ProviderSettingsView;
use crate::text::optional_view;

verus! {

/// A line of the model list. `model_name` is missing where no name has been entered.
#[derive(Debug, PartialEq, Eq)]
pub struct ProviderRow {
    pub index: usize,
    pub label: String,
    pub provider: ModelProvider,
    pub model_name: Option<String>,
    /// Whether the model is being edited.
    pub editing: bool,
    /// Whether the model is in use.
    pub active: bool,
}

/// A line of the model list, in its texts.
#[verifier::ext_equal]
pub struct ProviderRowView {
    pub index: int,
    pub label: Seq<char>,
    pub provider: ModelProvider,
    pub model_name: Option<Seq<char>>,
    pub editing: bool,
    pub active: bool,
}

impl View for ProviderRow {
    type V = ProviderRowView;

    open spec fn view(&self) -> ProviderRowView {
        ProviderRowView {
            index: self.index as int,
            label: self.label@,
            provider: self.provider,
            model_name: optional_view(self.model_name),
            editing: self.editing,
            active: self.active,
        }
    }
}

/// The texts of a list of lines.
pub open spec fn row_views(rows: Seq<ProviderRow>) -> Seq<ProviderRowView> {
    Seq::new(rows.len(), |i: int| rows[i]@)
}

/// The line of the model at `index`.
pub open spec fn row_of(
    model: LlmModelView,
    index: int,
    editing: Option<usize>,
    active: Option<Seq<char>>,
) -> ProviderRowView {
    ProviderRowView {
        index,
        label: model.label,
        provider: model.provider,
        model_name: if trimmed(model.model).len() == 0 {
            None
        } else {
            Some(model.model)
        },
        editing: editing matches Some(edited) && edited == index,
        active: active == Some(model.id),
    }
}

/// The lines of the models of a kind among the first `count`, in order.
pub open spec fn rows_of(
    models: Seq<LlmModelView>,
    count: int,
    kind: ModelKind,
    editing: Option<usize>,
    active: Option<Seq<char>>,
) -> Seq<ProviderRowView>
    decreases count,
{
    if count <= 0 || count > models.len() {
        Seq::empty()
    } else {
        let before = rows_of(models, count - 1, kind, editing, active);
        if models[count - 1].kind == kind {
            before.push(row_of(models[count - 1], count - 1, editing, active))
        } else {
            before
        }
    }
}

/// What the voice field is called.
#[derive(Debug, Clone, Copy, PartialEq, Eq, Structural)]
pub enum VoiceLabel {
    Voice,
    VoiceType,
}

/// The parts of the editor. A missing title stands for a model that has no name yet.
#[derive(Debug)]
pub struct EditorScene {
    pub provider: Option<ModelProvider>,
    pub title: Option<String>,
    /// Whether the fields for a model that is reached over the network are shown.
    pub remote_fields: bool,
    /// Whether the fields for a model on this machine are shown.
    pub local_fields: bool,
    pub voice_field: Option<VoiceLabel>,
    pub advanced: Option<AdvancedScene>,
}

/// The parts of the parameter section.
#[derive(Debug, Clone, Copy, PartialEq, Eq, Structural)]
pub struct AdvancedScene {
    pub expanded: bool,
    /// Whether a token budget can be entered.
    pub budget_field: bool,
    pub context_window_tokens: bool,
    pub max_output_tokens: bool,
    pub temperature: bool,
    pub top_p: bool,
}

/// The name of a kind of model on its tab.
pub open spec fn kind_tab(kind: ModelKind) -> Seq<char> {
    match kind {
        ModelKind::ChatCompletions => "Chat"@,
        ModelKind::SpeechSynthesis => "TTS"@,
        ModelKind::Transcription => "STT"@,
    }
}

/// Returns the name of a kind of model on its tab.
pub fn model_kind_short_label(kind: ModelKind) -> (label: String)
    ensures
        label@ == kind_tab(kind),
{
    match kind {
        ModelKind::ChatCompletions => "Chat".to_owned(),
        ModelKind::SpeechSynthesis => "TTS".to_owned(),
        ModelKind::Transcription => "STT".to_owned(),
    }
}

/// A row of the effort list.
#[derive(Debug, Clone, Copy, PartialEq, Eq, Structural)]
pub enum ReasoningOption {
    Auto,
    Level(ReasoningEffort),
    Budget,
}

/// The rows of the effort list.
pub open spec fn reasoning_options(levels: Seq<ReasoningEffort>) -> Seq<ReasoningOption> {
    seq![ReasoningOption::Auto] + Seq::new(
        levels.len(),
        |i: int| ReasoningOption::Level(levels[i]),
    ) + seq![ReasoningOption::Budget]
}

/// Returns the rows of the effort list.
pub fn reasoning_option_names(levels: &Vec<ReasoningEffort>) -> (options: Vec<ReasoningOption>)
    ensures
        options@ == reasoning_options(levels@),
{
    let mut options = vec![ReasoningOption::Auto];
    let mut index: usize = 0;
    while index < levels.len()
        invariant
            index <= levels.len(),
            options@ == seq![ReasoningOption::Auto] + Seq::new(
                index as nat,
                |i: int| ReasoningOption::Level(levels@[i]),
            ),
        decreases levels.len() - index,
    {
        options.push(ReasoningOption::Level(levels[index]));
        index = index + 1;
        proof {
            assert(options@ =~= seq![ReasoningOption::Auto] + Seq::new(
                index as nat,
                |i: int| ReasoningOption::Level(levels@[i]),
            ));
        }
    }
    options.push(ReasoningOption::Budget);
    options
}

/// How a language is shown: its name, then its code in brackets.
pub open spec fn language_label(name: Seq<char>, code: Seq<char>) -> Seq<char> {
    name + " ("@ + code + ")"@
}

/// A row of the language list.
#[derive(Debug, PartialEq, Eq)]
pub enum LanguageOption {
    /// The language is left open.
    Open,
    Named(String),
}

/// The characters of a row of the language list, where it names a language.
pub open spec fn language_view(option: LanguageOption) -> Option<Seq<char>> {
    match option {
        LanguageOption::Open => None,
        LanguageOption::Named(label) => Some(label@),
    }
}

/// The number of languages that have both a code and a name.
pub open spec fn language_count(codes: Seq<String>, names: Seq<String>) -> nat {
    if codes.len() <= names.len() {
        codes.len()
    } else {
        names.len()
    }
}

/// Returns the rows of the language list: the first one leaves the language open.
pub fn whisper_language_options(codes: &Vec<String>, names: &Vec<String>) -> (options: Vec<
    LanguageOption,
>)
    ensures
        options@.len() == language_count(codes@, names@) + 1,
        language_view(options@[0]) is None,
        forall|i: int|
            0 < i < options@.len() ==> #[trigger] language_view(options@[i]) == Some(
                language_label(names@[i - 1]@, codes@[i - 1]@),
            ),
{
    let mut options = vec![LanguageOption::Open];
    let mut index: usize = 0;
    while index < codes.len() && index < names.len()
        invariant
            index <= codes.len(),
            index <= names.len(),
            options@.len() == index + 1,
            language_view(options@[0]) is None,
            forall|i: int|
                0 < i <= index ==> #[trigger] language_view(options@[i]) == Some(
                    language_label(names@[i - 1]@, codes@[i - 1]@),
                ),
        decreases codes.len() - index,
    {
        let mut label = names[index].clone();
        label.append(" (");
        label.append(codes[index].as_str());
        label.append(")");
        options.push(LanguageOption::Named(label));
        index = index + 1;
    }
    options
}

impl ProviderSettingsView {
    /// The lines of the model list.
    pub open spec fn list_rows(self) -> Seq<ProviderRowView> {
        rows_of(
            self.draft@.models,
            self.draft@.models.len() as int,
            self.ui.active_kind,
            self.ui.editing_index,
            self.draft@.selected_id(self.ui.active_kind),
        )
    }

    /// Returns the lines of the model list; their number is shown below it.
    pub fn provider_rows(&self) -> (rows: Vec<ProviderRow>)
        ensures
            row_views(rows@) == self.list_rows(),
    {
        let active_id = self.draft.selected_model_id(self.ui.active_kind);
        let mut rows: Vec<ProviderRow> = Vec::new();
        let mut index: usize = 0;
        while index < self.draft.models.len()
            invariant
                index <= self.draft.models.len(),
                optional_view(active_id) == self.draft@.selected_id(self.ui.active_kind),
                row_views(rows@) == rows_of(
                    self.draft@.models,
                    index as int,
                    self.ui.active_kind,
                    self.ui.editing_index,
                    self.draft@.selected_id(self.ui.active_kind),
                ),
            decreases self.draft.models.len() - index,
        {
            let ghost before = row_views(rows@);
            proof {
                assert(self.draft@.models[index as int] == self.draft.models@[index as int]@);
            }
            if self.draft.models[index].kind == self.ui.active_kind {
                let row = self.row_at(index, &active_id);
                rows.push(row);
                proof {
                    assert(row_views(rows@) =~= before.push(row@));
                }
            }
            index = index + 1;
        }
        rows
    }

    /// What stands below the label of a line: the provider, then the model, or `unset` where
    /// the model has no name.
    pub open spec fn row_detail(self, row: ProviderRowView, unset: Seq<char>) -> Seq<char> {
        self.catalog.provider_name(row.provider) + " · "@ + (match row.model_name {
            Some(name) => name,
            None => unset,
        })
    }

    /// Returns what stands below the label of a line of the model list. `unset` is what is
    /// said of a model without a name.
    pub fn provider_row_detail(&self, row: &ProviderRow, unset: &str) -> (text: String)
        ensures
            text@ == self.row_detail(row@, unset@),
    {
        let mut text = self.catalog.provider_display_name(row.provider);
        text.append(" · ");
        match &row.model_name {
            Some(name) => {
                text.append(name.as_str());
            },
            None => {
                text.append(unset);
            },
        }
        text
    }

    fn row_at(&self, index: usize, active_id: &Option<String>) -> (row: ProviderRow)
        requires
            index < self.draft.models@.len(),
        ensures
            row@ == row_of(
                self.draft.models@[index as int]@,
                index as int,
                self.ui.editing_index,
                optional_view(*active_id),
            ),
    {
        let model = &self.draft.models[index];
        let editing = match self.ui.editing_index {
            Some(edited) => edited == index,
            None => false,
        };
        let active = match active_id {
            Some(active) => *active == model.id,
            None => false,
        };
        let blank = trim(model.model.as_str());
        let model_name = if blank.as_str().is_empty() {
            None
        } else {
            Some(model.model.clone())
        };
        ProviderRow {
            index,
            label: model.label.clone(),
            provider: model.provider,
            model_name,
            editing,
            active,
        }
    }

    /// The provider that the editor shows.
    pub open spec fn edited_provider(self) -> Option<ModelProvider> {
        if self.ui.editing_index is Some {
            Some(self.catalog.form_provider(self.ui.active_kind, self.form@.provider_name))
        } else {
            None
        }
    }

    /// The parameter section.
    pub open spec fn advanced_view(self) -> AdvancedScene {
        AdvancedScene {
            expanded: self.ui.advanced_expanded,
            budget_field: self.form@.advanced.reasoning_row == self.catalog.reasoning_levels@.len()
                + 1,
            context_window_tokens: self.form@.advanced.context_window_tokens_enabled,
            max_output_tokens: self.form@.advanced.max_output_tokens_enabled,
            temperature: self.form@.advanced.temperature_enabled,
            top_p: self.form@.advanced.top_p_enabled,
        }
    }

    /// Returns the parts of the editor. Which fields there are depends on the kind of model
    /// and on its provider; without a model there are none.
    pub fn editor_scene(&self) -> (scene: EditorScene)
        requires
            self.well_formed(),
        ensures
            scene.provider == self.edited_provider(),
            optional_view(scene.title) == (if trimmed(self.form@.label).len() == 0 {
                None
            } else {
                Some(trimmed(self.form@.label))
            }),
            scene.local_fields == (self.edited_provider() == Some(ModelProvider::LocalWhisper)),
            scene.remote_fields == (self.edited_provider() is Some && self.edited_provider()
                != Some(ModelProvider::LocalWhisper)),
            scene.voice_field == (if self.edited_provider() is Some && self.ui.active_kind
                == ModelKind::SpeechSynthesis {
                if self.edited_provider() == Some(ModelProvider::Doubao) {
                    Some(VoiceLabel::VoiceType)
                } else {
                    Some(VoiceLabel::Voice)
                }
            } else {
                None
            }),
            scene.advanced == (if self.edited_provider() is Some && self.ui.active_kind
                == ModelKind::ChatCompletions {
                Some(self.advanced_view())
            } else {
                None
            }),
    {
        let title = trim(self.form.label.as_str());
        let title = if title.as_str().is_empty() {
            None
        } else {
            Some(title)
        };
        if self.ui.editing_index.is_none() {
            return EditorScene {
                provider: None,
                title,
                remote_fields: false,
                local_fields: false,
                voice_field: None,
                advanced: None,
            };
        }
        let provider = match &self.form.provider_name {
            Some(name) => match self.catalog.model_provider_from_display_name(
                self.ui.active_kind,
                name,
            ) {
                Some(provider) => provider,
                None => default_provider(self.ui.active_kind),
            },
            None => default_provider(self.ui.active_kind),
        };
        let local = provider == ModelProvider::LocalWhisper;
        let voice_field = if self.ui.active_kind == ModelKind::SpeechSynthesis {
            if provider == ModelProvider::Doubao {
                Some(VoiceLabel::VoiceType)
            } else {
                Some(VoiceLabel::Voice)
            }
        } else {
            None
        };
        let advanced = if self.ui.active_kind == ModelKind::ChatCompletions {
            Some(
                AdvancedScene {
                    expanded: self.ui.advanced_expanded,
                    budget_field: self.form.advanced.reasoning_row
                        == self.catalog.reasoning_levels.len() + 1,
                    context_window_tokens: self.form.advanced.context_window_tokens_enabled,
                    max_output_tokens: self.form.advanced.max_output_tokens_enabled,
                    temperature: self.form.advanced.temperature_enabled,
                    top_p: self.form.advanced.top_p_enabled,
                },
            )
        } else {
            None
        };
        EditorScene {
            provider: Some(provider),
            title,
            remote_fields: !local,
            local_fields: local,
            voice_field,
            advanced,
        }
    }
}

} // verus!
