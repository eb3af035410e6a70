//! What the choices on the page stand for.

use vstd::prelude::*;

use crate::number_text::{
    decimal, decimal_text, parse_u32, parsed_u32, shown_number_is_read_back,
};
use crate::search::{first_position, first_position_is_first};
use crate::settings::llm::{
    LlmAdvancedOptions, LlmProvider, ModelKind, ModelProvider, Ratio, ReasoningEffort,
};
use crate::text::optional_view;

verus! {

/// A provider of chat models with its name on the page.
#[derive(Debug)]
pub struct NamedProvider {
    pub provider: LlmProvider,
    pub name: String,
}

/// What can be chosen on the page, and what is suggested.
#[derive(Debug)]
pub struct ProviderCatalog {
    pub chat_providers: Vec<NamedProvider>,
    pub doubao_name: String,
    pub local_whisper_name: String,
    pub reasoning_levels: Vec<ReasoningEffort>,
    pub whisper_languages: Vec<String>,
    pub default_reasoning_budget: u32,
    pub default_context_tokens: u32,
    pub default_max_output_tokens: u32,
    pub default_temperature: Ratio,
    pub default_top_p: Ratio,
}

/// The row that leaves the effort to the provider.
pub const REASONING_AUTO_INDEX: usize = 0;

/// The row of an effort: the first leaves it to the provider, the last is a token budget,
/// and the levels stand between.
pub open spec fn reasoning_row(levels: Seq<ReasoningEffort>, effort: Option<ReasoningEffort>) -> int {
    match effort {
        None => 0,
        Some(ReasoningEffort::Budget(_)) => levels.len() as int + 1,
        Some(effort) => match first_position(levels, 0, |level: ReasoningEffort| level == effort) {
            Some(index) => index + 1,
            None => 0,
        },
    }
}

/// The effort that a row stands for; the budget row takes its number from the field.
pub open spec fn reasoning_choice(
    levels: Seq<ReasoningEffort>,
    row: int,
    budget: Option<u32>,
    default_budget: u32,
) -> Option<ReasoningEffort> {
    if row == 0 {
        None
    } else if row == levels.len() + 1 {
        Some(
            ReasoningEffort::Budget(
                match budget {
                    Some(budget) => budget,
                    None => default_budget,
                },
            ),
        )
    } else if 1 <= row <= levels.len() {
        Some(levels[row - 1])
    } else {
        None
    }
}

/// Returns the number of rows for the effort, given the number of levels.
pub fn reasoning_option_count_for_test(levels: usize) -> (count: usize)
    requires
        levels <= usize::MAX - 2,
    ensures
        count == levels + 2,
{
    levels + 2
}

/// Returns the row of an effort.
pub fn reasoning_index(levels: &Vec<ReasoningEffort>, effort: Option<ReasoningEffort>) -> (row: usize)
    requires
        levels@.len() < usize::MAX,
    ensures
        row == reasoning_row(levels@, effort),
{
    let Some(wanted) = effort else {
        return REASONING_AUTO_INDEX;
    };
    if let ReasoningEffort::Budget(_) = wanted {
        return levels.len() + 1;
    }
    let ghost is_wanted = |level: ReasoningEffort| level == wanted;
    let mut index: usize = 0;
    while index < levels.len()
        invariant
            index <= levels.len() < usize::MAX,
            effort == Some(wanted),
            !(wanted is Budget),
            is_wanted == (|level: ReasoningEffort| level == wanted),
            first_position(levels@, 0, is_wanted) == first_position(
                levels@,
                index as int,
                is_wanted,
            ),
        decreases levels.len() - index,
    {
        if levels[index] == wanted {
            return index + 1;
        }
        index = index + 1;
    }
    REASONING_AUTO_INDEX
}

/// Returns the effort that a row stands for.
pub fn selected_reasoning(
    levels: &Vec<ReasoningEffort>,
    row: usize,
    budget_text: &str,
    default_budget: u32,
) -> (effort: Option<ReasoningEffort>)
    requires
        levels@.len() < usize::MAX,
    ensures
        effort == reasoning_choice(levels@, row as int, parsed_u32(budget_text@), default_budget),
{
    if row == REASONING_AUTO_INDEX {
        return None;
    }
    if row == levels.len() + 1 {
        let budget: u32 = match parse_u32(budget_text) {
            Some(budget) => budget,
            None => default_budget,
        };
        return Some(ReasoningEffort::Budget(budget));
    }
    if row - 1 < levels.len() {
        Some(levels[row - 1])
    } else {
        None
    }
}

/// The texts of a list of language codes.
pub open spec fn code_views(codes: Seq<String>) -> Seq<Seq<char>> {
    Seq::new(codes.len(), |i: int| codes[i]@)
}

/// Whether a language code is the given one.
pub open spec fn is_code(wanted: Seq<char>) -> spec_fn(Seq<char>) -> bool {
    |code: Seq<char>| code == wanted
}

/// The row of a spoken language: the first leaves it open.
pub open spec fn whisper_row(codes: Seq<Seq<char>>, language: Option<Seq<char>>) -> int {
    match language {
        None => 0,
        Some(language) => match first_position(codes, 0, is_code(language)) {
            Some(index) => index + 1,
            None => 0,
        },
    }
}

/// The spoken language that a row stands for.
pub open spec fn whisper_choice(codes: Seq<Seq<char>>, row: int) -> Option<Seq<char>> {
    if 1 <= row <= codes.len() {
        Some(codes[row - 1])
    } else {
        None
    }
}

/// Returns the row of a spoken language.
pub fn whisper_language_index(codes: &Vec<String>, language: &Option<String>) -> (row: usize)
    requires
        codes@.len() < usize::MAX,
    ensures
        row == whisper_row(code_views(codes@), optional_view(*language)),
{
    let Some(wanted) = language else {
        return 0;
    };
    let ghost is_wanted = is_code(wanted@);
    let mut index: usize = 0;
    while index < codes.len()
        invariant
            index <= codes.len() < usize::MAX,
            *language == Some(*wanted),
            is_wanted == is_code(wanted@),
            first_position(code_views(codes@), 0, is_wanted) == first_position(
                code_views(codes@),
                index as int,
                is_wanted,
            ),
        decreases codes.len() - index,
    {
        proof {
            assert(code_views(codes@)[index as int] == codes@[index as int]@);
        }
        if codes[index] == *wanted {
            return index + 1;
        }
        index = index + 1;
    }
    0
}

/// Returns the spoken language that a row stands for.
pub fn selected_whisper_language(codes: &Vec<String>, row: usize) -> (language: Option<String>)
    ensures
        optional_view(language) == whisper_choice(code_views(codes@), row as int),
{
    if row >= 1 && row - 1 < codes.len() {
        Some(codes[row - 1].clone())
    } else {
        None
    }
}

impl ProviderCatalog {
    /// Whether the rows of every choice can be counted.
    pub open spec fn well_formed(self) -> bool {
        &&& self.chat_providers@.len() < usize::MAX
        &&& self.reasoning_levels@.len() < usize::MAX
        &&& self.whisper_languages@.len() < usize::MAX
    }

    /// The providers on offer for a kind of model.
    pub open spec fn provider_choices(self, kind: ModelKind) -> Seq<ModelProvider> {
        match kind {
            ModelKind::ChatCompletions => Seq::new(
                self.chat_providers@.len(),
                |i: int| ModelProvider::Genai(self.chat_providers@[i].provider),
            ),
            ModelKind::SpeechSynthesis => seq![
                ModelProvider::Genai(LlmProvider::OpenAI),
                ModelProvider::Doubao,
            ],
            ModelKind::Transcription => seq![
                ModelProvider::Genai(LlmProvider::OpenAI),
                ModelProvider::Doubao,
                ModelProvider::LocalWhisper,
            ],
        }
    }

    /// The name of a provider on the page; nothing for one that the page does not know.
    pub open spec fn provider_name(self, provider: ModelProvider) -> Seq<char> {
        match provider {
            ModelProvider::Genai(wanted) => match first_position(
                self.chat_providers@,
                0,
                |entry: NamedProvider| entry.provider == wanted,
            ) {
                Some(index) => self.chat_providers@[index].name@,
                None => Seq::empty(),
            },
            ModelProvider::Doubao => self.doubao_name@,
            ModelProvider::LocalWhisper => self.local_whisper_name@,
        }
    }

    /// The provider on offer that goes by a name, the first one if there are more.
    pub open spec fn provider_by_name(self, kind: ModelKind, name: Seq<char>) -> Option<
        ModelProvider,
    > {
        match first_position(
            self.provider_choices(kind),
            0,
            |provider: ModelProvider| self.provider_name(provider) == name,
        ) {
            Some(index) => Some(self.provider_choices(kind)[index]),
            None => None,
        }
    }

    /// Returns the providers on offer for a kind of model.
    pub fn model_provider_options(&self, kind: ModelKind) -> (options: Vec<ModelProvider>)
        ensures
            options@ == self.provider_choices(kind),
    {
        match kind {
            ModelKind::ChatCompletions => {
                let mut options: Vec<ModelProvider> = Vec::new();
                let mut index: usize = 0;
                while index < self.chat_providers.len()
                    invariant
                        index <= self.chat_providers.len(),
                        options@ == self.provider_choices(ModelKind::ChatCompletions).take(
                            index as int,
                        ),
                    decreases self.chat_providers.len() - index,
                {
                    options.push(ModelProvider::Genai(self.chat_providers[index].provider));
                    index = index + 1;
                }
                options
            },
            ModelKind::SpeechSynthesis => vec![
                ModelProvider::Genai(LlmProvider::OpenAI),
                ModelProvider::Doubao,
            ],
            ModelKind::Transcription => vec![
                ModelProvider::Genai(LlmProvider::OpenAI),
                ModelProvider::Doubao,
                ModelProvider::LocalWhisper,
            ],
        }
    }

    /// Returns the name of a provider on the page.
    pub fn provider_display_name(&self, provider: ModelProvider) -> (name: String)
        ensures
            name@ == self.provider_name(provider),
    {
        match provider {
            ModelProvider::Genai(wanted) => self.chat_provider_name(wanted),
            ModelProvider::Doubao => self.doubao_name.clone(),
            ModelProvider::LocalWhisper => self.local_whisper_name.clone(),
        }
    }

    fn chat_provider_name(&self, wanted: LlmProvider) -> (name: String)
        ensures
            name@ == self.provider_name(ModelProvider::Genai(wanted)),
    {
        let ghost is_wanted = |entry: NamedProvider| entry.provider == wanted;
        let mut index: usize = 0;
        while index < self.chat_providers.len()
            invariant
                index <= self.chat_providers.len(),
                is_wanted == (|entry: NamedProvider| entry.provider == wanted),
                first_position(self.chat_providers@, 0, is_wanted) == first_position(
                    self.chat_providers@,
                    index as int,
                    is_wanted,
                ),
            decreases self.chat_providers.len() - index,
        {
            if self.chat_providers[index].provider == wanted {
                return self.chat_providers[index].name.clone();
            }
            index = index + 1;
        }
        String::new()
    }

    /// Returns the provider on offer that goes by a name.
    pub fn model_provider_from_display_name(&self, kind: ModelKind, name: &String) -> (provider:
        Option<ModelProvider>)
        ensures
            provider == self.provider_by_name(kind, name@),
    {
        let options = self.model_provider_options(kind);
        let ghost is_wanted = |provider: ModelProvider| self.provider_name(provider) == name@;
        let mut index: usize = 0;
        while index < options.len()
            invariant
                index <= options.len(),
                options@ == self.provider_choices(kind),
                is_wanted == (|provider: ModelProvider| self.provider_name(provider) == name@),
                first_position(options@, 0, is_wanted) == first_position(
                    options@,
                    index as int,
                    is_wanted,
                ),
            decreases options.len() - index,
        {
            if self.provider_display_name(options[index]) == *name {
                return Some(options[index]);
            }
            index = index + 1;
        }
        None
    }

    /// The parameters as the fields show them, where each has its suggested value if it is
    /// not set.
    pub open spec fn shown_advanced(self, advanced: LlmAdvancedOptions) -> AdvancedFormView {
        AdvancedFormView {
            reasoning_row: reasoning_row(self.reasoning_levels@, advanced.reasoning_effort),
            reasoning_budget: decimal_text(
                match advanced.reasoning_effort {
                    Some(ReasoningEffort::Budget(budget)) => budget,
                    _ => self.default_reasoning_budget,
                } as nat,
            ),
            context_window_tokens: decimal_text(
                match advanced.context_window_tokens {
                    Some(tokens) => tokens,
                    None => self.default_context_tokens,
                } as nat,
            ),
            max_output_tokens: decimal_text(
                match advanced.max_output_tokens {
                    Some(tokens) => tokens,
                    None => self.default_max_output_tokens,
                } as nat,
            ),
            temperature: Some(
                match advanced.temperature {
                    Some(ratio) => ratio,
                    None => self.default_temperature,
                },
            ),
            top_p: Some(
                match advanced.top_p {
                    Some(ratio) => ratio,
                    None => self.default_top_p,
                },
            ),
            context_window_tokens_enabled: advanced.context_window_tokens is Some,
            max_output_tokens_enabled: advanced.max_output_tokens is Some,
            temperature_enabled: advanced.temperature is Some,
            top_p_enabled: advanced.top_p is Some,
        }
    }

    /// The parameters that the fields set. A field that is switched off sets nothing: what
    /// stands in it is only a suggestion.
    pub open spec fn captured_advanced(self, form: AdvancedFormView) -> LlmAdvancedOptions {
        LlmAdvancedOptions {
            context_window_tokens: if form.context_window_tokens_enabled {
                parsed_u32(form.context_window_tokens)
            } else {
                None
            },
            reasoning_effort: reasoning_choice(
                self.reasoning_levels@,
                form.reasoning_row,
                parsed_u32(form.reasoning_budget),
                self.default_reasoning_budget,
            ),
            max_output_tokens: if form.max_output_tokens_enabled {
                parsed_u32(form.max_output_tokens)
            } else {
                None
            },
            temperature: if form.temperature_enabled {
                form.temperature
            } else {
                None
            },
            top_p: if form.top_p_enabled {
                form.top_p
            } else {
                None
            },
        }
    }

    /// Reads the parameters off the fields.
    pub fn capture_advanced(&self, form: &AdvancedForm) -> (advanced: LlmAdvancedOptions)
        requires
            self.well_formed(),
        ensures
            advanced == self.captured_advanced(form@),
    {
        LlmAdvancedOptions {
            context_window_tokens: if form.context_window_tokens_enabled {
                parse_u32(form.context_window_tokens.as_str())
            } else {
                None
            },
            reasoning_effort: selected_reasoning(
                &self.reasoning_levels,
                form.reasoning_row,
                form.reasoning_budget.as_str(),
                self.default_reasoning_budget,
            ),
            max_output_tokens: if form.max_output_tokens_enabled {
                parse_u32(form.max_output_tokens.as_str())
            } else {
                None
            },
            temperature: if form.temperature_enabled {
                form.temperature
            } else {
                None
            },
            top_p: if form.top_p_enabled {
                form.top_p
            } else {
                None
            },
        }
    }

    /// Fills the fields with parameters.
    pub fn load_advanced_form(&self, advanced: LlmAdvancedOptions) -> (form: AdvancedForm)
        requires
            self.well_formed(),
        ensures
            form@ == self.shown_advanced(advanced),
    {
        let budget: u32 = match advanced.reasoning_effort {
            Some(ReasoningEffort::Budget(budget)) => budget,
            _ => self.default_reasoning_budget,
        };
        let context: u32 = match advanced.context_window_tokens {
            Some(tokens) => tokens,
            None => self.default_context_tokens,
        };
        let output: u32 = match advanced.max_output_tokens {
            Some(tokens) => tokens,
            None => self.default_max_output_tokens,
        };
        AdvancedForm {
            reasoning_row: reasoning_index(&self.reasoning_levels, advanced.reasoning_effort),
            reasoning_budget: decimal(budget as u64),
            context_window_tokens: decimal(context as u64),
            max_output_tokens: decimal(output as u64),
            temperature: Some(
                match advanced.temperature {
                    Some(ratio) => ratio,
                    None => self.default_temperature,
                },
            ),
            top_p: Some(
                match advanced.top_p {
                    Some(ratio) => ratio,
                    None => self.default_top_p,
                },
            ),
            context_window_tokens_enabled: advanced.context_window_tokens.is_some(),
            max_output_tokens_enabled: advanced.max_output_tokens.is_some(),
            temperature_enabled: advanced.temperature.is_some(),
            top_p_enabled: advanced.top_p.is_some(),
        }
    }
}

/// The fields for the parameters of a model. A ratio is missing where its field holds no
/// number.
#[derive(Debug)]
pub struct AdvancedForm {
    pub reasoning_row: usize,
    pub reasoning_budget: String,
    pub context_window_tokens: String,
    pub max_output_tokens: String,
    pub temperature: Option<Ratio>,
    pub top_p: Option<Ratio>,
    pub context_window_tokens_enabled: bool,
    pub max_output_tokens_enabled: bool,
    pub temperature_enabled: bool,
    pub top_p_enabled: bool,
}

/// The fields for the parameters of a model, in their texts.
#[verifier::ext_equal]
pub struct AdvancedFormView {
    pub reasoning_row: int,
    pub reasoning_budget: Seq<char>,
    pub context_window_tokens: Seq<char>,
    pub max_output_tokens: Seq<char>,
    pub temperature: Option<Ratio>,
    pub top_p: Option<Ratio>,
    pub context_window_tokens_enabled: bool,
    pub max_output_tokens_enabled: bool,
    pub temperature_enabled: bool,
    pub top_p_enabled: bool,
}

impl View for AdvancedForm {
    type V = AdvancedFormView;

    open spec fn view(&self) -> AdvancedFormView {
        AdvancedFormView {
            reasoning_row: self.reasoning_row as int,
            reasoning_budget: self.reasoning_budget@,
            context_window_tokens: self.context_window_tokens@,
            max_output_tokens: self.max_output_tokens@,
            temperature: self.temperature,
            top_p: self.top_p,
            context_window_tokens_enabled: self.context_window_tokens_enabled,
            max_output_tokens_enabled: self.max_output_tokens_enabled,
            temperature_enabled: self.temperature_enabled,
            top_p_enabled: self.top_p_enabled,
        }
    }
}

/// The provider of a model that has none yet.
pub open spec fn first_provider(kind: ModelKind) -> ModelProvider {
    match kind {
        ModelKind::ChatCompletions => ModelProvider::Genai(LlmProvider::Ollama),
        ModelKind::SpeechSynthesis => ModelProvider::Genai(LlmProvider::OpenAI),
        ModelKind::Transcription => ModelProvider::Genai(LlmProvider::OpenAI),
    }
}

/// Returns the provider of a model that has none yet.
pub fn default_provider(kind: ModelKind) -> (provider: ModelProvider)
    ensures
        provider == first_provider(kind),
{
    match kind {
        ModelKind::ChatCompletions => ModelProvider::Genai(LlmProvider::Ollama),
        ModelKind::SpeechSynthesis => ModelProvider::Genai(LlmProvider::OpenAI),
        ModelKind::Transcription => ModelProvider::Genai(LlmProvider::OpenAI),
    }
}

/// An effort that is shown is chosen again: the row of an effort on offer stands for it.
pub proof fn reasoning_row_stands_for_effort(
    levels: Seq<ReasoningEffort>,
    effort: Option<ReasoningEffort>,
    default_budget: u32,
)
    requires
        effort matches Some(level) ==> level is Budget || levels.contains(level),
    ensures
        reasoning_choice(
            levels,
            reasoning_row(levels, effort),
            match effort {
                Some(ReasoningEffort::Budget(budget)) => Some(budget),
                _ => None,
            },
            default_budget,
        ) == effort,
{
    if let Some(level) = effort {
        if !(level is Budget) {
            let is_level = |candidate: ReasoningEffort| candidate == level;
            first_position_is_first(levels, 0, is_level);
            let witness = choose|i: int| 0 <= i < levels.len() && levels[i] == level;
            assert(is_level(levels[witness]));
        }
    }
}

/// A language on offer that is shown is chosen again.
pub proof fn whisper_row_stands_for_language(codes: Seq<Seq<char>>, language: Option<Seq<char>>)
    requires
        language matches Some(code) ==> codes.contains(code),
    ensures
        whisper_choice(codes, whisper_row(codes, language)) == language,
{
    if let Some(code) = language {
        first_position_is_first(codes, 0, is_code(code));
        let witness = choose|i: int| 0 <= i < codes.len() && codes[i] == code;
        assert(is_code(code)(codes[witness]));
    }
}

/// Parameters that are shown and read again are the same, as long as the effort is one on
/// offer.
pub proof fn advanced_form_round_trips(catalog: ProviderCatalog, advanced: LlmAdvancedOptions)
    requires
        advanced.reasoning_effort matches Some(level) ==> level is Budget
            || catalog.reasoning_levels@.contains(level),
    ensures
        catalog.captured_advanced(catalog.shown_advanced(advanced)) == advanced,
{
    let shown = catalog.shown_advanced(advanced);
    reasoning_row_stands_for_effort(
        catalog.reasoning_levels@,
        advanced.reasoning_effort,
        catalog.default_reasoning_budget,
    );
    let budget: u32 = match advanced.reasoning_effort {
        Some(ReasoningEffort::Budget(budget)) => budget,
        _ => catalog.default_reasoning_budget,
    };
    shown_number_is_read_back(budget);
    if let Some(level) = advanced.reasoning_effort {
        if !(level is Budget) {
            let is_level = |candidate: ReasoningEffort| candidate == level;
            first_position_is_first(catalog.reasoning_levels@, 0, is_level);
        }
    }
    if let Some(tokens) = advanced.context_window_tokens {
        shown_number_is_read_back(tokens);
    }
    if let Some(tokens) = advanced.max_output_tokens {
        shown_number_is_read_back(tokens);
    }
}

/// A provider on offer is found by its name, as long as no other one on offer has the same.
pub proof fn provider_is_found_by_name(
    catalog: ProviderCatalog,
    kind: ModelKind,
    provider: ModelProvider,
)
    requires
        catalog.provider_choices(kind).contains(provider),
        forall|other: ModelProvider|
            catalog.provider_choices(kind).contains(other) && #[trigger] catalog.provider_name(
                other,
            ) == catalog.provider_name(provider) ==> other == provider,
    ensures
        catalog.provider_by_name(kind, catalog.provider_name(provider)) == Some(provider),
{
    let name = catalog.provider_name(provider);
    let choices = catalog.provider_choices(kind);
    let is_wanted = |candidate: ModelProvider| catalog.provider_name(candidate) == name;
    first_position_is_first(choices, 0, is_wanted);
    let witness = choose|i: int| 0 <= i < choices.len() && choices[i] == provider;
    assert(is_wanted(choices[witness]));
}

} // verus!
