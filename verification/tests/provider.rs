use lunamate_ui::settings::llm::{
    LlmAdvancedOptions, LlmModelConfig, LlmProvider, LlmSettings, ModelKind, ModelProvider, Ratio,
    ReasoningEffort,
};
use lunamate_ui::settings::provider::options::{
    default_provider, reasoning_index, reasoning_option_count_for_test, selected_reasoning,
    selected_whisper_language, whisper_language_index, NamedProvider, ProviderCatalog,
};
use lunamate_ui::settings::provider::persistence::{
    FormSwitch, InputEvent, ProviderSettingsDraft, WriteOutcome,
};
use lunamate_ui::settings::provider::render::{
    model_kind_short_label, reasoning_option_names, whisper_language_options, LanguageOption,
    ReasoningOption, VoiceLabel,
};
use lunamate_ui::settings::provider::selection::next_model_id;
use lunamate_ui::settings::provider::view::{
    InputEdit, ProviderAction, ProviderSettingsView, ProviderStatus,
};

fn catalog() -> ProviderCatalog {
    ProviderCatalog {
        chat_providers: vec![
            NamedProvider { provider: LlmProvider::OpenAI, name: "OpenAI".to_string() },
            NamedProvider { provider: LlmProvider::Ollama, name: "Ollama".to_string() },
            NamedProvider { provider: LlmProvider::Other(3), name: "Third".to_string() },
        ],
        doubao_name: "Doubao".to_string(),
        local_whisper_name: "Whisper".to_string(),
        reasoning_levels: vec![
            ReasoningEffort::Off,
            ReasoningEffort::Low,
            ReasoningEffort::High,
        ],
        whisper_languages: vec!["en".to_string(), "zh".to_string()],
        default_reasoning_budget: 1024,
        default_context_tokens: 8192,
        default_max_output_tokens: 2048,
        default_temperature: Ratio { bits: 1.0_f64.to_bits() },
        default_top_p: Ratio { bits: 0.9_f64.to_bits() },
    }
}

fn model(id: &str, kind: ModelKind) -> LlmModelConfig {
    LlmModelConfig {
        id: id.to_string(),
        label: format!("label {id}"),
        kind,
        provider: default_provider(kind),
        model: "m".to_string(),
        endpoint: None,
        api_key: None,
        voice: None,
        voice_type: None,
        local_path: None,
        use_gpu: false,
        whisper_language: None,
        advanced: LlmAdvancedOptions::none(),
    }
}

fn settings() -> LlmSettings {
    LlmSettings {
        models: vec![
            model("c1", ModelKind::ChatCompletions),
            model("s1", ModelKind::Transcription),
            model("c2", ModelKind::ChatCompletions),
            model("t1", ModelKind::SpeechSynthesis),
        ],
        selected_model: Some("c2".to_string()),
        selected_transcription_model: Some("s1".to_string()),
    }
}

fn page() -> ProviderSettingsView {
    ProviderSettingsView::new_with_submitted(settings(), settings(), catalog())
}

#[test]
fn effort_rows_stand_for_efforts() {
    let levels = catalog().reasoning_levels;
    assert_eq!(reasoning_option_count_for_test(levels.len()), 5);
    assert_eq!(reasoning_index(&levels, None), 0);
    assert_eq!(reasoning_index(&levels, Some(ReasoningEffort::Low)), 2);
    assert_eq!(reasoning_index(&levels, Some(ReasoningEffort::Max)), 0);
    assert_eq!(reasoning_index(&levels, Some(ReasoningEffort::Budget(7))), 4);
    assert_eq!(selected_reasoning(&levels, 0, "5", 9), None);
    assert_eq!(selected_reasoning(&levels, 3, "5", 9), Some(ReasoningEffort::High));
    assert_eq!(selected_reasoning(&levels, 4, "5", 9), Some(ReasoningEffort::Budget(5)));
    assert_eq!(selected_reasoning(&levels, 4, "", 9), Some(ReasoningEffort::Budget(9)));
    assert_eq!(selected_reasoning(&levels, 5, "5", 9), None);
    assert_eq!(
        reasoning_option_names(&levels),
        vec![
            ReasoningOption::Auto,
            ReasoningOption::Level(ReasoningEffort::Off),
            ReasoningOption::Level(ReasoningEffort::Low),
            ReasoningOption::Level(ReasoningEffort::High),
            ReasoningOption::Budget,
        ]
    );
}

#[test]
fn language_rows_stand_for_languages() {
    let codes = catalog().whisper_languages;
    assert_eq!(whisper_language_index(&codes, &None), 0);
    assert_eq!(whisper_language_index(&codes, &Some("zh".to_string())), 2);
    assert_eq!(whisper_language_index(&codes, &Some("xx".to_string())), 0);
    assert_eq!(selected_whisper_language(&codes, 0), None);
    assert_eq!(selected_whisper_language(&codes, 1), Some("en".to_string()));
    assert_eq!(selected_whisper_language(&codes, 3), None);
    assert_eq!(
        whisper_language_options(&codes, &vec!["English".to_string(), "Chinese".to_string()]),
        vec![
            LanguageOption::Open,
            LanguageOption::Named("English (en)".to_string()),
            LanguageOption::Named("Chinese (zh)".to_string()),
        ]
    );
}

#[test]
fn providers_are_found_by_name() {
    let catalog = catalog();
    assert_eq!(
        catalog.model_provider_options(ModelKind::Transcription),
        vec![
            ModelProvider::Genai(LlmProvider::OpenAI),
            ModelProvider::Doubao,
            ModelProvider::LocalWhisper,
        ]
    );
    assert_eq!(catalog.provider_display_name(ModelProvider::Doubao), "Doubao");
    assert_eq!(
        catalog.provider_display_name(ModelProvider::Genai(LlmProvider::Other(9))),
        ""
    );
    assert_eq!(
        catalog.model_provider_from_display_name(
            ModelKind::ChatCompletions,
            &"Third".to_string()
        ),
        Some(ModelProvider::Genai(LlmProvider::Other(3)))
    );
    assert_eq!(
        catalog.model_provider_from_display_name(
            ModelKind::ChatCompletions,
            &"Doubao".to_string()
        ),
        None
    );
}

#[test]
fn parameters_are_sent_only_where_they_are_switched_on() {
    let catalog = catalog();
    let form = catalog.load_advanced_form(LlmAdvancedOptions::none());
    assert_eq!(form.context_window_tokens, "8192");
    assert_eq!(form.reasoning_budget, "1024");
    assert!(!form.context_window_tokens_enabled && !form.temperature_enabled);
    assert_eq!(catalog.capture_advanced(&form), LlmAdvancedOptions::none());
    let set = LlmAdvancedOptions {
        context_window_tokens: Some(4096),
        reasoning_effort: Some(ReasoningEffort::Budget(77)),
        max_output_tokens: Some(10),
        temperature: Some(Ratio { bits: 0.5_f64.to_bits() }),
        top_p: None,
    };
    let form = catalog.load_advanced_form(set);
    assert_eq!(form.reasoning_row, 4);
    assert_eq!(form.reasoning_budget, "77");
    assert!(form.max_output_tokens_enabled && !form.top_p_enabled);
    assert_eq!(catalog.capture_advanced(&form), set);
}

#[test]
fn page_opens_with_the_model_in_use() {
    let view = page();
    assert_eq!(view.ui.active_kind, ModelKind::ChatCompletions);
    assert_eq!(view.ui.editing_index, Some(2));
    assert_eq!(view.form.label, "label c2");
    let mut transcription = settings();
    transcription.selected_model = None;
    let view = ProviderSettingsView::new_with_submitted(transcription, settings(), catalog());
    assert_eq!(view.ui.active_kind, ModelKind::Transcription);
    assert_eq!(view.ui.editing_index, Some(1));
}

#[test]
fn untouched_model_form_leaves_the_draft_alone() {
    let mut view = page();
    view.capture_current_form();
    assert!(view.draft.same_as(&settings()));
}

#[test]
fn selecting_a_model_takes_it_into_use() {
    let mut view = page();
    view.form.label = "edited".to_string();
    let actions = view.select_model(0, true);
    assert_eq!(
        actions,
        vec![ProviderAction::FillForm, ProviderAction::Notify, ProviderAction::SaveDraft]
    );
    assert_eq!(view.draft.models[2].label, "edited");
    assert_eq!(view.draft.selected_model, Some("c1".to_string()));
    assert_eq!(view.draft.selected_transcription_model, Some("s1".to_string()));
    view.form_filled();
    assert_eq!(view.select_model(9, true), vec![]);
    view.select_kind(ModelKind::SpeechSynthesis, false);
    view.form_filled();
    view.select_model(3, false);
    assert_eq!(view.draft.selected_model, Some("c1".to_string()));
}

#[test]
fn added_model_gets_a_fresh_identifier() {
    assert_eq!(next_model_id(&settings()), "model-1");
    let mut view = page();
    view.add_model("New".to_string());
    let added = view.draft.models.last().unwrap();
    assert_eq!(added.id, "model-1");
    assert_eq!(added.kind, ModelKind::ChatCompletions);
    assert_eq!(added.provider, ModelProvider::Genai(LlmProvider::Ollama));
    assert_eq!(added.endpoint, Some("http://localhost:11434/".to_string()));
    assert_eq!(view.ui.editing_index, Some(4));
    view.form_filled();
    view.add_model("Newer".to_string());
    assert_eq!(view.draft.models.last().unwrap().id, "model-2");
}

#[test]
fn deleted_model_leaves_its_place_to_a_neighbour_of_its_kind() {
    let mut view = page();
    view.delete_model(true);
    assert_eq!(view.draft.models.len(), 3);
    assert_eq!(view.draft.selected_model, Some("c1".to_string()));
    assert_eq!(view.ui.editing_index, Some(0));
    view.form_filled();
    view.delete_model(true);
    assert_eq!(view.draft.selected_model, None);
    assert_eq!(view.ui.editing_index, None);
    assert_eq!(view.draft.selected_transcription_model, Some("s1".to_string()));
}

#[test]
fn turning_to_a_kind_keeps_edits() {
    let mut view = page();
    view.form.model = "edited".to_string();
    assert_eq!(view.select_kind(ModelKind::ChatCompletions, true), vec![]);
    view.select_kind(ModelKind::Transcription, true);
    assert_eq!(view.draft.models[2].model, "edited");
    assert_eq!(view.ui.editing_index, Some(1));
}

#[test]
fn model_settings_are_handed_in_once() {
    let mut view = page();
    assert!(view.prepare_save());
    assert_eq!(view.submit(Ok(settings())), vec![]);
    let mut changed = settings();
    changed.models[0].label = "x".to_string();
    assert_eq!(
        view.submit(Ok(changed)),
        vec![
            ProviderAction::StartToast { revision: 1 },
            ProviderAction::Notify,
            ProviderAction::WriteSettings { revision: 1 },
        ]
    );
    assert_eq!(view.status, Some(ProviderStatus::Saving));
    view.submit(Err("bad".to_string()));
    assert_eq!(view.status, Some(ProviderStatus::Invalid("bad".to_string())));
    view.load_form(Some(0));
    assert!(!view.prepare_save());
}

#[test]
fn model_writes_are_reported_while_they_are_the_latest() {
    let mut view = page();
    let mut changed = settings();
    changed.models[0].label = "x".to_string();
    view.submit(Ok(changed));
    assert_eq!(
        view.write_finished(9, WriteOutcome::Stored),
        vec![ProviderAction::Saved, ProviderAction::SaveFinished]
    );
    assert_eq!(view.status, Some(ProviderStatus::Saving));
    assert_eq!(
        view.write_finished(1, WriteOutcome::Stored),
        vec![
            ProviderAction::Saved,
            ProviderAction::StartToast { revision: 2 },
            ProviderAction::Notify,
            ProviderAction::SaveFinished,
        ]
    );
    view.write_finished(1, WriteOutcome::Replaced { current: settings() });
    assert_eq!(view.status, Some(ProviderStatus::SaveReplaced));
    assert!(view.submitted.same_as(&settings()));
    view.write_finished(
        1,
        WriteOutcome::Failed { current: settings(), error: "disk".to_string() },
    );
    assert_eq!(view.status, Some(ProviderStatus::SaveFailed("disk".to_string())));
    assert_eq!(view.toast_expired(1), vec![]);
    assert_eq!(view.toast_expired(4), vec![ProviderAction::Notify]);
    assert_eq!(view.status, None);
}

#[test]
fn chosen_model_file_is_taken_while_it_is_wanted() {
    let mut view = page();
    assert_eq!(view.choose_local_model(), vec![ProviderAction::OpenPicker { revision: 1 }]);
    assert_eq!(view.local_model_chosen(1, None), vec![]);
    assert_eq!(view.local_model_chosen(7, Some("p".to_string())), vec![]);
    assert_eq!(
        view.local_model_chosen(1, Some("p".to_string())),
        vec![ProviderAction::FillForm, ProviderAction::SaveDraft]
    );
    assert_eq!(view.form.local_path, "p");
    view.load_form(Some(0));
    assert_eq!(view.local_model_chosen(1, Some("q".to_string())), vec![]);
}

#[test]
fn model_fields_save_when_they_are_left() {
    let mut view = page();
    view.handle_input_event(2, InputEvent::Focus { text: "old".to_string() });
    assert_eq!(
        view.handle_input_event(2, InputEvent::PressEnter),
        vec![ProviderAction::SaveDraft, ProviderAction::Blur]
    );
    assert_eq!(view.handle_input_event(2, InputEvent::Change), vec![]);
    assert_eq!(view.escape_pressed(false), None);
    assert_eq!(
        view.escape_pressed(true),
        Some(InputEdit { field: 2, text: "old".to_string() })
    );
    assert_eq!(view.cancel_input_edit(), None);
    view.handle_input_event(3, InputEvent::Focus { text: "t".to_string() });
    assert_eq!(view.handle_input_event(3, InputEvent::Blur), vec![ProviderAction::SaveDraft]);
    assert!(view.input_edit.is_none());
    assert_eq!(view.choice_changed(), vec![ProviderAction::SaveDraft]);
    view.load_form(Some(0));
    assert_eq!(view.handle_input_event(3, InputEvent::Blur), vec![]);
    assert_eq!(view.choice_changed(), vec![]);
}

#[test]
fn switches_flip_and_save() {
    let mut view = page();
    assert_eq!(view.toggle_switch(FormSwitch::TopP), vec![ProviderAction::SaveDraft]);
    assert!(view.form.advanced.top_p_enabled);
    view.toggle_switch(FormSwitch::UseGpu);
    assert!(view.form.use_gpu);
    view.toggle_switch(FormSwitch::Temperature);
    view.toggle_switch(FormSwitch::MaxOutputTokens);
    view.toggle_switch(FormSwitch::ContextWindowTokens);
    view.capture_current_form();
    let advanced = view.draft.models[2].advanced;
    assert_eq!(advanced.context_window_tokens, Some(8192));
    assert_eq!(advanced.max_output_tokens, Some(2048));
    assert_eq!(advanced.temperature, Some(Ratio { bits: 1.0_f64.to_bits() }));
    assert_eq!(advanced.top_p, Some(Ratio { bits: 0.9_f64.to_bits() }));
    assert_eq!(view.toggle_advanced(), vec![ProviderAction::Notify]);
    assert!(view.editor_scene().advanced.unwrap().expanded);
}

#[test]
fn list_shows_models_of_the_kind_at_hand() {
    let mut view = page();
    view.draft.models[0].model = "  ".to_string();
    let rows = view.provider_rows();
    assert_eq!(rows.len(), 2);
    assert_eq!((rows[0].index, rows[1].index), (0, 2));
    assert_eq!(rows[0].model_name, None);
    assert!(rows[1].editing && rows[1].active && !rows[0].active);
    assert_eq!(view.provider_row_detail(&rows[1], "not set"), "Ollama · m");
    assert_eq!(view.provider_row_detail(&rows[0], "not set"), "Ollama · not set");
    assert_eq!(model_kind_short_label(ModelKind::ChatCompletions), "Chat");
    assert_eq!(model_kind_short_label(ModelKind::SpeechSynthesis), "TTS");
    assert_eq!(model_kind_short_label(ModelKind::Transcription), "STT");
}

#[test]
fn other_spelling_of_a_path_is_not_stored() {
    let spelled = |path: &str| {
        let mut settings = settings();
        settings.models[1].local_path = Some(path.to_string());
        settings
    };
    let mut view = ProviderSettingsView::new_with_submitted(
        spelled("models/whisper.bin"),
        spelled("models/whisper.bin"),
        catalog(),
    );
    assert_eq!(view.submit(Ok(spelled("models//./whisper.bin"))), vec![]);
    assert_eq!(view.submitted.models[1].local_path, Some("models/whisper.bin".to_string()));
    assert_eq!(view.submit(Ok(spelled("./models/whisper.bin"))).len(), 3);
}

#[test]
fn fields_depend_on_kind_and_provider() {
    let mut view = page();
    let scene = view.editor_scene();
    assert!(scene.remote_fields && !scene.local_fields);
    assert_eq!(scene.voice_field, None);
    view.select_kind(ModelKind::Transcription, false);
    view.form.provider_name = Some("Whisper".to_string());
    let scene = view.editor_scene();
    assert!(scene.local_fields && !scene.remote_fields && scene.advanced.is_none());
    view.form_filled();
    view.select_kind(ModelKind::SpeechSynthesis, false);
    assert_eq!(view.editor_scene().voice_field, Some(VoiceLabel::Voice));
    view.form.provider_name = Some("Doubao".to_string());
    assert_eq!(view.editor_scene().voice_field, Some(VoiceLabel::VoiceType));
    view.form.label = "  ".to_string();
    assert_eq!(view.editor_scene().title, None);
}

#[test]
fn model_draft_outlives_its_window() {
    let draft = ProviderSettingsDraft::current(settings());
    let mut view =
        ProviderSettingsView::new_with_submitted(draft.settings, settings(), catalog());
    view.form.label = "edited".to_string();
    assert_eq!(
        view.begin_transfer(),
        vec![ProviderAction::SaveDraft, ProviderAction::TransferWindow]
    );
    view.prepare_save();
    let handed_on = view.take_window_state();
    assert_eq!(handed_on.settings.models[2].label, "edited");
    assert!(handed_on.settings.same_as(&view.draft));
}
