use lunamate_ui::agent::message::ChatRole;
use lunamate_ui::id_set::TextSet;
use lunamate_ui::settings::llm::{
    LlmAdvancedOptions, LlmModelConfig, LlmProvider, LlmSettings, ModelKind, ModelProvider, Ratio,
};
use lunamate_ui::settings::persona::actions::{
    MemoryScope, PersonaAction, PersonaActions, PersonaPage,
};
use lunamate_ui::settings::persona::config::{
    PersonaConfig, PersonaContextLimits, PersonaSettings,
};
use lunamate_ui::settings::persona::context::{
    context_limit_usage, exceeds_bytes, MessageWeights,
};
use lunamate_ui::settings::persona::memory::{cleanup_end, merge_clear_results, ConfirmPrompt};
use lunamate_ui::settings::persona::options::{
    live2d_option_names, live2d_option_state, model_option_id, model_option_index,
    model_option_names, next_persona_id, selected_live2d_model, Live2dModelOption, Live2dOption,
    ModelOption,
};
use lunamate_ui::settings::persona::pane::ContextMessage;
use lunamate_ui::settings::persona::persistence::{PersonaSettingsDraft, PersonaWriteOutcome};
use lunamate_ui::settings::persona::render::{
    show_stat, EditorContent, PersonaSubtitle,
};
use lunamate_ui::settings::persona::selection::{is_key, read_key, selection_is_additive, PageKey};
use lunamate_ui::settings::persona::view::{
    ContextUsage, PersonaSettingsView, PersonaStatus, UsageError,
};
use lunamate_ui::settings::provider::options::{NamedProvider, ProviderCatalog};
use lunamate_ui::settings::provider::persistence::InputEvent;
use lunamate_ui::settings::provider::view::InputEdit;

fn model(id: &str, kind: ModelKind) -> LlmModelConfig {
    LlmModelConfig {
        id: id.to_string(),
        label: format!("label {id}"),
        kind,
        provider: ModelProvider::Genai(LlmProvider::OpenAI),
        model: "m".to_string(),
        endpoint: None,
        api_key: None,
        voice: None,
        voice_type: None,
        local_path: None,
        use_gpu: false,
        whisper_language: None,
        advanced: LlmAdvancedOptions::none(),
    }
}

fn providers() -> LlmSettings {
    LlmSettings {
        models: vec![
            model("tts-1", ModelKind::SpeechSynthesis),
            model("chat-1", ModelKind::ChatCompletions),
            model("chat-2", ModelKind::ChatCompletions),
        ],
        selected_model: None,
        selected_transcription_model: None,
    }
}

fn persona(id: &str) -> PersonaConfig {
    PersonaConfig {
        id: id.to_string(),
        name: format!("name {id}"),
        system_prompt: "sys".to_string(),
        input_prompt: "in".to_string(),
        model: Some("chat-2".to_string()),
        tts_model: None,
        live2d_model: Some("cat".to_string()),
        context: PersonaContextLimits { max_messages: Some(20), max_tokens: None },
    }
}

fn personas(ids: &[&str], selected: Option<&str>) -> PersonaSettings {
    PersonaSettings {
        personas: ids.iter().map(|id| persona(id)).collect(),
        selected: selected.map(|id| id.to_string()),
        pending_deletions: Vec::new(),
    }
}

fn live2d() -> Vec<Live2dModelOption> {
    vec![
        Live2dModelOption { label: "Dog".to_string(), path: "dog".to_string() },
        Live2dModelOption { label: "Cat".to_string(), path: "cat".to_string() },
    ]
}

fn page(ids: &[&str], selected: Option<&str>) -> PersonaSettingsView {
    let settings = personas(ids, selected);
    let submitted = settings.copy();
    PersonaSettingsView::new_with_snapshots(
        PersonaSettingsDraft::current(settings),
        true,
        providers(),
        submitted,
        live2d(),
    )
}

fn no_weights() -> MessageWeights {
    MessageWeights { tokens: Vec::new(), max_tokens: 100 }
}

fn weights(tokens: &[usize], max_tokens: usize) -> MessageWeights {
    MessageWeights { tokens: tokens.to_vec(), max_tokens }
}

fn message(id: u64, content: &str, tokens: usize) -> ContextMessage {
    ContextMessage {
        id,
        role: ChatRole::Assistant,
        content: content.to_string(),
        tokens,
        fixed_tokens: 1,
    }
}

fn names(actions: &PersonaActions) -> Vec<String> {
    actions.list.iter().map(|action| format!("{action:?}")).collect()
}

fn page_with_messages() -> PersonaSettingsView {
    let mut view = page(&["a", "b"], Some("a"));
    view.open_page(PersonaPage::Context);
    let revision = view.pane.flags.revision;
    view.context_loaded(
        revision,
        Ok(vec![message(1, "one", 10), message(2, "two", 20), message(3, "three", 30)]),
    );
    view
}

#[test]
fn bound_model_is_found_among_its_kind() {
    let settings = providers();
    let chat = ModelKind::ChatCompletions;
    assert_eq!(model_option_index(&settings, chat, &None), 0);
    assert_eq!(model_option_index(&settings, chat, &Some("chat-1".to_string())), 1);
    assert_eq!(model_option_index(&settings, chat, &Some("chat-2".to_string())), 2);
    assert_eq!(model_option_index(&settings, chat, &Some("tts-1".to_string())), 0);
    assert_eq!(
        model_option_index(&settings, ModelKind::SpeechSynthesis, &Some("tts-1".to_string())),
        1
    );
    assert_eq!(model_option_id(&settings, chat, 0), None);
    assert_eq!(model_option_id(&settings, chat, 2), Some("chat-2".to_string()));
    assert_eq!(model_option_id(&settings, chat, 3), None);
}

#[test]
fn model_rows_name_model_and_provider() {
    let catalog = ProviderCatalog {
        chat_providers: vec![NamedProvider {
            provider: LlmProvider::OpenAI,
            name: "OpenAI".to_string(),
        }],
        doubao_name: "Doubao".to_string(),
        local_whisper_name: "Whisper".to_string(),
        reasoning_levels: Vec::new(),
        whisper_languages: Vec::new(),
        default_reasoning_budget: 1,
        default_context_tokens: 1,
        default_max_output_tokens: 1,
        default_temperature: Ratio { bits: 0 },
        default_top_p: Ratio { bits: 0 },
    };
    assert_eq!(
        model_option_names(&providers(), ModelKind::ChatCompletions, &catalog),
        vec![
            ModelOption::Inherit,
            ModelOption::Model("label chat-1 · OpenAI".to_string()),
            ModelOption::Model("label chat-2 · OpenAI".to_string()),
        ]
    );
    assert_eq!(
        model_option_names(&providers(), ModelKind::SpeechSynthesis, &catalog)[0],
        ModelOption::Disabled
    );
}

#[test]
fn missing_live2d_model_keeps_a_row_of_its_own() {
    let models = live2d();
    assert_eq!(live2d_option_state(&models, &None), (0, None));
    assert_eq!(live2d_option_state(&models, &Some("cat".to_string())), (2, None));
    let lost = Some("fox".to_string());
    assert_eq!(live2d_option_state(&models, &lost), (3, lost.clone()));
    assert_eq!(selected_live2d_model(&models, &lost, 3), lost);
    assert_eq!(selected_live2d_model(&models, &lost, 0), None);
    assert_eq!(selected_live2d_model(&models, &lost, 1), Some("dog".to_string()));
    assert_eq!(
        live2d_option_names(&models, &lost),
        vec![
            Live2dOption::Inherit,
            Live2dOption::Model("Dog".to_string()),
            Live2dOption::Model("Cat".to_string()),
            Live2dOption::Missing("fox".to_string()),
        ]
    );
    assert_eq!(live2d_option_names(&models, &None).len(), 3);
}

#[test]
fn live2d_model_is_found_however_its_path_is_spelled() {
    let models = live2d();
    assert_eq!(live2d_option_state(&models, &Some("cat/".to_string())), (2, None));
    assert_eq!(live2d_option_state(&models, &Some("dog//.".to_string())), (1, None));
    let lost = Some("./cat".to_string());
    assert_eq!(live2d_option_state(&models, &lost), (3, lost.clone()));
    let mut settings = personas(&["a"], Some("a"));
    settings.personas[0].live2d_model = Some("cat/.".to_string());
    let submitted = settings.copy();
    let mut view = PersonaSettingsView::new_with_snapshots(
        PersonaSettingsDraft::current(settings),
        true,
        providers(),
        submitted.copy(),
        live2d(),
    );
    assert_eq!((view.form.live2d_row, view.live2d.missing.is_none()), (2, true));
    view.capture_current_form();
    assert_eq!(view.draft.personas[0].live2d_model, Some("cat".to_string()));
    assert!(view.draft.same_as(&submitted));
    let normalized = view.draft.copy();
    let handed_in = view.submit(Ok(normalized), &Vec::new());
    assert_eq!(names(&handed_in), Vec::<String>::new());
    assert!(PersonaSettingsDraft::current(view.draft.copy()).prepare_write(&submitted).is_none());
}

#[test]
fn new_persona_avoids_every_identifier_that_is_held_back() {
    let mut settings = personas(&["persona-1"], None);
    settings.pending_deletions.push("persona-2".to_string());
    let mut reserved = TextSet::new();
    assert_eq!(next_persona_id(&settings, &reserved), "persona-3");
    reserved.insert("persona-3".to_string());
    assert_eq!(next_persona_id(&settings, &reserved), "persona-4");
    assert_eq!(next_persona_id(&personas(&[], None), &TextSet::new()), "persona-1");
}

#[test]
fn page_opens_with_the_persona_in_use() {
    let view = page(&["a", "b"], Some("b"));
    assert_eq!(view.ui.editing_index, Some(1));
    assert_eq!(view.form.name, "name b");
    assert_eq!(view.form.provider_row, 2);
    assert_eq!(view.form.tts_row, 0);
    assert_eq!(view.form.live2d_row, 2);
    assert_eq!(view.form.context_messages, "20");
    assert_eq!(view.form.context_tokens, "");
    assert_eq!(page(&["a"], Some("gone")).ui.editing_index, Some(0));
    assert_eq!(page(&[], None).ui.editing_index, None);
    assert_eq!(page(&[], None).editor_content(), EditorContent::NoPersona);
    assert_eq!(view.editor_content(), EditorContent::Page(PersonaPage::Definition));
}

#[test]
fn untouched_form_leaves_the_persona_alone() {
    let mut view = page(&["a", "b"], Some("a"));
    view.capture_current_form();
    assert!(view.draft.same_as(&personas(&["a", "b"], Some("a"))));
}

#[test]
fn form_is_read_into_the_persona() {
    let mut view = page(&["a"], Some("a"));
    view.form.name = "new".to_string();
    view.form.provider_row = 0;
    view.form.tts_row = 1;
    view.form.live2d_row = 9;
    view.form.context_messages = " 12 ".to_string();
    view.form.context_tokens = "x".to_string();
    view.capture_current_form();
    let captured = &view.draft.personas[0];
    assert_eq!(captured.name, "new");
    assert_eq!(captured.id, "a");
    assert_eq!(captured.model, None);
    assert_eq!(captured.tts_model, Some("tts-1".to_string()));
    assert_eq!(captured.live2d_model, None);
    assert_eq!(
        captured.context,
        PersonaContextLimits { max_messages: Some(12), max_tokens: None }
    );
}

#[test]
fn selecting_a_persona_brings_it_into_use_and_saves() {
    let mut view = page(&["a", "b"], Some("a"));
    let actions = view.select_persona(1, &no_weights());
    assert_eq!(names(&actions), vec!["FillForm", "Notify", "SaveDraft"]);
    assert_eq!(view.draft.selected, Some("b".to_string()));
    assert!(view.ui.loading_form);
    assert!(view.prepare_save(&no_weights()).is_none());
    view.form_filled();
    assert!(view.prepare_save(&no_weights()).is_some());
    assert_eq!(names(&view.select_persona(5, &no_weights())), Vec::<String>::new());
    assert_eq!(view.ui.editing_index, Some(1));
}

#[test]
fn added_persona_is_like_the_blank_but_for_its_identifier() {
    let mut view = page(&["persona-1"], Some("persona-1"));
    let blank = PersonaConfig { id: "ignored".to_string(), ..persona("x") };
    let actions = view.add_persona(blank, &no_weights());
    assert_eq!(names(&actions), vec!["FillForm", "Notify", "SaveDraft"]);
    assert_eq!(view.draft.personas.len(), 2);
    assert_eq!(view.draft.personas[1].id, "persona-2");
    assert_eq!(view.draft.personas[1].name, "name x");
    assert_eq!(view.draft.selected, Some("persona-2".to_string()));
    assert_eq!(view.ui.editing_index, Some(1));
}

#[test]
fn last_persona_cannot_be_deleted() {
    let mut view = page(&["a"], Some("a"));
    view.request_delete_persona(&"gone".to_string());
    assert!(view.confirm_prompt().is_none());
    view.request_delete_persona(&"a".to_string());
    assert_eq!(view.status, Some(PersonaStatus::LastPersona));
    assert!(view.confirm_prompt().is_none());
    view.delete_persona(&"a".to_string(), &no_weights());
    assert_eq!(view.draft.personas.len(), 1);
}

#[test]
fn persona_is_deleted_after_a_second_word_only() {
    let mut view = page(&["a", "b", "c"], Some("b"));
    let actions = view.request_delete_persona(&"b".to_string());
    assert_eq!(names(&actions), vec!["Notify"]);
    assert_eq!(view.draft.personas.len(), 3);
    assert_eq!(
        view.confirm_prompt(),
        Some(ConfirmPrompt::DeletePersona { name: "name b".to_string() })
    );
    view.cancel_confirm();
    assert_eq!(names(&view.accept_confirm(&no_weights())), Vec::<String>::new());
    assert_eq!(view.draft.personas.len(), 3);
    view.request_delete_persona(&"b".to_string());
    let actions = view.accept_confirm(&no_weights());
    assert_eq!(names(&actions), vec!["FillForm", "Notify", "SaveDraft"]);
    assert_eq!(view.draft.personas.len(), 2);
    assert_eq!(view.draft.selected, Some("c".to_string()));
    assert_eq!(view.ui.editing_index, Some(1));
    assert_eq!(view.draft.pending_deletions, vec!["b".to_string()]);
    assert!(view.cleanup.pending.contains(&"b".to_string()));
}

#[test]
fn deleting_the_last_in_the_list_turns_to_the_one_before() {
    let mut view = page(&["a", "b"], Some("b"));
    view.delete_persona(&"b".to_string(), &no_weights());
    assert_eq!(view.draft.selected, Some("a".to_string()));
    assert_eq!(view.ui.editing_index, Some(0));
    let mut other = page(&["a", "b"], Some("b"));
    other.delete_persona(&"a".to_string(), &no_weights());
    assert_eq!(other.draft.selected, Some("b".to_string()));
    assert_eq!(other.ui.editing_index, Some(0));
}

#[test]
fn deleted_identifier_is_not_used_again() {
    let mut view = page(&["persona-1", "persona-2"], Some("persona-1"));
    view.delete_persona(&"persona-2".to_string(), &no_weights());
    view.add_persona(persona("x"), &no_weights());
    assert_eq!(view.draft.selected, Some("persona-3".to_string()));
}

#[test]
fn unchanged_draft_is_not_stored_again() {
    let mut view = page(&["a"], Some("a"));
    let same = view.draft.copy();
    assert_eq!(names(&view.submit(Ok(same), &vec![])), Vec::<String>::new());
    let mut changed = view.draft.copy();
    changed.personas[0].name = "other".to_string();
    let actions = view.submit(Ok(changed.copy()), &vec![]);
    assert_eq!(
        names(&actions),
        vec!["StartToast { revision: 1 }", "Notify", "WriteSettings { revision: 1 }"]
    );
    assert_eq!(view.status, Some(PersonaStatus::Saving));
    assert_eq!(view.ui.writes_in_flight, 1);
    assert_eq!(names(&view.submit(Ok(changed), &vec![])), Vec::<String>::new());
    view.submit(Err("empty name".to_string()), &vec![]);
    assert_eq!(view.status, Some(PersonaStatus::Invalid("empty name".to_string())));
}

#[test]
fn write_outcomes_are_reported_while_they_are_the_latest() {
    let mut view = page(&["a"], Some("a"));
    let mut changed = view.draft.copy();
    changed.personas[0].name = "one".to_string();
    view.submit(Ok(changed.copy()), &vec![]);
    changed.personas[0].name = "two".to_string();
    view.submit(Ok(changed.copy()), &vec![]);
    view.write_finished(
        1,
        PersonaWriteOutcome::Failed { settings: personas(&["a"], None), error: "old".to_string() },
    );
    assert_eq!(view.status, Some(PersonaStatus::Saving));
    assert!(view.submitted.same_as(&changed));
    assert_eq!(names(&view.emit_save_finished_if_idle()), Vec::<String>::new());
    let actions = view.write_finished(
        2,
        PersonaWriteOutcome::Stored { published: vec![], current: vec![] },
    );
    assert_eq!(view.status, Some(PersonaStatus::Saved));
    assert_eq!(actions.list.len(), 5);
    assert_eq!(names(&view.emit_save_finished_if_idle()), vec!["SaveFinished"]);
    let published = personas(&["a"], Some("a"));
    view.write_finished(2, PersonaWriteOutcome::Replaced { settings: published.copy() });
    assert_eq!(view.status, Some(PersonaStatus::SaveReplaced));
    assert!(view.submitted.same_as(&published));
    view.write_finished(
        2,
        PersonaWriteOutcome::Failed { settings: published, error: "disk".to_string() },
    );
    assert_eq!(view.status, Some(PersonaStatus::SaveFailed("disk".to_string())));
}

#[test]
fn deleted_memory_is_cleared_once_its_end_is_published() {
    let mut view = page(&["a", "b"], Some("a"));
    view.delete_persona(&"b".to_string(), &no_weights());
    view.form_filled();
    let draft = view.draft.copy();
    view.submit(Ok(draft), &vec![]);
    assert_eq!(names(&view.retry_pending_persona_cleanup(&vec![])), Vec::<String>::new());
    assert!(view.cleanup.pending.contains(&"b".to_string()));
    let deletions = vec!["b".to_string()];
    let actions = view.write_finished(
        1,
        PersonaWriteOutcome::Stored { published: deletions.clone(), current: deletions },
    );
    assert!(names(&actions).contains(&"ClaimCleanup { persona: \"b\" }".to_string()));
    assert_eq!(names(&view.cleanup_claimed("b".to_string(), false)), Vec::<String>::new());
    let actions = view.cleanup_claimed("b".to_string(), true);
    assert!(matches!(
        &actions.list[0],
        PersonaAction::ClearMemory { scope: MemoryScope::All, cleanup: true, .. }
    ));
    assert!(view.cleanup.in_flight.contains(&"b".to_string()));
    assert_eq!(names(&view.emit_save_finished_if_idle()), Vec::<String>::new());
    let actions = view.memory_cleared(&"b".to_string(), MemoryScope::All, Ok(()));
    assert!(names(&actions).contains(&"SaveDraft".to_string()));
    assert_eq!(view.draft.pending_deletions, Vec::<String>::new());
    assert_eq!(view.status, Some(PersonaStatus::MemoryCleared));
    assert!(view.cleanup.in_flight.is_empty());
}

#[test]
fn closed_window_hands_its_cleanup_on() {
    let mut view = page(&["a", "b"], Some("a"));
    view.delete_persona(&"b".to_string(), &no_weights());
    view.cleanup_claimed("b".to_string(), true);
    assert_eq!(names(&view.begin_transfer()), vec!["SaveDraft", "TransferWindow"]);
    let (draft, retain) = view.take_window_state();
    assert!(retain);
    assert!(draft.reserved_cleanup.contains(&"b".to_string()));
    assert_eq!(draft.settings.pending_deletions, vec!["b".to_string()]);
    let actions = view.memory_cleared(&"b".to_string(), MemoryScope::All, Ok(()));
    assert!(names(&actions).contains(&"CleanupFinished { persona: \"b\" }".to_string()));
    assert!(names(&actions).contains(&"SaveFinished".to_string()));
    assert_eq!(view.draft.pending_deletions, vec!["b".to_string()]);
}

#[test]
fn failed_cleanup_keeps_the_mark() {
    let mut view = page(&["a", "b"], Some("a"));
    view.delete_persona(&"b".to_string(), &no_weights());
    view.cleanup_claimed("b".to_string(), true);
    view.memory_cleared(&"b".to_string(), MemoryScope::All, Err("locked".to_string()));
    assert_eq!(view.status, Some(PersonaStatus::MemoryClearFailed("locked".to_string())));
    assert_eq!(view.draft.pending_deletions, vec!["b".to_string()]);
    assert!(view.cleanup.in_flight.is_empty());
}

#[test]
fn draft_outlives_its_window() {
    let published = personas(&["a"], Some("a"));
    let mut settings = published.copy();
    settings.pending_deletions.push("b".to_string());
    let mut draft = PersonaSettingsDraft::current(settings);
    assert!(draft.prepare_write(&published).is_some());
    assert!(draft.finish_persona_cleanup(&"b".to_string()));
    assert!(!draft.finish_persona_cleanup(&"b".to_string()));
    assert!(draft.prepare_write(&published).is_none());
    assert!(draft.reserved_cleanup.contains(&"b".to_string()));
    draft.persona_cleanup_was_published(&"b".to_string());
    assert!(draft.reserved_cleanup.is_empty());
}

#[test]
fn news_of_other_windows_are_merged() {
    let mut view = page(&["a", "b"], Some("a"));
    view.delete_persona(&"b".to_string(), &no_weights());
    assert_eq!(names(&view.finish_persona_cleanup(&"b".to_string())), vec!["SaveDraft"]);
    assert_eq!(names(&view.finish_persona_cleanup(&"b".to_string())), Vec::<String>::new());
    assert_eq!(names(&view.persona_cleanup_was_published(&"b".to_string())), vec!["Notify"]);
    assert!(view.cleanup.pending.is_empty());
    assert_eq!(names(&view.resume_pending_work()), vec!["SaveDraft"]);
}

#[test]
fn opening_the_conversation_loads_it() {
    let mut view = page(&["a"], Some("a"));
    let actions = view.select_page(PersonaPage::Context, &no_weights());
    assert_eq!(names(&actions), vec!["SaveDraft", "OpenPage { page: Context }"]);
    let actions = view.open_page(PersonaPage::Context);
    assert_eq!(
        names(&actions),
        vec![
            "LoadUsage { revision: 1, persona: \"a\" }",
            "LoadContext { revision: 1, persona: \"a\" }",
            "Notify",
            "WatchContext { revision: 1, persona: Some(\"a\") }",
            "Notify",
        ]
    );
    assert_eq!(
        names(&view.select_page(PersonaPage::Context, &no_weights())),
        Vec::<String>::new()
    );
    assert!(view.context_notices().loading);
    assert!(!view.context_notices().empty);
    assert_eq!(names(&view.context_loaded(9, Ok(vec![]))), Vec::<String>::new());
    view.context_loaded(1, Err("io".to_string()));
    assert_eq!(view.context_notices().error, Some("io".to_string()));
    view.open_page(PersonaPage::Settings);
    assert!(!view.pane.flags.loading);
}

#[test]
fn unavailable_memory_is_reported() {
    let mut view = page(&["a"], Some("a"));
    view.set_memory_available(false);
    assert_eq!(names(&view.refresh_usage()), Vec::<String>::new());
    assert_eq!(view.memory.usage_error, Some(UsageError::MemoryUnavailable));
    view.set_memory_available(true);
    assert_eq!(view.refresh_usage().list.len(), 1);
    let usage = context_limit_usage(8, 100);
    assert_eq!(
        usage,
        ContextUsage { messages: 0, max_messages: 8, tokens: 0, max_tokens: 100 }
    );
    assert_eq!(names(&view.usage_loaded(1, Ok(usage))), Vec::<String>::new());
    view.usage_loaded(2, Ok(usage));
    assert_eq!(view.context_stats(), ("0".to_string(), "0".to_string()));
    view.usage_loaded(2, Err("x".to_string()));
    assert_eq!(view.memory.usage_error, Some(UsageError::Failed("x".to_string())));
    assert_eq!(view.context_stats(), ("-".to_string(), "-".to_string()));
    assert_eq!(show_stat(Some(12)), "12");
}

#[test]
fn running_conversation_is_shown_unless_it_would_disturb() {
    let mut view = page_with_messages();
    let watch = view.pane.flags.auto_refresh_revision;
    assert_eq!(names(&view.watch_started(watch + 1, Some(4))), Vec::<String>::new());
    view.watch_started(watch, Some(4));
    assert_eq!(view.context_polled(watch, Some(4)).list.len(), 1);
    assert_eq!(view.context_polled(watch, None).list.len(), 1);
    view.prepare_context_menu_selection(2);
    assert_eq!(view.context_polled(watch, Some(5)).list.len(), 1);
    assert_eq!(view.pane.flags.observed_live_revision, Some(4));
    view.handle_key_down(PageKey::Escape);
    assert_eq!(view.context_polled(watch, Some(5)).list.len(), 4);
    assert_eq!(view.pane.flags.observed_live_revision, Some(5));
    assert_eq!(names(&view.context_polled(watch + 1, Some(6))), Vec::<String>::new());
}

#[test]
fn edited_message_is_committed_when_its_field_is_left() {
    let mut view = page_with_messages();
    view.begin_context_message_edit(2);
    assert!(view.message_takes_focus(2));
    view.message_text_changed(2, "  changed ".to_string(), 1000);
    let actions = view.message_blurred(2, 25, 100);
    assert_eq!(
        names(&actions),
        vec![
            "EditMessage { persona: \"a\", message_id: 2, content: \"changed\", windowed: true }",
            "Notify",
            "Notify",
        ]
    );
    assert_eq!(view.pane.editors[1].saved_content, "changed");
    assert_eq!(view.pane.editors[1].tokens, 25);
    assert_eq!(view.pane.flags.editing, None);
    view.message_text_changed(2, "changed".to_string(), 1000);
    assert_eq!(names(&view.message_blurred(2, 25, 100)), Vec::<String>::new());
    assert_eq!(names(&view.message_blurred(9, 25, 100)), Vec::<String>::new());
}

#[test]
fn empty_and_too_long_messages_are_put_back() {
    let mut view = page_with_messages();
    view.message_text_changed(1, "   ".to_string(), 1000);
    let actions = view.message_blurred(1, 1, 100);
    assert_eq!(names(&actions)[0], "RestoreMessage { message_id: 1 }");
    assert_eq!(view.status, Some(PersonaStatus::MessageEmpty));
    assert_eq!(view.pane.editors[0].text, "one");
    view.message_text_changed(1, "long".to_string(), 1000);
    view.message_blurred(1, 51, 100);
    assert_eq!(view.status, Some(PersonaStatus::MessageTooLarge));
    assert_eq!(view.pane.editors[0].text, "one");
    view.message_text_changed(1, "long".to_string(), 1000);
    view.message_blurred(1, 50, 100);
    assert_eq!(view.pane.editors[0].saved_content, "long");
}

#[test]
fn counted_usage_goes_before_the_sum_of_messages() {
    let mut view = page_with_messages();
    let revision = view.memory.usage_revision;
    view.usage_loaded(
        revision,
        Ok(ContextUsage { messages: 3, max_messages: 9, tokens: 90, max_tokens: 100 }),
    );
    view.message_text_changed(1, "x".to_string(), 1000);
    view.message_blurred(1, 21, 100);
    assert_eq!(view.status, Some(PersonaStatus::MessageTooLarge));
    view.message_text_changed(1, "x".to_string(), 1000);
    view.message_blurred(1, 20, 100);
    assert_eq!(view.memory.usage.unwrap().tokens, 100);
    assert_ne!(view.memory.usage_revision, revision);
}

#[test]
fn saving_commits_every_message() {
    let mut view = page_with_messages();
    view.message_text_changed(1, "uno".to_string(), 1000);
    view.message_text_changed(3, "".to_string(), 1000);
    let actions = view.prepare_save(&weights(&[11, 20, 1], 1000)).unwrap();
    assert_eq!(
        names(&actions)[0],
        "EditMessage { persona: \"a\", message_id: 1, content: \"uno\", windowed: false }"
    );
    assert_eq!(view.pane.editors[0].saved_content, "uno");
    assert_eq!(view.pane.editors[2].saved_content, "three");
    assert_eq!(view.pane.editors[2].text, "");
    assert_eq!(view.status, Some(PersonaStatus::MessageEmpty));
}

#[test]
fn oversized_message_is_put_back_at_once() {
    assert!(!exceeds_bytes("猫", 3));
    assert!(exceeds_bytes("猫", 2));
    assert!(!exceeds_bytes("", 0));
    assert!(exceeds_bytes("aé猫😀", 9));
    assert!(!exceeds_bytes("aé猫😀", "aé猫😀".len()));
    let mut view = page_with_messages();
    view.message_text_changed(1, "abcdef".to_string(), 5);
    assert_eq!(view.status, Some(PersonaStatus::MessageFileTooLarge));
    assert_eq!(view.pane.editors[0].text, "one");
    assert_eq!(
        names(&view.message_text_changed(9, "abcdef".to_string(), 5)),
        Vec::<String>::new()
    );
}

#[test]
fn changes_of_the_conversation_are_followed_up() {
    let mut view = page_with_messages();
    let actions = view.context_mutated(&"a".to_string(), Some(2), Ok(()));
    assert_eq!(actions.list.len(), 3);
    assert_eq!(view.status, Some(PersonaStatus::MessagesDeleted(2)));
    assert_eq!(names(&view.context_mutated(&"a".to_string(), None, Ok(()))), vec!["Notify"]);
    let actions = view.context_mutated(&"b".to_string(), None, Err("e".to_string()));
    assert_eq!(actions.list.len(), 3);
    assert_eq!(view.pane.editors.len(), 3);
    view.context_mutated(&"a".to_string(), None, Err("e".to_string()));
    assert_eq!(view.status, Some(PersonaStatus::MessageSaveFailed("e".to_string())));
    assert!(view.pane.flags.loading);
    let mut closed = page_with_messages();
    closed.context_mutated_without_window(&"a".to_string(), Err("e".to_string()));
    assert_eq!(closed.pane.error, Some("e".to_string()));
    assert_eq!(closed.pane.editors.len(), 3);
    assert_eq!(
        names(&closed.context_mutated_without_window(&"a".to_string(), Ok(()))),
        Vec::<String>::new()
    );
}

#[test]
fn cancelled_edit_puts_the_message_back() {
    let mut view = page_with_messages();
    view.begin_context_message_edit(3);
    view.message_text_changed(3, "draft".to_string(), 1000);
    let actions = view.cancel_context_message_edit(3);
    assert_eq!(names(&actions), vec!["RestoreMessage { message_id: 3 }", "Blur", "Notify"]);
    assert_eq!(view.pane.editors[2].text, "three");
    assert_eq!(names(&view.begin_context_message_edit(9)), Vec::<String>::new());
    assert_eq!(names(&view.cancel_context_message_edit(9)), Vec::<String>::new());
}

#[test]
fn keys_are_read_whatever_their_case() {
    assert!(is_key("ESCAPE", "escape"));
    assert!(!is_key("escap", "escape"));
    assert!(!is_key("[", "{"));
    assert_eq!(read_key("Escape", true), PageKey::Escape);
    assert_eq!(read_key("A", true), PageKey::SelectAll);
    assert_eq!(read_key("a", false), PageKey::Other);
    assert_eq!(read_key("delete", false), PageKey::Delete);
}

#[test]
fn escape_calls_off_one_thing_at_a_time() {
    let mut view = page_with_messages();
    view.prepare_context_menu_selection(1);
    view.handle_input_event(4, true, InputEvent::Focus { text: "old".to_string() });
    view.begin_context_message_edit(1);
    view.request_clear_memory(MemoryScope::Context);
    assert_eq!(names(&view.handle_key_down(PageKey::Escape)), vec!["Consume", "Notify"]);
    assert!(view.confirm_prompt().is_none());
    assert_eq!(view.handle_key_down(PageKey::Escape).list.len(), 4);
    assert_eq!(view.pane.flags.editing, None);
    assert_eq!(
        names(&view.handle_key_down(PageKey::Escape)),
        vec!["Consume", "RestoreField { field: 4, text: \"old\" }"]
    );
    assert_eq!(names(&view.handle_key_down(PageKey::Escape)), vec!["Consume", "Notify"]);
    assert_eq!(view.selected_count(), 0);
    assert_eq!(names(&view.handle_key_down(PageKey::Escape)), Vec::<String>::new());
}

#[test]
fn message_keys_work_on_the_conversation_only() {
    let mut view = page_with_messages();
    assert_eq!(names(&view.handle_key_down(PageKey::Delete)), Vec::<String>::new());
    assert_eq!(names(&view.handle_key_down(PageKey::SelectAll)), vec!["Consume", "Notify"]);
    assert_eq!(view.selected_count(), 3);
    assert_eq!(names(&view.handle_key_down(PageKey::Delete)), vec!["Consume", "Notify"]);
    assert_eq!(
        view.confirm_prompt(),
        Some(ConfirmPrompt::DeleteMessages { name: "name a".to_string(), count: 3 })
    );
    assert_eq!(names(&view.handle_key_down(PageKey::SelectAll)), Vec::<String>::new());
    view.cancel_confirm();
    view.open_page(PersonaPage::Settings);
    assert_eq!(names(&view.handle_key_down(PageKey::SelectAll)), Vec::<String>::new());
    assert_eq!(names(&view.handle_key_down(PageKey::Other)), Vec::<String>::new());
}

#[test]
fn clicks_change_the_selection() {
    let mut view = page_with_messages();
    view.start_context_selection_drag(Some(2), false);
    view.finish_context_selection_drag();
    assert!(view.pane.selected.contains(2));
    view.start_context_selection_drag(Some(1), true);
    view.finish_context_selection_drag();
    assert_eq!(view.selected_count(), 2);
    assert!(!view.menu_offers_edit());
    view.start_context_selection_drag(Some(2), true);
    view.finish_context_selection_drag();
    assert_eq!(view.selected_count(), 1);
    assert!(view.menu_offers_edit());
    view.start_context_selection_drag(None, false);
    view.finish_context_selection_drag();
    assert_eq!(view.selected_count(), 0);
    assert_eq!(names(&view.finish_context_selection_drag()), Vec::<String>::new());
}

#[test]
fn frame_selects_what_is_under_it() {
    let mut view = page_with_messages();
    view.prepare_context_menu_selection(1);
    view.start_context_selection_drag(None, true);
    assert!(!view.draws_frame());
    assert_eq!(
        names(&view.update_context_selection_drag(false, true, &vec![2], true)),
        Vec::<String>::new()
    );
    assert_eq!(
        names(&view.update_context_selection_drag(true, false, &vec![2], true)),
        vec!["Notify"]
    );
    assert_eq!(view.selected_count(), 1);
    let actions = view.update_context_selection_drag(true, true, &vec![2, 3], true);
    assert_eq!(actions.list.len(), 2);
    assert!(view.draws_frame());
    assert_eq!(view.selected_count(), 3);
    assert_eq!(view.update_context_selection_drag(true, false, &vec![2], true).list.len(), 1);
    assert_eq!(view.selected_count(), 2);
    view.finish_context_selection_drag();
    assert_eq!(view.selected_count(), 2);
    let mut plain = page_with_messages();
    plain.prepare_context_menu_selection(1);
    plain.start_context_selection_drag(Some(3), false);
    plain.update_context_selection_drag(true, true, &vec![2], false);
    assert!(plain.pane.selected.contains(2));
    assert_eq!(plain.selected_count(), 1);
}

#[test]
fn scrolling_goes_on_while_the_pointer_is_near_the_edge() {
    let mut view = page_with_messages();
    assert_eq!(names(&view.context_selection_scrolled(&vec![1], true)), Vec::<String>::new());
    view.start_context_selection_drag(None, false);
    let revision = view.pane.flags.scroll_revision;
    view.update_context_selection_drag(true, true, &vec![1], true);
    assert!(view.pane.flags.scroll_scheduled);
    assert!(!view.scroll_due(revision + 1));
    assert!(view.scroll_due(revision));
    let actions = view.advance_context_selection_auto_scroll(true, &vec![1, 2], true);
    assert_eq!(
        names(&actions),
        vec!["Notify".to_string(), format!("ScheduleScroll {{ revision: {revision} }}")]
    );
    assert!(view.scroll_due(revision));
    assert_eq!(
        names(&view.advance_context_selection_auto_scroll(false, &vec![], true)),
        Vec::<String>::new()
    );
    assert_eq!(names(&view.context_selection_scrolled(&vec![3], false)), vec!["Notify"]);
    assert_eq!(view.selected_count(), 1);
    view.finish_context_selection_drag();
    assert!(!view.scroll_due(revision));
}

#[test]
fn selected_messages_are_copied_line_by_line() {
    let mut view = page_with_messages();
    assert_eq!(names(&view.copy_selected_context_messages()), Vec::<String>::new());
    view.prepare_context_menu_selection(3);
    view.start_context_selection_drag(Some(1), true);
    view.finish_context_selection_drag();
    let actions = view.copy_selected_context_messages();
    assert_eq!(names(&actions)[0], "CopyText { text: \"one\\nthree\" }");
    assert_eq!(view.status, Some(PersonaStatus::Copied));
}

#[test]
fn only_messages_that_are_there_are_deleted() {
    let mut view = page_with_messages();
    assert_eq!(
        names(&view.request_delete_context_messages(&vec![8, 9])),
        Vec::<String>::new()
    );
    view.request_delete_context_messages(&vec![3, 8, 3, 1]);
    let actions = view.accept_confirm(&weights(&[1, 1, 1], 100));
    assert_eq!(
        names(&actions),
        vec!["DeleteMessages { persona: \"a\", message_ids: [3, 1], count: 2 }", "Notify"]
    );
    assert_eq!(view.pane.editors.len(), 1);
    assert_eq!(view.pane.editors[0].id, 2);
    assert_eq!(
        names(&view.delete_context_messages("a".to_string(), vec![1])),
        Vec::<String>::new()
    );
}

#[test]
fn deletion_lowers_the_counted_usage() {
    let mut view = page_with_messages();
    let revision = view.memory.usage_revision;
    view.usage_loaded(
        revision,
        Ok(ContextUsage { messages: 2, max_messages: 9, tokens: 35, max_tokens: 100 }),
    );
    view.prepare_context_menu_selection(3);
    view.delete_context_messages("a".to_string(), vec![2, 3]);
    let usage = view.memory.usage.unwrap();
    assert_eq!((usage.messages, usage.tokens), (0, 0));
    assert_eq!(view.selected_count(), 0);
}

#[test]
fn cleared_conversation_is_shown_empty() {
    let mut view = page_with_messages();
    view.request_clear_memory(MemoryScope::Context);
    assert_eq!(
        view.confirm_prompt(),
        Some(ConfirmPrompt::ClearMemory {
            name: "name a".to_string(),
            scope: MemoryScope::Context
        })
    );
    let actions = view.accept_confirm(&weights(&[1, 1, 1], 100));
    assert_eq!(actions.list.len(), 4);
    assert_eq!(view.status, Some(PersonaStatus::MemoryClearing));
    let actions = view.memory_cleared(&"a".to_string(), MemoryScope::Context, Ok(()));
    assert!(names(&actions).contains(&"SaveFinished".to_string()));
    assert!(view.context_notices().empty);
    let other = page_with_messages().memory_cleared(&"b".to_string(), MemoryScope::All, Ok(()));
    assert_eq!(other.list.len(), 3);
}

#[test]
fn results_of_clearing_are_merged() {
    let error = |text: &str| Err::<(), String>(text.to_string());
    assert_eq!(merge_clear_results(Ok(()), Ok(())), Ok(()));
    assert_eq!(merge_clear_results(error("c"), Ok(())), error("c"));
    assert_eq!(merge_clear_results(Ok(()), error("s")), error("s"));
    assert_eq!(merge_clear_results(error("c"), error("s")), error("c; s"));
}

#[test]
fn cleanup_claim_ends_one_way() {
    let failed = Err::<(), String>("e".to_string());
    assert_eq!(cleanup_end(true, &Ok(())), Some(true));
    assert_eq!(cleanup_end(true, &failed), Some(false));
    assert_eq!(cleanup_end(false, &Ok(())), None);
    assert_eq!(cleanup_end(false, &failed), None);
}

#[test]
fn held_modifier_adds_to_the_selection() {
    assert!(!selection_is_additive(false, false));
    assert!(selection_is_additive(true, false));
    assert!(selection_is_additive(false, true));
    assert!(selection_is_additive(true, true));
}

#[test]
fn labels_of_models_stay_on_the_page() {
    let mut view = page(&["a", "b"], Some("a"));
    let named = |label: &str| Live2dOption::Model(label.to_string());
    let rows = |view: &PersonaSettingsView| {
        live2d_option_names(&view.live2d.models, &view.live2d.missing)
    };
    assert_eq!(rows(&view), vec![Live2dOption::Inherit, named("Dog"), named("Cat")]);
    view.load_form(Some(1));
    assert_eq!(rows(&view)[1..3], [named("Dog"), named("Cat")]);
    view.refresh_live2d_models(vec![
        Live2dModelOption { label: "Hare".to_string(), path: "hare".to_string() },
        Live2dModelOption { label: "Fox".to_string(), path: "cat".to_string() },
    ]);
    assert_eq!(rows(&view)[1..3], [named("Hare"), named("Fox")]);
}

#[test]
fn memory_scopes_have_names() {
    assert_eq!(MemoryScope::Context.id(), "context");
    assert_eq!(MemoryScope::All.id(), "all");
    assert!(MemoryScope::All.persistent());
    assert!(!MemoryScope::Context.persistent());
}

#[test]
fn fields_save_when_they_are_left() {
    let mut view = page(&["a"], Some("a"));
    let focus = InputEvent::Focus { text: "t".to_string() };
    assert_eq!(names(&view.handle_input_event(1, false, focus)), Vec::<String>::new());
    assert_eq!(view.input_edit, Some(InputEdit { field: 1, text: "t".to_string() }));
    assert_eq!(
        names(&view.handle_input_event(1, false, InputEvent::PressEnter)),
        Vec::<String>::new()
    );
    assert_eq!(
        names(&view.handle_input_event(2, true, InputEvent::PressEnter)),
        vec!["SaveDraft", "Blur"]
    );
    assert_eq!(names(&view.handle_input_event(2, true, InputEvent::Blur)), vec!["SaveDraft"]);
    assert!(view.input_edit.is_some());
    view.handle_input_event(1, false, InputEvent::Blur);
    assert!(view.input_edit.is_none());
    assert_eq!(
        names(&view.handle_input_event(1, true, InputEvent::Change)),
        Vec::<String>::new()
    );
    view.load_form(Some(0));
    assert_eq!(
        names(&view.handle_input_event(1, true, InputEvent::Blur)),
        Vec::<String>::new()
    );
    assert_eq!(names(&view.choice_changed()), Vec::<String>::new());
}

#[test]
fn other_models_on_offer_are_shown() {
    let mut view = page(&["a"], Some("a"));
    let mut fewer = providers();
    fewer.models.remove(1);
    let actions = view.refresh_providers(fewer, &no_weights());
    assert_eq!(names(&actions), vec!["FillForm", "Notify"]);
    assert_eq!(view.form.provider_row, 1);
    view.form_filled();
    let actions = view.refresh_live2d_models(vec![Live2dModelOption {
        label: "Fox".to_string(),
        path: "fox".to_string(),
    }]);
    assert_eq!(names(&actions), vec!["FillForm", "Notify"]);
    assert_eq!(view.form.live2d_row, 2);
    assert_eq!(view.live2d.missing, Some("cat".to_string()));
    view.capture_current_form();
    assert_eq!(view.draft.personas[0].live2d_model, Some("cat".to_string()));
}

#[test]
fn list_tells_where_each_persona_thinks() {
    let mut settings = personas(&["a", "b", "c"], Some("b"));
    settings.personas[0].model = None;
    settings.personas[2].model = Some("gone".to_string());
    let submitted = settings.copy();
    let view = PersonaSettingsView::new_with_snapshots(
        PersonaSettingsDraft::current(settings),
        true,
        providers(),
        submitted,
        live2d(),
    );
    let rows = view.persona_rows();
    assert_eq!(rows[0].subtitle, PersonaSubtitle::Inherit);
    assert_eq!(
        rows[1].subtitle,
        PersonaSubtitle::Provider(ModelProvider::Genai(LlmProvider::OpenAI))
    );
    assert_eq!(rows[2].subtitle, PersonaSubtitle::ProviderMissing);
    assert!(rows[1].editing && !rows[0].editing);
    assert!(view.can_delete_personas());
}

#[test]
fn message_rows_follow_the_pane() {
    let mut view = page_with_messages();
    view.prepare_context_menu_selection(2);
    view.begin_context_message_edit(2);
    let rows = view.message_rows();
    assert_eq!(rows.len(), 3);
    assert!(rows[1].selected && rows[1].editing && rows[1].assistant);
    assert!(!rows[0].selected && !rows[0].editing);
    view.refresh_context();
    assert_eq!(view.message_rows().len(), 0);
}

#[test]
fn toast_goes_away_unless_a_newer_one_came() {
    let mut view = page(&["a"], Some("a"));
    view.set_status(PersonaStatus::Saved);
    view.set_status(PersonaStatus::Saving);
    assert_eq!(names(&view.toast_expired(1)), Vec::<String>::new());
    assert!(view.status.is_some());
    assert_eq!(names(&view.toast_expired(2)), vec!["Notify"]);
    assert!(view.status.is_none());
}
