use lunamate_ui::agent::display::{ImageControl, ReplyText};
use lunamate_ui::agent::message::{
    AgentSnapshot, AppLanguage, ChatMessage, ChatMessageState, ChatRole,
};
use lunamate_ui::agent::reply::{ReplyLifecycle, ThinkingFeedback};
use lunamate_ui::agent::screenshot::{
    finish_capture, host_screenshot_capability, AgentGrants, HostScreenshotCapability,
    ImageInputError,
};
use lunamate_ui::agent::view::{AgentAction, AgentStatus, AgentView};
use lunamate_ui::settings::llm::{
    LlmAdvancedOptions, LlmModelConfig, LlmProvider, LlmSettings, ModelKind, ModelProvider,
};
use lunamate_ui::settings::persona::config::{PersonaConfig, PersonaContextLimits};

const ALL: AgentGrants = AgentGrants { outfits: true, screenshots: Some(3) };
const NOTHING: AgentGrants = AgentGrants { outfits: false, screenshots: None };

fn language() -> AppLanguage {
    AppLanguage { index: 1 }
}

fn message(id: u64, state: ChatMessageState, content: &str, visible: &str) -> ChatMessage {
    ChatMessage {
        id,
        role: ChatRole::Assistant,
        state,
        content: content.to_string(),
        visible_content: visible.to_string(),
    }
}

fn snapshot(revision: u64) -> AgentSnapshot {
    AgentSnapshot {
        revision,
        streaming: false,
        switching_memory: false,
        shutting_down: false,
        status: None,
        reply_message_id: None,
        messages: Vec::new(),
        active_persona: "persona-1".to_string(),
        language: language(),
    }
}

fn replying(revision: u64, state: ChatMessageState, content: &str, visible: &str) -> AgentSnapshot {
    let streaming = state == ChatMessageState::Streaming;
    AgentSnapshot {
        streaming,
        reply_message_id: Some(7),
        messages: vec![
            ChatMessage {
                id: 7,
                role: ChatRole::User,
                state: ChatMessageState::Complete,
                content: "hi".to_string(),
                visible_content: "hi".to_string(),
            },
            message(7, state, content, visible),
        ],
        ..snapshot(revision)
    }
}

fn model(id: &str, kind: ModelKind) -> LlmModelConfig {
    LlmModelConfig {
        id: id.to_string(),
        label: id.to_string(),
        kind,
        provider: ModelProvider::Genai(LlmProvider::OpenAI),
        model: "m".to_string(),
        endpoint: None,
        api_key: None,
        voice: None,
        voice_type: None,
        local_path: None,
        use_gpu: false,
        whisper_language: None,
        advanced: LlmAdvancedOptions::none(),
    }
}

fn settings() -> LlmSettings {
    LlmSettings {
        models: vec![
            model("chat-a", ModelKind::ChatCompletions),
            model("chat-b", ModelKind::ChatCompletions),
            model("voice", ModelKind::SpeechSynthesis),
        ],
        selected_model: Some("chat-a".to_string()),
        selected_transcription_model: None,
    }
}

fn persona(model: Option<&str>, tts: Option<&str>) -> PersonaConfig {
    PersonaConfig {
        id: "persona-1".to_string(),
        name: "Luna".to_string(),
        system_prompt: String::new(),
        input_prompt: String::new(),
        model: model.map(|id| id.to_string()),
        tts_model: tts.map(|id| id.to_string()),
        live2d_model: None,
        context: PersonaContextLimits { max_messages: None, max_tokens: None },
    }
}

#[test]
fn reply_lifecycle_runs_through_a_fade() {
    let mut bubble = ReplyLifecycle::new(true);
    assert_eq!(bubble.display_generation(), 1);
    let revision = bubble.plan_fade(true).unwrap();
    assert!(bubble.begin_fade(revision, true));
    assert!(bubble.fading());
    assert!(bubble.finish_fade(revision, true));
    assert!(!bubble.visible());
    assert!(!bubble.finish_fade(revision, true));
}

#[test]
fn outdated_fade_steps_do_nothing() {
    let mut bubble = ReplyLifecycle::new(true);
    let first = bubble.plan_fade(true).unwrap();
    let second = bubble.plan_fade(true).unwrap();
    assert_ne!(first, second);
    assert!(!bubble.begin_fade(first, true));
    bubble.reveal_reply();
    assert!(!bubble.begin_fade(second, true));
    assert!(bubble.visible());
}

#[test]
fn hovering_stops_a_fade_for_good() {
    let mut bubble = ReplyLifecycle::new(true);
    let revision = bubble.plan_fade(true).unwrap();
    assert!(bubble.begin_fade(revision, true));
    assert!(bubble.set_hovered(true));
    assert!(!bubble.set_hovered(true));
    assert!(!bubble.fading());
    assert_eq!(bubble.plan_fade(true), None);
    assert!(bubble.set_hovered(false));
    assert!(!bubble.finish_fade(revision, true));
    assert!(bubble.visible());
}

#[test]
fn unfinished_reply_does_not_fade() {
    let mut bubble = ReplyLifecycle::new(true);
    assert_eq!(bubble.plan_fade(false), None);
    let revision = bubble.revision();
    assert!(!bubble.begin_fade(revision, false));
    let mut hidden = ReplyLifecycle::new(false);
    assert_eq!(hidden.display_generation(), 0);
    assert_eq!(hidden.plan_fade(true), None);
}

#[test]
fn overlay_opens_with_a_fresh_bubble() {
    let empty = AgentView::new(snapshot(1), 5);
    assert_eq!(
        empty.reply,
        ReplyLifecycle {
            visible: false,
            hovered: false,
            fading: false,
            revision: 0,
            display_generation: 0,
        }
    );
    let shown = AgentView::new(replying(1, ChatMessageState::Streaming, "", ""), 5);
    assert_eq!(
        shown.reply,
        ReplyLifecycle {
            visible: true,
            hovered: false,
            fading: false,
            revision: 0,
            display_generation: 1,
        }
    );
}

#[test]
fn newer_configuration_is_taken_up_once() {
    let mut view = AgentView::new(snapshot(1), 5);
    let active = persona(Some("chat-b"), None);
    assert_eq!(view.refresh_settings(5, Some(&active), &settings()), vec![]);
    assert_eq!(view.refresh_settings(6, None, &settings()), vec![]);
    assert_eq!(view.config.refresh_revision, 0);
    let actions = view.refresh_settings(6, Some(&active), &settings());
    assert_eq!(
        actions,
        vec![
            AgentAction::CancelPendingVoice,
            AgentAction::ApplyConfiguration { revision: 1, generation: 6, model: Some(1) },
        ]
    );
    assert_eq!(view.refresh_settings(6, Some(&active), &settings()), vec![]);
    assert_eq!(view.configuration_finished(1, 6, Ok(true)), vec![AgentAction::Notify]);
    assert_eq!(view.config.generation, 6);
    assert_eq!(view.configuration_finished(1, 6, Ok(true)), vec![]);
}

#[test]
fn failed_configuration_is_retried_and_late_news_are_ignored() {
    let mut view = AgentView::new(snapshot(1), 5);
    let active = persona(None, None);
    view.refresh_settings(6, Some(&active), &settings());
    assert_eq!(
        view.configuration_finished(1, 6, Err("disk".to_string())),
        vec![
            AgentAction::SetStatus(Some(AgentStatus::PersistenceUnavailable("disk".to_string()))),
            AgentAction::Notify,
        ]
    );
    assert_eq!(view.config.generation, 5);
    let retry = view.refresh_settings(6, Some(&active), &settings());
    assert!(retry.contains(&AgentAction::ApplyConfiguration {
        revision: 2,
        generation: 6,
        model: Some(0)
    }));
    view.refresh_settings(7, Some(&active), &settings());
    assert_eq!(view.configuration_finished(2, 6, Ok(true)), vec![]);
    assert_eq!(view.config.generation, 5);
    view.configuration_finished(3, 7, Ok(false));
    assert_eq!(view.config.generation, 5);
    assert_eq!(view.config.pending_generation, None);
}

#[test]
fn persona_without_known_model_uses_the_selected_one() {
    let mut view = AgentView::new(snapshot(1), 0);
    let gone = persona(Some("gone"), None);
    let actions = view.refresh_settings(1, Some(&gone), &settings());
    assert_eq!(
        actions.last(),
        Some(&AgentAction::ApplyConfiguration { revision: 1, generation: 1, model: Some(0) })
    );
    let mut bare = settings();
    bare.selected_model = None;
    let actions = view.refresh_settings(2, Some(&gone), &bare);
    assert_eq!(
        actions.last(),
        Some(&AgentAction::ApplyConfiguration { revision: 2, generation: 2, model: None })
    );
}

#[test]
fn conversation_is_followed_once_per_state() {
    let mut view = AgentView::new(snapshot(1), 0);
    assert!(!view.reply_visible());
    let actions = view.sync_agent_snapshot(replying(2, ChatMessageState::Streaming, "", ""));
    assert_eq!(
        actions,
        vec![
            AgentAction::CancelFade,
            AgentAction::ScrollToEnd,
            AgentAction::Notify,
            AgentAction::ScrollToEnd,
            AgentAction::Notify,
        ]
    );
    assert!(view.reply_visible());
    let again = view.sync_agent_snapshot(replying(2, ChatMessageState::Complete, "x", "x"));
    assert_eq!(again, vec![]);
    assert!(view.snapshot.streaming);
}

#[test]
fn finished_answer_is_planned_to_fade() {
    let mut view = AgentView::new(replying(1, ChatMessageState::Streaming, "", ""), 0);
    let actions = view.sync_agent_snapshot(replying(2, ChatMessageState::Complete, "ok", "ok"));
    let revision = view.reply.revision;
    assert!(actions.contains(&AgentAction::ScheduleFade { revision }));
    assert_eq!(
        view.fade_due(revision),
        vec![AgentAction::Notify, AgentAction::RunFade { revision }]
    );
    assert_eq!(view.fade_finished(revision), vec![AgentAction::Notify]);
    assert!(!view.reply_visible());
    assert_eq!(view.reply_display(), None);
}

#[test]
fn unchanged_answer_is_not_shown_again() {
    let mut view = AgentView::new(replying(1, ChatMessageState::Complete, "ok", "ok"), 0);
    let actions = view.sync_agent_snapshot(replying(2, ChatMessageState::Complete, "ok", "ok"));
    assert_eq!(actions, vec![AgentAction::ScrollToEnd, AgentAction::Notify]);
    assert_eq!(view.reply.revision, 0);
}

#[test]
fn leaving_the_bubble_plans_a_new_fade() {
    let mut view = AgentView::new(replying(1, ChatMessageState::Complete, "ok", "ok"), 0);
    assert_eq!(
        view.set_reply_hovered(true),
        vec![AgentAction::CancelFade, AgentAction::Notify]
    );
    assert_eq!(view.set_reply_hovered(true), vec![]);
    let actions = view.set_reply_hovered(false);
    assert_eq!(
        actions,
        vec![AgentAction::CancelFade, AgentAction::ScheduleFade { revision: view.reply.revision }]
    );
}

#[test]
fn report_at_the_start_fades_on_its_own() {
    let mut warned = snapshot(1);
    warned.status = Some("no disk".to_string());
    let mut view = AgentView::new(warned, 0);
    assert!(view.reply_visible());
    assert_eq!(
        view.start_initial_reply_fade(),
        vec![AgentAction::CancelFade, AgentAction::ScheduleFade { revision: 1 }]
    );
    let mut answered = AgentView::new(replying(1, ChatMessageState::Complete, "a", "a"), 0);
    assert_eq!(answered.start_initial_reply_fade(), vec![]);
}

#[test]
fn bubble_says_how_far_the_answer_has_come() {
    let cases = vec![
        (ChatMessageState::Streaming, "", "", ReplyText::Thinking, None, true, false),
        (
            ChatMessageState::Failed("e".to_string()),
            "",
            "",
            ReplyText::Text("e".to_string()),
            None,
            false,
            true,
        ),
        (
            ChatMessageState::Failed("e".to_string()),
            "part",
            "part",
            ReplyText::Text("part".to_string()),
            Some(ReplyText::Text("e".to_string())),
            false,
            true,
        ),
        (ChatMessageState::Cancelled, "", "", ReplyText::Stopped, None, false, false),
        (
            ChatMessageState::Cancelled,
            "part",
            "part",
            ReplyText::Text("part".to_string()),
            Some(ReplyText::Stopped),
            false,
            false,
        ),
        (
            ChatMessageState::Interrupted,
            "hidden",
            "",
            ReplyText::Interrupted,
            Some(ReplyText::Interrupted),
            false,
            false,
        ),
        (
            ChatMessageState::InterruptedByVoice,
            "hidden",
            "",
            ReplyText::InterruptedByVoice,
            None,
            false,
            false,
        ),
        (ChatMessageState::Complete, "", "", ReplyText::Blank, None, false, false),
        (
            ChatMessageState::Streaming,
            "so",
            "so",
            ReplyText::Text("so".to_string()),
            None,
            false,
            false,
        ),
    ];
    for (state, content, visible, text, detail, waiting, error) in cases {
        let view = AgentView::new(replying(1, state, content, visible), 0);
        let display = view.reply_display().unwrap();
        assert_eq!(display.text, text);
        assert_eq!(display.detail, detail);
        assert_eq!(display.waiting, waiting);
        assert_eq!(display.error, error);
        assert_eq!(display.primary_error(), error && display.detail.is_none());
    }
}

#[test]
fn report_stands_in_for_a_missing_answer() {
    let mut lost = snapshot(1);
    lost.reply_message_id = Some(9);
    lost.status = Some("busy".to_string());
    assert!(!lost.visible_reply_is_terminal());
    let view = AgentView::new(lost, 0);
    assert_eq!(view.reply_display().unwrap().text, ReplyText::Text("busy".to_string()));
}

#[test]
fn question_is_taken_only_while_nothing_else_goes_on() {
    for (streaming, switching, shutting) in
        [(true, false, false), (false, true, false), (false, false, true)]
    {
        let mut busy = snapshot(1);
        busy.streaming = streaming;
        busy.switching_memory = switching;
        busy.shutting_down = shutting;
        let mut view = AgentView::new(busy, 0);
        let (sent, actions) = view.send_message(
            "hi".to_string(),
            None,
            language(),
            Some(ThinkingFeedback::Text),
            ALL,
        );
        assert!(!sent);
        assert_eq!(actions, vec![]);
        assert_eq!(view.thinking_feedback(), None);
    }
}

#[test]
fn submitted_question_takes_its_image_along() {
    let mut view = AgentView::new(snapshot(1), 0);
    view.set_available_outfits(vec!["coat".to_string()]);
    let picker = view.choose_image();
    assert_eq!(picker, vec![AgentAction::OpenImagePicker { revision: 1 }]);
    assert_eq!(
        view.image_loaded(1, Ok(Some(42))),
        vec![AgentAction::SetStatus(None), AgentAction::SyncSnapshot, AgentAction::Notify]
    );
    let actions = view.submit_from_input("look".to_string(), language(), ALL);
    assert_eq!(
        actions,
        vec![
            AgentAction::CancelPendingVoice,
            AgentAction::RefreshSettings,
            AgentAction::SendMessage {
                text: "look".to_string(),
                image: Some(42),
                with_outfits: true,
                screenshot: Some(HostScreenshotCapability { permission_revision: 3 }),
                outfit_revision: 1,
                language: language(),
                feedback_revision: 1,
            },
            AgentAction::ClearInput,
        ]
    );
    assert_eq!(view.panel.pending_image, None);
    assert_eq!(view.thinking_feedback(), Some(ThinkingFeedback::Text));
    assert_eq!(view.image_loaded(1, Ok(Some(43))), vec![]);
    assert_eq!(view.panel.pending_image, None);
    assert_eq!(view.message_answered(1, None), vec![AgentAction::Notify]);
    assert_eq!(view.thinking_feedback(), None);
}

#[test]
fn image_errors_are_reported_while_they_are_wanted() {
    let mut view = AgentView::new(snapshot(1), 0);
    view.choose_image();
    assert_eq!(
        view.image_picker_failed(1),
        vec![AgentAction::SetStatus(Some(AgentStatus::ImagePicker)), AgentAction::SyncSnapshot]
    );
    assert_eq!(
        view.image_loaded(1, Ok(None)),
        vec![AgentAction::SetStatus(Some(AgentStatus::ImagePrepare)), AgentAction::SyncSnapshot]
    );
    assert_eq!(
        view.image_loaded(1, Err("bad".to_string())),
        vec![
            AgentAction::SetStatus(Some(AgentStatus::Text("bad".to_string()))),
            AgentAction::SyncSnapshot,
            AgentAction::Notify,
        ]
    );
    assert_eq!(view.remove_pending_image(), vec![AgentAction::Notify]);
    assert_eq!(view.image_picker_failed(1), vec![]);
    assert_eq!(view.image_loaded(1, Ok(Some(1))), vec![]);
    let mut streaming = AgentView::new(replying(1, ChatMessageState::Streaming, "", ""), 0);
    assert_eq!(streaming.choose_image(), vec![]);
}

#[test]
fn click_on_the_model_is_told_unless_an_answer_is_written() {
    let mut view = AgentView::new(snapshot(1), 0);
    let (sent, actions) = view.send_model_click_event("poke".to_string(), language(), NOTHING);
    assert!(sent);
    assert_eq!(actions.len(), 3);
    assert_eq!(actions[0], AgentAction::CancelPendingVoice);
    let mut busy = AgentView::new(replying(1, ChatMessageState::Streaming, "", ""), 0);
    let (sent, actions) = busy.send_model_click_event("poke".to_string(), language(), NOTHING);
    assert!(!sent);
    assert_eq!(actions, vec![]);
}

#[test]
fn voice_input_silences_the_companion() {
    let mut view = AgentView::new(snapshot(1), 3);
    view.transcribe_voice(4, 9, &"chat-a".to_string(), &settings());
    assert_eq!(
        view.voice_speech_started(10, language(), 3),
        vec![
            AgentAction::CancelTranscription { revision: 4, utterance_id: 9 },
            AgentAction::StopSpeech,
            AgentAction::VoiceStarted { utterance_id: 10, language: language() },
            AgentAction::SyncSnapshot,
            AgentAction::Notify,
        ]
    );
    assert_eq!(view.transcription_finished(4, 9), vec![]);
    assert_eq!(
        view.voice_speech_started(11, language(), 4),
        vec![AgentAction::StopSpeech, AgentAction::RefreshSettings]
    );
}

#[test]
fn transcription_is_passed_on_once() {
    let mut view = AgentView::new(snapshot(1), 0);
    assert_eq!(
        view.transcribe_voice(4, 9, &"chat-b".to_string(), &settings()),
        vec![
            AgentAction::StopSpeech,
            AgentAction::Transcribe { revision: 4, utterance_id: 9, model: 1 },
        ]
    );
    assert_eq!(view.transcription_finished(4, 8), vec![]);
    assert_eq!(
        view.transcription_finished(4, 9),
        vec![AgentAction::CompleteTranscription { revision: 4, utterance_id: 9 }]
    );
    assert_eq!(view.transcription_finished(4, 9), vec![]);
    assert_eq!(
        view.transcribe_voice(5, 10, &"gone".to_string(), &settings()),
        vec![
            AgentAction::StopSpeech,
            AgentAction::ReportMissingModel { revision: 5, utterance_id: 10 },
        ]
    );
    assert_eq!(view.voice.transcription, None);
}

#[test]
fn cancelled_utterance_stops_only_its_own_transcription() {
    let mut view = AgentView::new(snapshot(1), 0);
    view.transcribe_voice(4, 9, &"chat-a".to_string(), &settings());
    assert_eq!(
        view.voice_utterance_cancelled(8),
        vec![AgentAction::CancelVoice { utterance_id: 8 }]
    );
    assert!(view.voice.transcription.is_some());
    assert_eq!(
        view.voice_utterance_cancelled(9),
        vec![
            AgentAction::CancelTranscription { revision: 4, utterance_id: 9 },
            AgentAction::CancelVoice { utterance_id: 9 },
        ]
    );
    assert_eq!(view.cancel_pending_voice(), vec![AgentAction::CancelPendingVoice]);
}

#[test]
fn voice_errors_are_reported() {
    let mut view = AgentView::new(snapshot(1), 0);
    assert_eq!(
        view.voice_failed("mic".to_string()),
        vec![
            AgentAction::StopSpeech,
            AgentAction::CancelPendingVoice,
            AgentAction::SetStatus(Some(AgentStatus::Text("mic".to_string()))),
            AgentAction::SyncSnapshot,
        ]
    );
}

#[test]
fn transcript_is_sent_while_it_is_wanted() {
    let mut view = AgentView::new(snapshot(1), 0);
    let (sent, actions) = view.send_voice_transcript(None, "a".to_string(), ALL);
    assert!(!sent);
    assert_eq!(actions, vec![]);
    let (sent, _) = view.send_voice_transcript(Some(language()), "a".to_string(), ALL);
    assert!(sent);
    assert_eq!(view.thinking_feedback(), Some(ThinkingFeedback::Voice));
    let actions = view.stop_voice_interaction();
    assert_eq!(
        actions,
        vec![
            AgentAction::CancelPendingVoice,
            AgentAction::StopSpeech,
            AgentAction::CancelReply,
            AgentAction::Notify,
        ]
    );
    assert_eq!(view.thinking_feedback(), None);
    assert_eq!(
        view.message_answered(1, Some("late".to_string())),
        vec![AgentAction::SetStatus(Some(AgentStatus::Text("late".to_string())))]
    );
}

#[test]
fn only_complete_answers_of_the_active_persona_are_spoken() {
    let mut view = AgentView::new(replying(1, ChatMessageState::Complete, "ok", "ok"), 0);
    let speaker = persona(None, Some("voice"));
    assert_eq!(
        view.start_speech(Some(&speaker), &settings()),
        vec![AgentAction::Synthesize { revision: 1, message: 1, model: 2 }]
    );
    assert_eq!(view.speech_finished(1, true), vec![AgentAction::PlaySpeech]);
    assert_eq!(view.start_speech(Some(&persona(None, None)), &settings()), vec![]);
    assert_eq!(view.start_speech(Some(&persona(None, Some("gone"))), &settings()), vec![]);
    assert_eq!(view.start_speech(None, &settings()), vec![]);
    let mut other = persona(None, Some("voice"));
    other.id = "persona-2".to_string();
    assert_eq!(view.start_speech(Some(&other), &settings()), vec![]);
    let mut writing = AgentView::new(replying(1, ChatMessageState::Streaming, "o", "o"), 0);
    assert_eq!(writing.start_speech(Some(&speaker), &settings()), vec![]);
}

#[test]
fn stopped_speech_is_not_played() {
    let mut view = AgentView::new(replying(1, ChatMessageState::Complete, "ok", "ok"), 0);
    let speaker = persona(None, Some("voice"));
    view.start_speech(Some(&speaker), &settings());
    assert_eq!(
        view.voice_input_pressed(),
        vec![AgentAction::AbortSpeech, AgentAction::StopSpeech]
    );
    assert_eq!(view.speech_finished(1, true), vec![]);
    view.start_speech(Some(&speaker), &settings());
    view.set_suspended(true);
    let revision = view.voice.speech_revision;
    assert_eq!(view.speech_finished(revision, true), vec![]);
    assert!(!view.voice.speech_running);
}

#[test]
fn outfits_outdate_earlier_requests() {
    let mut view = AgentView::new(snapshot(1), 0);
    view.set_available_outfits(vec!["coat".to_string()]);
    assert!(view.outfit_request_is_current(1, false));
    assert!(!view.outfit_request_is_current(1, true));
    view.set_available_outfits(Vec::new());
    assert!(!view.outfit_request_is_current(1, false));
}

#[test]
fn input_bar_follows_the_conversation() {
    let mut view = AgentView::new(snapshot(1), 0);
    assert_eq!(view.input_bar(), None);
    assert_eq!(
        view.set_input_visible(true),
        vec![AgentAction::RefreshSettings, AgentAction::FocusInput]
    );
    let bar = view.input_bar().unwrap();
    assert_eq!(bar.image_control, ImageControl::Attach);
    assert!(bar.enabled && !bar.stops && !bar.breathing);
    assert!(view.reserves_bottom());
    view.choose_image();
    view.image_loaded(1, Ok(Some(5)));
    view.send_message("a".to_string(), None, language(), Some(ThinkingFeedback::Text), NOTHING);
    view.sync_agent_snapshot(replying(2, ChatMessageState::Streaming, "", ""));
    let bar = view.input_bar().unwrap();
    assert_eq!(bar.image_control, ImageControl::Remove { image: 5 });
    assert!(!bar.enabled && bar.stops && bar.breathing);
    assert_eq!(view.set_input_visible(false), vec![AgentAction::Notify]);
    assert!(!view.reserves_bottom());
    assert_eq!(view.set_voice_indicator_visible(true), vec![AgentAction::Notify]);
    assert_eq!(view.set_voice_indicator_visible(true), vec![]);
    assert!(view.reserves_bottom());
}

#[test]
fn stopping_shows_the_answer_as_it_is() {
    let view = AgentView::new(snapshot(1), 0);
    assert_eq!(view.stop(), vec![AgentAction::CancelReply]);
    assert_eq!(
        view.reply_stopped(true),
        vec![AgentAction::SyncSnapshot, AgentAction::PlanFade]
    );
    assert_eq!(view.reply_stopped(false), vec![]);
}

#[test]
fn screenshots_need_a_permission_that_still_holds() {
    assert_eq!(host_screenshot_capability(None), None);
    let capability = host_screenshot_capability(Some(3)).unwrap();
    assert!(capability.is_authorized(Some(3)));
    assert_eq!(capability.begin_capture(Some(3)), Ok(()));
    assert_eq!(capability.begin_capture(None), Err(ImageInputError::ScreenCapture));
    assert_eq!(capability.begin_capture(Some(4)), Err(ImageInputError::ScreenCapture));
    assert!(capability.awaits_revocation(Some(3), true));
    assert!(!capability.awaits_revocation(Some(3), false));
    assert!(!capability.awaits_revocation(Some(4), true));
    assert_eq!(finish_capture(Some(Ok(9))), Ok(9));
    assert_eq!(
        finish_capture(Some(Err(ImageInputError::Failed("denied".to_string())))),
        Err(ImageInputError::Failed("denied".to_string()))
    );
    assert_eq!(finish_capture(None), Err(ImageInputError::ScreenCapture));
}
