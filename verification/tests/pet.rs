use lunamate_ui::agent::message::AppLanguage;
use lunamate_ui::agent::reply::ThinkingFeedback;
use lunamate_ui::desktop_pet::events::{PetSetup, SettingsEvent, SpeechEvent};
use lunamate_ui::desktop_pet::generation::{
    FrameOutcome, LoadedModelGeneration, ModelGenerationLoadError, ModelLoadError, RenderError,
};
use lunamate_ui::desktop_pet::gpu_events::{GpuUnderlayEvent, PresentedFrame};
use lunamate_ui::desktop_pet::gpu_lifecycle::AttachOutcome;
use lunamate_ui::desktop_pet::model_task::model_generation_can_be_reused;
use lunamate_ui::desktop_pet::render::ViewportRasters;
use lunamate_ui::desktop_pet::shortcut::{ResolvedShortcut, ShortcutAction};
use lunamate_ui::desktop_pet::state::{
    model_display_name, ChatRequest, DesktopPetView, FrameRef, LoadErrorText, ModelCommand,
    ModelLabel, ModelLoadState, ModelMessage, ModelName, ModelPath, ModelWindowSize, OutfitAction,
    PetAction, RasterSize, VoiceMode, VoicePhase,
};
use lunamate_ui::desktop_pet::voice::VoiceEvent;
use lunamate_ui::desktop_pet::window::MAX_WINDOW_RESIZE_ATTEMPTS;

const TALK: VoiceMode = VoiceMode { enabled: true, push_to_talk: true };
const ENGLISH: AppLanguage = AppLanguage { index: 0 };
const GERMAN: AppLanguage = AppLanguage { index: 1 };
const SMALL: RasterSize = RasterSize { width: 10, height: 20 };
const LARGE: RasterSize = RasterSize { width: 100, height: 200 };

fn path(name: &str) -> ModelPath {
    ModelPath {
        location: format!("models/{name}"),
        file_name: Some(format!("{name}.model3.json")),
    }
}

fn label(name: &str) -> ModelLabel {
    ModelLabel { model: Some(path(name)), language: ENGLISH }
}

fn setup(underlay: AttachOutcome) -> PetSetup {
    PetSetup {
        cursor_tracker_available: true,
        eye_tracking_enabled: true,
        show_fps: false,
        underlay,
        tray_available: true,
        voice_available: true,
        playback_available: true,
        voice_mode: TALK,
        voice_revision: 5,
        voice_phase: VoicePhase::Idle,
        shortcuts_available: true,
        shortcut_errors: vec![],
        chat_overlay_visible: false,
        chat_thinking_feedback: None,
        raster: SMALL,
        gpu_raster: LARGE,
        initial_model: Some(path("fox")),
        language: ENGLISH,
    }
}

fn on_cpu() -> DesktopPetView {
    DesktopPetView::new(setup(AttachOutcome::Unsupported)).0
}

fn on_gpu() -> DesktopPetView {
    DesktopPetView::new(setup(AttachOutcome::Attached)).0
}

fn frame(serial: u64) -> FrameRef {
    FrameRef { serial, image: Some(serial) }
}

fn loaded(serial: u64) -> LoadedModelGeneration {
    LoadedModelGeneration { frame: frame(serial), diagnostics_summary: None }
}

fn showing_on_cpu() -> DesktopPetView {
    let mut pet = on_cpu();
    pet.finish_cpu_load(1, label("fox"), Ok(loaded(1)));
    pet
}

fn showing_on_gpu() -> DesktopPetView {
    let mut pet = on_gpu();
    pet.handle_gpu_event(GpuUnderlayEvent::ModelLoaded {
        generation: 1,
        frame: FrameRef { serial: 1, image: None },
        diagnostics_summary: None,
        latest: None,
    });
    pet
}

#[test]
fn models_are_called_after_their_files() {
    assert_eq!(model_display_name(&path("fox"), GERMAN), ModelName::Named("fox".to_string()));
    let mut odd = path("fox");
    odd.file_name = Some(".model3.json".to_string());
    assert_eq!(model_display_name(&odd, GERMAN), ModelName::Unnamed(GERMAN));
    odd.file_name = Some("fox.json".to_string());
    assert_eq!(model_display_name(&odd, GERMAN), ModelName::Unnamed(GERMAN));
    odd.file_name = None;
    assert_eq!(model_display_name(&odd, GERMAN), ModelName::Unnamed(GERMAN));
}

#[test]
fn generations_are_reused_for_the_same_model() {
    let fox = Some(path("fox"));
    let cat = Some(path("cat"));
    assert!(model_generation_can_be_reused(&fox, &fox, true, false));
    assert!(model_generation_can_be_reused(&None, &None, true, false));
    assert!(!model_generation_can_be_reused(&fox, &fox, true, true));
    assert!(!model_generation_can_be_reused(&fox, &fox, false, false));
    assert!(!model_generation_can_be_reused(&fox, &cat, true, false));
    assert!(!model_generation_can_be_reused(&fox, &None, true, false));
    let mut spelled = path("fox");
    spelled.location = "models//./fox/".to_string();
    assert!(model_generation_can_be_reused(&fox, &Some(spelled), true, false));
}

#[test]
fn window_starts_with_its_first_model() {
    let (pet, actions) = DesktopPetView::new(setup(AttachOutcome::Unsupported));
    assert_eq!(pet.model.generation, 1);
    assert_eq!(pet.model.state, ModelLoadState::Loading(label("fox")));
    assert_eq!(pet.window.raster, SMALL);
    assert_eq!(
        actions,
        vec![
            PetAction::SyncTrayAppearance,
            PetAction::ResetFrameRateMeter,
            PetAction::ResetLookTarget { wake_underlay: false, wake_model: false },
            PetAction::ClearPreviewCapabilities,
            PetAction::ClearAgentOutfits,
            PetAction::Notify,
            PetAction::StartCpuModel { generation: 1 },
        ]
    );
    let (pet, actions) = DesktopPetView::new(setup(AttachOutcome::Attached));
    assert_eq!(pet.window.raster, LARGE);
    assert_eq!(actions[1], PetAction::StartUnderlayEvents);
    assert_eq!(
        actions.last(),
        Some(&PetAction::LoadOnUnderlay { generation: 1, has_model: true })
    );
    let mut broken = setup(AttachOutcome::Failed);
    broken.shortcut_errors = vec!["taken".to_string()];
    let (pet, actions) = DesktopPetView::new(broken);
    assert!(pet.underlay.cpu_fallback_pending);
    assert_eq!(actions[0], PetAction::ReportShortcutErrors);
}

#[test]
fn same_model_is_loaded_once() {
    let mut pet = on_cpu();
    assert_eq!(pet.load_model(Some(path("fox"))), vec![]);
    assert_eq!(pet.model.generation, 1);
    assert!(!pet.reload_model(Some(path("fox"))).is_empty());
    assert_eq!(pet.model.generation, 2);
    pet.load_model(None);
    assert_eq!(pet.model.state, ModelLoadState::NoModel);
    assert_eq!(pet.model.generation, 3);
    assert!(!pet.model.task && !pet.model.commands);
    pet.load_model(None);
    assert_eq!(pet.model.generation, 4);
}

#[test]
fn loaded_model_is_shown_and_followed() {
    let mut pet = on_cpu();
    assert_eq!(pet.finish_cpu_load(9, label("fox"), Ok(loaded(1))), (false, vec![]));
    let (wanted, actions) = pet.finish_cpu_load(1, label("fox"), Ok(loaded(1)));
    assert!(wanted);
    assert_eq!(
        actions,
        vec![
            PetAction::StartCursorTracking,
            PetAction::PublishPreviewCapabilities,
            PetAction::PublishAgentOutfits,
            PetAction::Notify,
        ]
    );
    assert_eq!(pet.scene().frame, Some(frame(1)));
    assert_eq!(pet.scene().message, None);
    let (wanted, actions) =
        pet.finish_frame(1, label("fox"), FrameOutcome::Rendered(frame(2)));
    assert!(wanted);
    assert_eq!(actions, vec![PetAction::Notify]);
    assert_eq!(pet.paint.frame, Some(frame(2)));
}

#[test]
fn load_errors_are_shown_unless_called_off() {
    let mut pet = on_cpu();
    let cancelled = ModelGenerationLoadError::Model(ModelLoadError {
        cancelled: true,
        text: "stop".to_string(),
    });
    assert_eq!(pet.finish_cpu_load(1, label("fox"), Err(cancelled)), (false, vec![]));
    let failed = ModelGenerationLoadError::InitialFrame(RenderError {
        cancelled: false,
        text: "black".to_string(),
    });
    let (wanted, actions) = pet.finish_cpu_load(1, label("fox"), Err(failed));
    assert!(!wanted);
    assert_eq!(
        actions,
        vec![
            PetAction::ClearPreviewCapabilities,
            PetAction::ClearAgentOutfits,
            PetAction::CloseModelWake,
            PetAction::CloseFrameRateWake,
            PetAction::Notify,
        ]
    );
    let message = pet.scene().message.unwrap();
    assert_eq!(
        message,
        ModelMessage::LoadFailed {
            label: label("fox"),
            error: LoadErrorText::InitialFrame("black".to_string()),
            language: ENGLISH,
        }
    );
    assert_eq!(message.model_name(), Some(ModelName::Named("fox".to_string())));
    pet.load_model(Some(path("fox")));
    assert_eq!(pet.model.generation, 2);
}

#[test]
fn render_errors_end_the_generation() {
    let mut pet = showing_on_cpu();
    let quiet = RenderError { cancelled: true, text: "stop".to_string() };
    assert_eq!(pet.finish_frame(1, label("fox"), FrameOutcome::Failed(quiet)), (false, vec![]));
    let loud = RenderError { cancelled: false, text: "lost".to_string() };
    let (wanted, actions) = pet.finish_frame(1, label("fox"), FrameOutcome::Failed(loud));
    assert!(!wanted);
    assert_eq!(actions[0], PetAction::StopCursorTracking);
    assert!(actions.contains(&PetAction::CancelModel));
    assert_eq!(
        pet.model.state,
        ModelLoadState::Failed(ModelMessage::RenderFailed {
            label: label("fox"),
            error: "lost".to_string(),
            language: ENGLISH,
        })
    );
}

#[test]
fn warnings_hide_behind_the_chat() {
    let mut pet = on_cpu();
    let mut generation = loaded(1);
    generation.diagnostics_summary = Some("2 files".to_string());
    pet.finish_cpu_load(1, label("fox"), Ok(generation));
    let warning = ModelMessage::LoadedWithWarnings {
        summary: "2 files".to_string(),
        language: ENGLISH,
    };
    assert_eq!(warning.worded_in(), Some(ENGLISH));
    assert_eq!(pet.scene().warning, Some(warning));
    pet.handle_settings_event(SettingsEvent::AppearanceChanged {
        language: GERMAN,
        diagnostics_summary: Some("2 Dateien".to_string()),
    });
    assert_eq!(
        pet.scene().warning,
        Some(ModelMessage::LoadedWithWarnings {
            summary: "2 Dateien".to_string(),
            language: GERMAN,
        })
    );
    pet.set_chat_input_open(true);
    let scene = pet.scene();
    assert!(scene.warning.is_none() && scene.chat_panel && !scene.settings_button);
}

#[test]
fn failure_stays_in_the_language_of_its_moment() {
    let speak = |pet: &mut DesktopPetView, language| {
        pet.handle_settings_event(SettingsEvent::AppearanceChanged {
            language,
            diagnostics_summary: Some("ignored".to_string()),
        });
    };
    let lost = || {
        ModelGenerationLoadError::Model(ModelLoadError {
            cancelled: false,
            text: "lost".to_string(),
        })
    };
    let mut nameless = path("cat");
    nameless.file_name = None;
    let mut pet = on_cpu();
    pet.load_model(Some(nameless.clone()));
    let loading = pet.scene().message.unwrap();
    assert_eq!(loading.model_name(), Some(ModelName::Unnamed(ENGLISH)));
    assert_eq!(loading.worded_in(), None);
    speak(&mut pet, GERMAN);
    assert_eq!(pet.scene().message, Some(loading));
    let label = ModelLabel { model: Some(nameless), language: ENGLISH };
    pet.finish_cpu_load(2, label.clone(), Err(lost()));
    let failed = pet.scene().message.unwrap();
    assert_eq!(
        failed,
        ModelMessage::LoadFailed {
            label,
            error: LoadErrorText::Plain("lost".to_string()),
            language: GERMAN,
        }
    );
    assert_eq!(failed.model_name(), Some(ModelName::Unnamed(ENGLISH)));
    assert_eq!(failed.worded_in(), Some(GERMAN));
    speak(&mut pet, ENGLISH);
    assert_eq!(pet.scene().message, Some(failed));
    assert_eq!(pet.scene().warning, None);
}

#[test]
fn model_that_fails_without_a_path_has_the_stand_in() {
    let label = ModelLabel { model: None, language: GERMAN };
    assert_eq!(label.name(), ModelName::Unnamed(GERMAN));
}

#[test]
fn worker_reports_reach_the_current_generation_only() {
    let mut pet = on_gpu();
    let (go_on, actions) = pet.handle_gpu_event(GpuUnderlayEvent::ModelGpuFailed { generation: 7 });
    assert!(go_on && actions.is_empty());
    let (go_on, actions) = pet.handle_gpu_event(GpuUnderlayEvent::ModelLoaded {
        generation: 1,
        frame: frame(1),
        diagnostics_summary: None,
        latest: Some(PresentedFrame { generation: 1, frame: frame(4) }),
    });
    assert!(go_on);
    assert_eq!(pet.paint.frame, Some(frame(4)));
    assert_eq!(actions[0], PetAction::StartCursorTracking);
    let (_, actions) = pet.handle_gpu_event(GpuUnderlayEvent::FrameAvailable {
        generation: 1,
        latest: Some(PresentedFrame { generation: 0, frame: frame(5) }),
    });
    assert!(actions.is_empty());
    assert_eq!(pet.paint.frame, Some(frame(4)));
}

#[test]
fn presented_frames_are_counted_where_the_counter_is_shown() {
    let mut pet = on_gpu();
    pet.handle_settings_event(SettingsEvent::ShowFpsChanged(true));
    let (_, actions) = pet.handle_gpu_event(GpuUnderlayEvent::ModelLoaded {
        generation: 1,
        frame: frame(1),
        diagnostics_summary: None,
        latest: Some(PresentedFrame { generation: 1, frame: frame(2) }),
    });
    assert_eq!(actions[0], PetAction::RecordEventFrame);
    assert_eq!(actions[1], PetAction::RecordTakenFrame);
    let (_, actions) = pet.handle_gpu_event(GpuUnderlayEvent::FrameAvailable {
        generation: 1,
        latest: Some(PresentedFrame { generation: 1, frame: frame(3) }),
    });
    assert_eq!(actions, vec![PetAction::RecordTakenFrame]);
}

#[test]
fn model_that_fails_on_the_worker_is_reported() {
    let mut pet = on_gpu();
    let (go_on, _) = pet.handle_gpu_event(GpuUnderlayEvent::ModelLoadFailed {
        generation: 1,
        error: "bad file".to_string(),
    });
    assert!(go_on && !pet.model.commands);
    assert_eq!(
        pet.model.state,
        ModelLoadState::Failed(ModelMessage::LoadFailed {
            label: label("fox"),
            error: LoadErrorText::Plain("bad file".to_string()),
            language: ENGLISH,
        })
    );
}

#[test]
fn failing_worker_leaves_the_model_to_the_processor() {
    let mut pet = showing_on_gpu();
    let (go_on, actions) = pet.handle_gpu_event(GpuUnderlayEvent::Unavailable);
    assert!(!go_on);
    assert_eq!(
        actions,
        vec![
            PetAction::CancelModel,
            PetAction::StopUnderlayEvents,
            PetAction::StopCursorTracking,
            PetAction::BeginUnderlayShutdown { generation: 1 },
        ]
    );
    assert!(pet.underlay.shutdown_pending && !pet.underlay.attached);
    let actions = pet.finish_gpu_shutdown(1, Some(path("fox")));
    assert_eq!(actions.last(), Some(&PetAction::StartCpuModel { generation: 2 }));
    assert_eq!(pet.window.raster, SMALL);
    assert!(pet.model.task);
}

#[test]
fn worker_that_falls_silent_is_given_up() {
    let mut pet = showing_on_gpu();
    let actions = pet.gpu_event_channel_closed();
    assert!(actions.contains(&PetAction::BeginUnderlayShutdown { generation: 1 }));
    assert!(!pet.underlay.events);
    assert_eq!(pet.gpu_event_channel_closed(), vec![]);
}

#[test]
fn hidden_pet_releases_its_worker_and_shown_pet_takes_it_back() {
    let mut pet = showing_on_gpu();
    let actions = pet.set_desktop_pet_visible(false, TALK);
    assert_eq!(actions[0], PetAction::SetTrayHidden(true));
    assert_eq!(actions[1], PetAction::Chat(ChatRequest::Suspend));
    assert!(actions.contains(&PetAction::ConfigureVoice { off: true }));
    assert!(actions.contains(&PetAction::PauseUnderlay));
    assert!(actions.contains(&PetAction::BeginUnderlayShutdown { generation: 1 }));
    assert_eq!(actions.last(), Some(&PetAction::Notify));
    assert!(pet.underlay.released_for_hidden && pet.underlay.restart_cpu);
    assert_eq!(pet.paint.frame, None);
    assert_eq!(pet.set_desktop_pet_visible(false, TALK), vec![]);

    let actions = pet.set_desktop_pet_visible(true, TALK);
    assert!(actions.contains(&PetAction::ConfigureVoice { off: false }));
    assert!(!actions.contains(&PetAction::AttachUnderlay));
    assert!(pet.underlay.restore_pending && !pet.underlay.restart_cpu);
    let actions = pet.finish_gpu_shutdown(1, Some(path("fox")));
    assert_eq!(actions, vec![PetAction::AttachUnderlay]);
    let actions = pet.restore_gpu_underlay(AttachOutcome::Attached);
    assert_eq!(actions[0], PetAction::StartUnderlayEvents);
    assert_eq!(
        actions.last(),
        Some(&PetAction::LoadOnUnderlay { generation: 2, has_model: true })
    );
    assert!(pet.underlay.attached && !pet.underlay.released_for_hidden);
}

#[test]
fn pet_that_stays_hidden_goes_on_on_the_processor() {
    let mut pet = showing_on_gpu();
    pet.set_desktop_pet_visible(false, TALK);
    let actions = pet.finish_gpu_shutdown(1, Some(path("fox")));
    assert_eq!(actions.last(), Some(&PetAction::StartCpuModel { generation: 2 }));
    let actions = pet.set_desktop_pet_visible(true, TALK);
    assert!(actions.contains(&PetAction::AttachUnderlay));
    assert_eq!(pet.restore_gpu_underlay(AttachOutcome::Failed), vec![]);
    assert!(pet.model.task && !pet.underlay.released_for_hidden);
    assert_eq!(pet.restore_gpu_underlay(AttachOutcome::Attached), vec![]);
}

#[test]
fn visibility_follows_the_platform() {
    let mut pet = on_cpu();
    let (result, actions) = pet.toggle_desktop_pet_visibility(Err("no".to_string()), TALK);
    assert_eq!(result, Err("no".to_string()));
    assert!(actions.is_empty() && pet.window.visible);
    assert_eq!(
        pet.sync_desktop_pet_visibility_to_tray(),
        vec![PetAction::SetTrayHidden(false)]
    );
    let (result, actions) = pet.toggle_desktop_pet_visibility(Ok(()), TALK);
    assert_eq!(result, Ok(false));
    assert!(actions.contains(&PetAction::WakeFrameRate));
    assert_eq!(pet.window.visibility_revision, 1);
}

#[test]
fn images_are_released_when_they_leave_the_screen() {
    let mut pet = showing_on_cpu();
    assert_eq!(pet.track_frame(), vec![]);
    pet.finish_frame(1, label("fox"), FrameOutcome::Rendered(frame(2)));
    assert_eq!(pet.track_frame(), vec![]);
    pet.finish_frame(1, label("fox"), FrameOutcome::Rendered(frame(3)));
    assert_eq!(pet.track_frame(), vec![PetAction::DropImage(1)]);
    assert_eq!(pet.track_frame(), vec![PetAction::DropImage(2)]);
    assert_eq!(pet.track_frame(), vec![]);
    assert_eq!(pet.paint.release_rendered_images(), vec![PetAction::DropImage(3)]);
    pet.paint.current_image = Some(8);
    pet.paint.previous_image = Some(7);
    assert_eq!(
        pet.paint.release_rendered_images(),
        vec![PetAction::DropImage(7), PetAction::DropImage(8)]
    );
}

#[test]
fn painted_frames_are_counted_once() {
    let mut pet = showing_on_cpu();
    pet.handle_settings_event(SettingsEvent::ShowFpsChanged(true));
    assert_eq!(pet.track_frame(), vec![PetAction::RecordPaintedFrame]);
    assert_eq!(pet.track_frame(), vec![]);
    assert_eq!(
        pet.handle_settings_event(SettingsEvent::ShowFpsChanged(false)),
        vec![
            PetAction::ResetFrameRateMeter,
            PetAction::StopFpsSampling,
            PetAction::Notify,
        ]
    );
    assert_eq!(pet.handle_settings_event(SettingsEvent::ShowFpsChanged(false)), vec![]);
}

#[test]
fn clicks_are_held_against_what_is_seen() {
    let mut pet = showing_on_gpu();
    pet.paint.frame = Some(FrameRef { serial: 9, image: None });
    assert_eq!(
        pet.hit_frame(FrameRef { serial: 1, image: None }),
        Some(FrameRef { serial: 9, image: None })
    );
    assert_eq!(pet.hit_frame(frame(3)), Some(frame(3)));
    let hit = Some("head".to_string());
    assert_eq!(
        pet.send_hit_area_event_at(1, hit.clone()),
        vec![PetAction::Chat(ChatRequest::ModelClicked { part_name: "head".to_string() })]
    );
    assert_eq!(pet.send_hit_area_event_at(1, None), vec![]);
    assert_eq!(pet.send_hit_area_event_at(0, hit.clone()), vec![]);
    pet.set_chat_input_open(true);
    assert_eq!(pet.send_hit_area_event_at(1, hit), vec![]);
}

#[test]
fn window_closes_once_no_worker_holds_it() {
    let mut pet = showing_on_cpu();
    let (at_once, actions) = pet.request_window_close();
    assert!(at_once);
    assert_eq!(
        actions,
        vec![
            PetAction::SetPushToTalk(false),
            PetAction::RequestVoiceShutdown,
            PetAction::Chat(ChatRequest::CancelPendingVoice),
            PetAction::Chat(ChatRequest::SetVoiceIndicator(false)),
            PetAction::StopPlayback,
            PetAction::StopCursorTracking,
            PetAction::CancelModel,
            PetAction::CloseModelWake,
            PetAction::CloseFrameRateWake,
        ]
    );
    let mut pet = showing_on_gpu();
    let (at_once, actions) = pet.request_window_close();
    assert!(!at_once);
    assert_eq!(
        actions.last(),
        Some(&PetAction::BeginUnderlayShutdown { generation: 1 })
    );
    let (at_once, actions) = pet.request_window_close();
    assert!(!at_once && !actions.contains(&PetAction::RemoveWindow));
    assert_eq!(pet.finish_gpu_shutdown(1, None), vec![PetAction::RemoveWindow]);
}

#[test]
fn quitting_starts_nothing_anew() {
    let mut pet = showing_on_gpu();
    let actions = pet.shutdown_gpu_for_quit();
    assert_eq!(actions.last(), Some(&PetAction::ShutdownUnderlay));
    assert!(pet.underlay.quitting && !pet.underlay.attached);
    let (_, actions) = pet.handle_gpu_event(GpuUnderlayEvent::Unavailable);
    assert!(!actions.contains(&PetAction::StartCpuModel { generation: 2 }));
    assert_eq!(pet.model.generation, 1);
    let mut hiding = showing_on_gpu();
    hiding.set_desktop_pet_visible(false, TALK);
    let actions = hiding.shutdown_gpu_for_quit();
    assert_eq!(actions.last(), Some(&PetAction::AwaitUnderlayShutdown));
    assert_eq!(hiding.finish_gpu_shutdown(1, Some(path("fox"))), vec![]);
}

#[test]
fn released_window_lets_go_of_everything() {
    let mut pet = showing_on_gpu();
    pet.tray_menu_opened(Some(3), true);
    let actions = pet.on_release();
    assert_eq!(
        actions,
        vec![
            PetAction::CancelModel,
            PetAction::ShutdownUnderlay,
            PetAction::RequestVoiceShutdown,
            PetAction::StopPlayback,
            PetAction::CloseTrayMenuWindow(3),
        ]
    );
    assert!(!pet.shortcuts.available && !pet.underlay.attached);
}

#[test]
fn refused_size_is_given_up() {
    let mut pet = showing_on_cpu();
    let size = ModelWindowSize { preset: 2 };
    assert_eq!(
        pet.apply_pending_model_window_size(true, LARGE, LARGE),
        (false, vec![])
    );
    pet.request_model_window_size(size);
    for attempt in 0..MAX_WINDOW_RESIZE_ATTEMPTS {
        assert_eq!(pet.window.pending_size_attempts, attempt);
        assert_eq!(
            pet.apply_pending_model_window_size(false, LARGE, LARGE),
            (true, vec![PetAction::ResizeWindow(size)])
        );
    }
    let (pending, actions) = pet.apply_pending_model_window_size(false, LARGE, LARGE);
    assert!(pending);
    assert_eq!(actions.last(), Some(&PetAction::StartCpuModel { generation: 2 }));
    assert_eq!(pet.window.pending_size, None);
    assert_eq!(pet.window.raster, LARGE);
}

#[test]
fn pending_size_goes_before_the_viewport() {
    let mut pet = showing_on_cpu();
    let small = ViewportRasters { gpu: SMALL, cpu: SMALL };
    let large = ViewportRasters { gpu: LARGE, cpu: LARGE };
    assert_eq!(pet.prepare_render(false, large, true, small), vec![]);
    assert_eq!(pet.window.gpu_raster, SMALL);
    pet.request_model_window_size(ModelWindowSize { preset: 1 });
    assert_eq!(
        pet.prepare_render(false, large, true, small),
        vec![PetAction::ResizeWindow(ModelWindowSize { preset: 1 })]
    );
    let actions = pet.prepare_render(true, large, true, small);
    assert_eq!(actions.last(), Some(&PetAction::StartCpuModel { generation: 2 }));
    assert_eq!(pet.window.cpu_raster, LARGE);
    let actions = pet.prepare_render(true, large, true, small);
    assert_eq!(actions.last(), Some(&PetAction::StartCpuModel { generation: 3 }));
    assert_eq!(pet.window.raster, SMALL);
}

#[test]
fn chat_input_comes_up_in_a_visible_window() {
    let mut pet = showing_on_cpu();
    assert_eq!(
        pet.toggle_chat_input(),
        vec![
            PetAction::ActivateWindow,
            PetAction::ResetLookTarget { wake_underlay: false, wake_model: true },
            PetAction::StopCursorTracking,
            PetAction::Chat(ChatRequest::SetInputVisible(true)),
            PetAction::Notify,
        ]
    );
    assert_eq!(
        pet.set_chat_input_open(true),
        vec![
            PetAction::ActivateWindow,
            PetAction::Chat(ChatRequest::SetInputVisible(true)),
        ]
    );
    assert_eq!(
        pet.toggle_chat_input_from_shortcut(true, TALK),
        vec![
            PetAction::StartCursorTracking,
            PetAction::Chat(ChatRequest::SetInputVisible(false)),
            PetAction::Notify,
        ]
    );
    pet.set_desktop_pet_visible(false, TALK);
    assert_eq!(pet.open_chat_input(false, TALK), vec![]);
    assert!(!pet.chat.input_open && !pet.window.visible);
    let actions = pet.toggle_chat_input_from_shortcut(true, TALK);
    assert!(pet.chat.input_open && pet.window.visible);
    assert_eq!(actions[0], PetAction::SetTrayHidden(false));
    assert_eq!(actions.last(), Some(&PetAction::Notify));
}

#[test]
fn settings_window_is_opened_once() {
    let mut pet = on_cpu();
    assert_eq!(pet.open_config_window(true), vec![PetAction::OpenConfigWindow]);
    pet.config_window_opened(Some(4));
    assert_eq!(pet.open_config_window(true), vec![]);
    assert_eq!(pet.open_config_window(false), vec![PetAction::OpenConfigWindow]);
    pet.config_window_opened(None);
    assert_eq!(pet.window.config_window, Some(4));
    assert_eq!(pet.toggle_config_window(true), vec![]);
    assert_eq!(pet.window.config_window, None);
    assert_eq!(pet.toggle_config_window(true), vec![PetAction::OpenConfigWindow]);
}

#[test]
fn tray_menu_falls_back_to_the_platform() {
    let mut pet = on_cpu();
    assert_eq!(
        pet.toggle_tray_menu(false, true),
        vec![PetAction::OpenTrayMenuWindow { pet_hidden: false }]
    );
    assert_eq!(pet.tray_menu_opened(None, true), vec![PetAction::ShowNativeTrayMenu]);
    assert_eq!(
        pet.tray_menu_opened(Some(3), false),
        vec![PetAction::CloseTrayMenuWindow(3), PetAction::ShowNativeTrayMenu]
    );
    assert_eq!(
        pet.tray_menu_opened(Some(3), true),
        vec![PetAction::ShowTrayMenuWindow(3)]
    );
    assert!(pet.tray_menu_is_current(3) && !pet.tray_menu_is_current(2));
    assert_eq!(pet.tray_menu_show_failed(2), vec![]);
    assert_eq!(
        pet.tray_menu_show_failed(3),
        vec![PetAction::CloseTrayMenuWindow(3), PetAction::ShowNativeTrayMenu]
    );
    pet.tray_menu_opened(Some(5), true);
    assert_eq!(pet.toggle_tray_menu(false, true), vec![]);
    pet.tray_menu_opened(Some(6), true);
    assert_eq!(
        pet.toggle_tray_menu(true, true),
        vec![PetAction::CloseTrayMenuWindow(6), PetAction::ShowNativeTrayMenu]
    );
    pet.window.tray_available = false;
    assert_eq!(pet.toggle_tray_menu(true, true), vec![]);
}

#[test]
fn voice_events_count_under_their_configuration_only() {
    let mut pet = on_cpu();
    let voice = &mut pet.voice;
    assert_eq!(
        voice.handle_voice_event(VoiceEvent::SpeechStarted { revision: 4, utterance_id: 1 }),
        vec![]
    );
    assert_eq!(
        voice.handle_voice_event(VoiceEvent::SpeechStarted { revision: 5, utterance_id: 1 }),
        vec![
            PetAction::StopPlayback,
            PetAction::Chat(ChatRequest::VoiceSpeechStarted { utterance_id: 1 }),
        ]
    );
    assert_eq!(
        voice.handle_voice_event(VoiceEvent::ActivityChanged {
            revision: 5,
            phase: VoicePhase::Recording,
        }),
        vec![
            PetAction::Chat(ChatRequest::SetVoiceIndicator(true)),
            PetAction::StartVoiceLevels,
            PetAction::Notify,
        ]
    );
    assert_eq!(
        voice.handle_voice_event(VoiceEvent::ActivityChanged {
            revision: 5,
            phase: VoicePhase::Transcribing,
        }),
        vec![
            PetAction::Chat(ChatRequest::SetVoiceIndicator(true)),
            PetAction::StopVoiceLevels,
            PetAction::Notify,
        ]
    );
    assert_eq!(
        voice.handle_voice_event(VoiceEvent::UtteranceCancelled { revision: 5, utterance_id: 2 }),
        vec![PetAction::Chat(ChatRequest::VoiceUtteranceCancelled { utterance_id: 2 })]
    );
    assert_eq!(
        voice.handle_voice_event(VoiceEvent::TranscriptReady {
            revision: 5,
            utterance_id: 2,
            text: "hi".to_string(),
        }),
        vec![PetAction::Chat(ChatRequest::VoiceTranscript {
            utterance_id: 2,
            text: "hi".to_string(),
        })]
    );
    assert_eq!(
        voice.handle_voice_event(VoiceEvent::TranscriptionRequested {
            revision: 5,
            utterance_id: 2,
            model_id: "w".to_string(),
        }),
        vec![PetAction::Chat(ChatRequest::TranscribeVoice {
            revision: 5,
            utterance_id: 2,
            model_id: "w".to_string(),
        })]
    );
    assert_eq!(
        voice.handle_voice_event(VoiceEvent::Error { revision: 5, message: "e".to_string() }),
        vec![PetAction::Chat(ChatRequest::VoiceFailed { message: "e".to_string() })]
    );
    voice.voice_configured(6);
    assert_eq!(
        voice.handle_voice_event(VoiceEvent::Error { revision: 5, message: "e".to_string() }),
        vec![]
    );
}

#[test]
fn sampled_levels_end_with_the_recording() {
    let mut pet = on_cpu();
    assert_eq!(
        pet.voice.sample_voice_level(VoicePhase::Recording),
        (true, vec![PetAction::Notify])
    );
    assert_eq!(pet.voice.sample_voice_level(VoicePhase::Idle), (false, vec![]));
}

#[test]
fn ended_sampling_waits_for_the_next_activity() {
    let mut pet = on_cpu();
    let activity = |phase| VoiceEvent::ActivityChanged { revision: 5, phase };
    pet.voice.handle_voice_event(activity(VoicePhase::Recording));
    assert!(pet.voice.levels);
    assert_eq!(pet.voice.sample_voice_level(VoicePhase::Idle), (false, vec![]));
    assert!(pet.voice.levels);
    assert_eq!(
        pet.voice.handle_voice_event(activity(VoicePhase::Recording)),
        vec![PetAction::Chat(ChatRequest::SetVoiceIndicator(true)), PetAction::Notify]
    );
    pet.voice.handle_voice_event(activity(VoicePhase::Idle));
    assert!(!pet.voice.levels);
}

#[test]
fn held_talk_key_is_let_go_when_time_is_up() {
    let mut pet = on_cpu();
    pet.voice.set_voice_shortcut_pressed(true);
    assert_eq!(
        pet.voice.release_voice_shortcut(),
        vec![PetAction::StopVoiceReleaseTimer, PetAction::SetPushToTalk(false)]
    );
    assert!(!pet.voice.release_timer);
    assert_eq!(pet.voice.release_voice_shortcut(), vec![PetAction::SetPushToTalk(false)]);
}

#[test]
fn talk_key_is_let_go_in_the_end() {
    let mut pet = on_cpu();
    assert_eq!(
        pet.voice.set_voice_shortcut_pressed(true),
        vec![
            PetAction::SetPushToTalk(false),
            PetAction::Chat(ChatRequest::VoiceInputPressed),
            PetAction::SetPushToTalk(true),
            PetAction::StartVoiceReleaseTimer,
        ]
    );
    assert!(pet.voice.release_timer);
    assert_eq!(pet.window_activation_changed(true), vec![]);
    assert_eq!(
        pet.window_activation_changed(false),
        vec![PetAction::StopVoiceReleaseTimer, PetAction::SetPushToTalk(false)]
    );
    pet.voice.apply_voice_settings(VoiceMode { enabled: true, push_to_talk: false }, true);
    assert_eq!(pet.voice.set_voice_shortcut_pressed(true), vec![]);
}

#[test]
fn stopped_exchange_is_cancelled_everywhere() {
    let pet = on_cpu();
    assert_eq!(
        pet.voice.stop_voice_interaction(Some(8)),
        vec![
            PetAction::CancelRemoteTranscription { revision: 5, utterance_id: 8 },
            PetAction::Chat(ChatRequest::StopVoiceInteraction),
            PetAction::StopPlayback,
            PetAction::Notify,
        ]
    );
    assert_eq!(
        pet.voice.stop_voice_interaction(None)[0],
        PetAction::Chat(ChatRequest::StopVoiceInteraction)
    );
}

#[test]
fn missing_voice_has_no_revision() {
    let mut silent = setup(AttachOutcome::Unsupported);
    silent.voice_available = false;
    silent.playback_available = false;
    let (mut pet, _) = DesktopPetView::new(silent);
    assert_eq!(pet.voice.revision, 0);
    assert_eq!(
        pet.handle_settings_event(SettingsEvent::VoiceChanged(TALK)),
        vec![
            PetAction::Chat(ChatRequest::CancelPendingVoice),
            PetAction::Chat(ChatRequest::SetVoiceIndicator(false)),
            PetAction::Notify,
        ]
    );
    assert_eq!(pet.handle_speech_event(SpeechEvent::SpeechAudio), vec![]);
}

#[test]
fn speech_is_played_by_a_visible_pet() {
    let mut pet = on_cpu();
    assert_eq!(
        pet.handle_speech_event(SpeechEvent::SpeechAudio),
        vec![PetAction::PlaySpeech]
    );
    pet.set_desktop_pet_visible(false, TALK);
    assert_eq!(pet.handle_speech_event(SpeechEvent::SpeechAudio), vec![]);
    assert_eq!(
        pet.handle_speech_event(SpeechEvent::StopSpeech),
        vec![PetAction::StopPlayback]
    );
}

fn shortcut(action: ShortcutAction, pressed: bool) -> Option<ResolvedShortcut> {
    Some(ResolvedShortcut { action, pressed, has_activation_token: true })
}

#[test]
fn shortcuts_bring_the_pet_to_the_front_where_they_show_it() {
    let mut pet = on_cpu();
    assert_eq!(
        pet.handle_shortcut_event(false, None, shortcut(ShortcutAction::ToggleDesktopPet, true)),
        vec![PetAction::ToggleVisibility]
    );
    assert_eq!(
        pet.handle_shortcut_event(false, None, shortcut(ShortcutAction::ToggleChatInput, true)),
        vec![PetAction::ActivateWithToken, PetAction::ToggleChatInput]
    );
    assert_eq!(
        pet.handle_shortcut_event(false, None, shortcut(ShortcutAction::ToggleSettings, true)),
        vec![PetAction::ToggleSettingsWindow]
    );
    assert_eq!(
        pet.handle_shortcut_event(false, None, shortcut(ShortcutAction::ToggleSettings, false)),
        vec![]
    );
    pet.set_desktop_pet_visible(false, TALK);
    assert_eq!(
        pet.handle_shortcut_event(false, None, shortcut(ShortcutAction::ToggleDesktopPet, true)),
        vec![PetAction::ActivateWithToken, PetAction::ToggleVisibility]
    );
    assert_eq!(
        pet.handle_shortcut_event(false, None, shortcut(ShortcutAction::VoiceInput, false)),
        vec![PetAction::SetPushToTalk(false)]
    );
}

#[test]
fn shortcut_problems_are_reported() {
    let mut pet = on_cpu();
    let errors = vec!["taken".to_string()];
    assert_eq!(
        pet.handle_shortcut_event(true, Some(errors.clone()), None),
        vec![PetAction::ReportShortcutBindings]
    );
    assert_eq!(pet.handle_shortcut_event(false, None, None), vec![]);
    assert_eq!(
        pet.handle_shortcut_event(false, Some(errors.clone()), None),
        vec![PetAction::ReportShortcutErrors]
    );
    assert_eq!(pet.shortcuts.runtime_errors, errors);
    assert_eq!(pet.shortcuts_configured(vec![], true), vec![]);
    assert_eq!(pet.shortcuts.runtime_errors, errors);
    assert_eq!(
        pet.shortcuts_configured(vec![], false),
        vec![PetAction::ReportShortcutErrors]
    );
    assert!(pet.shortcuts.runtime_errors.is_empty());
    assert_eq!(pet.shortcuts_suspended(true, vec![], false), vec![]);
    assert_eq!(
        pet.shortcuts_suspended(false, vec![], false),
        vec![PetAction::ReportShortcutErrors]
    );
    assert_eq!(pet.shortcuts_suspended(false, errors, true), vec![]);
    assert_eq!(
        pet.handle_settings_event(SettingsEvent::ShortcutRecordingChanged(true)),
        vec![PetAction::SetPushToTalk(false), PetAction::SuspendShortcuts(true)]
    );
    assert_eq!(
        pet.handle_settings_event(SettingsEvent::ShortcutsChanged),
        vec![PetAction::SetPushToTalk(false), PetAction::ConfigureShortcuts]
    );
    pet.shortcuts.available = false;
    assert_eq!(
        pet.handle_settings_event(SettingsEvent::ShortcutRecordingChanged(false)),
        vec![PetAction::ReportShortcutErrors]
    );
}

#[test]
fn outfits_are_changed_only_where_that_is_wanted() {
    let mut pet = showing_on_cpu();
    let refused = vec![PetAction::CompleteOutfitRequest(false)];
    let unchanged = || Some(OutfitAction::Unchanged);
    assert_eq!(pet.apply_agent_outfit_request(false, true, unchanged()), refused);
    assert_eq!(pet.apply_agent_outfit_request(true, false, unchanged()), refused);
    assert_eq!(pet.apply_agent_outfit_request(true, true, None), refused);
    assert_eq!(
        pet.apply_agent_outfit_request(true, true, unchanged()),
        vec![PetAction::CompleteOutfitRequest(true)]
    );
    assert_eq!(
        pet.apply_agent_outfit_request(
            true,
            true,
            Some(OutfitAction::PreviewExpression("smile".to_string()))
        ),
        vec![PetAction::SendModelCommand(ModelCommand::PreviewExpression("smile".to_string()))]
    );
    assert_eq!(
        pet.outfit_command_finished(true, OutfitAction::ResetExpression),
        vec![
            PetAction::WakeModel,
            PetAction::CommitOutfit(OutfitAction::ResetExpression),
        ]
    );
    assert_eq!(
        pet.outfit_command_finished(false, OutfitAction::ResetExpression),
        refused
    );
    assert_eq!(
        pet.outfit_commit_finished(true),
        vec![PetAction::CompleteOutfitRequest(true)]
    );
    assert_eq!(
        pet.apply_agent_outfit_request(
            true,
            true,
            Some(OutfitAction::LoadVariant("v".to_string()))
        ),
        vec![PetAction::CommitOutfit(OutfitAction::LoadVariant("v".to_string()))]
    );
    assert_eq!(pet.finish_outfit_variant(None), refused);
    assert_eq!(pet.finish_outfit_variant(Some(path("fox"))), refused);
    let actions = pet.finish_outfit_variant(Some(path("fox-winter")));
    assert_eq!(actions.last(), Some(&PetAction::CompleteOutfitRequest(true)));
    assert_eq!(pet.model.generation, 2);
    pet.model.commands = false;
    assert_eq!(
        pet.apply_agent_outfit_request(true, true, Some(OutfitAction::ResetExpression)),
        refused
    );
    pet.set_desktop_pet_visible(false, TALK);
    assert_eq!(pet.apply_agent_outfit_request(true, true, unchanged()), refused);
}

#[test]
fn settings_reach_model_and_chat() {
    let mut pet = showing_on_cpu();
    assert_eq!(
        pet.handle_settings_event(SettingsEvent::FrameRateChanged),
        vec![PetAction::WakeFrameRate]
    );
    assert_eq!(pet.handle_settings_event(SettingsEvent::ModelCatalogChanged), vec![]);
    assert_eq!(
        pet.handle_settings_event(SettingsEvent::PreviewMotion("wave".to_string())),
        vec![PetAction::SendModelCommand(ModelCommand::PreviewMotion("wave".to_string()))]
    );
    assert_eq!(pet.preview_command_finished(true), vec![PetAction::WakeModel]);
    assert_eq!(pet.preview_command_finished(false), vec![]);
    assert_eq!(
        pet.handle_settings_event(SettingsEvent::EyeTrackingChanged(false)),
        vec![
            PetAction::ResetLookTarget { wake_underlay: false, wake_model: true },
            PetAction::StopCursorTracking,
            PetAction::Notify,
        ]
    );
    assert!(!pet.update_look_target());
    assert_eq!(
        pet.handle_settings_event(SettingsEvent::EyeTrackingChanged(true)),
        vec![PetAction::StartCursorTracking, PetAction::Notify]
    );
    assert_eq!(pet.update_global_cursor_target(true), (true, vec![]));
    assert_eq!(
        pet.update_global_cursor_target(false),
        (
            false,
            vec![PetAction::ResetLookTarget { wake_underlay: false, wake_model: true }]
        )
    );
    assert_eq!(
        pet.handle_settings_event(SettingsEvent::AgentOutfitToolChanged(true)),
        vec![PetAction::PublishAgentOutfits]
    );
    assert_eq!(
        pet.handle_settings_event(SettingsEvent::AgentOutfitToolChanged(false)),
        vec![PetAction::ClearAgentOutfits]
    );
    assert_eq!(
        pet.handle_settings_event(SettingsEvent::ModelResourcesChanged),
        vec![PetAction::PublishAgentOutfits]
    );
    assert_eq!(
        pet.handle_settings_event(SettingsEvent::WindowPositionsReset),
        vec![PetAction::RequestPositionReset, PetAction::Notify]
    );
    assert_eq!(
        pet.handle_settings_event(SettingsEvent::AgentChanged { voice_mode: TALK }).last(),
        Some(&PetAction::RefreshAgentSettings)
    );
    assert_eq!(
        pet.handle_settings_event(SettingsEvent::NativeTrayMenuChanged(true)),
        vec![PetAction::SetTrayNativeMenu(true)]
    );
    assert_eq!(
        pet.handle_settings_event(SettingsEvent::ModelChanged(Some(path("fox")))).last(),
        Some(&PetAction::StartCpuModel { generation: 2 })
    );
}

#[test]
fn dropped_expression_reloads_a_model_that_takes_no_command() {
    let mut pet = showing_on_cpu();
    assert_eq!(
        pet.handle_settings_event(SettingsEvent::ResetExpression),
        vec![PetAction::SendModelCommand(ModelCommand::ResetExpression)]
    );
    assert_eq!(pet.reset_command_finished(true), vec![PetAction::WakeModel]);
    pet.reset_command_finished(false);
    assert_eq!(pet.model.generation, 2);
    pet.model.commands = false;
    pet.handle_settings_event(SettingsEvent::ResetExpression);
    assert_eq!(pet.model.generation, 3);
}

#[test]
fn chat_changes_are_drawn_once() {
    let mut pet = on_cpu();
    let feedback = Some(ThinkingFeedback::Text);
    assert_eq!(pet.chat_changed(true, feedback), vec![PetAction::Notify]);
    assert_eq!(pet.chat_changed(true, feedback), vec![]);
    assert_eq!(pet.chat_changed(true, None), vec![PetAction::Notify]);
}

#[test]
fn frame_loop_ends_with_its_generation() {
    let mut pet = on_cpu();
    assert_eq!(pet.frame_activity(1), Some((true, 0)));
    assert!(pet.display_frame_can_be_armed(1));
    pet.reload_model(Some(path("fox")));
    assert_eq!(pet.frame_activity(1), None);
    assert_eq!(on_gpu().frame_activity(1), None);
}
