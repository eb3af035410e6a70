//! The pet window as a whole: how it starts, what it listens to, and how it ends.

use vstd::prelude::*;

use crate::agent::message::AppLanguage;
use crate::agent::reply::ThinkingFeedback;
use crate::desktop_pet::gpu_lifecycle::AttachOutcome;
use crate::desktop_pet::state::{
    clone_model, if_due, push_if, DesktopPetView, GazeState, ModelCommand, ModelLoadState,
    ModelPath, ModelSlot, ModelWindowSize, PaintState, PetAction, PetChat, PetShortcuts, PetVoice,
    PetWindow, RasterSize, UnderlayState, VoiceMode, VoicePhase,
};

verus! {

/// What the pet window finds when it starts.
#[derive(Debug)]
pub struct PetSetup {
    pub cursor_tracker_available: bool,
    pub eye_tracking_enabled: bool,
    pub show_fps: bool,
    pub underlay: AttachOutcome,
    pub tray_available: bool,
    pub voice_available: bool,
    pub playback_available: bool,
    pub voice_mode: VoiceMode,
    pub voice_revision: u64,
    pub voice_phase: VoicePhase,
    pub shortcuts_available: bool,
    pub shortcut_errors: Vec<String>,
    pub chat_overlay_visible: bool,
    pub chat_thinking_feedback: Option<ThinkingFeedback>,
    pub raster: RasterSize,
    pub gpu_raster: RasterSize,
    pub initial_model: Option<ModelPath>,
    pub language: AppLanguage,
}

/// A change in the settings.
#[derive(Debug)]
#[allow(inconsistent_fields)]
pub enum SettingsEvent {
    ModelChanged(Option<ModelPath>),
    ModelCatalogChanged,
    FrameRateChanged,
    EyeTrackingChanged(bool),
    ShowFpsChanged(bool),
    NativeTrayMenuChanged(bool),
    ModelWindowSizeChanged(ModelWindowSize),
    PreviewMotion(String),
    PreviewExpression(String),
    ResetExpression,
    /// The provider or the persona has changed; `voice_mode` is what the voice settings
    /// ask for.
    AgentChanged { voice_mode: VoiceMode },
    AgentOutfitToolChanged(bool),
    ModelResourcesChanged,
    WindowPositionsReset,
    /// Language or theme have changed; the summary of the load diagnostics is already in
    /// the new language.
    AppearanceChanged { language: AppLanguage, diagnostics_summary: Option<String> },
    VoiceChanged(VoiceMode),
    ShortcutsChanged,
    ShortcutRecordingChanged(bool),
}

/// Something that the chat asks of the window.
#[derive(Debug, Clone, Copy, PartialEq, Eq, Structural)]
pub enum SpeechEvent {
    StopSpeech,
    SpeechAudio,
}

impl DesktopPetView {
    /// The window before its first model is asked for.
    pub open spec fn initial_state(setup: PetSetup) -> DesktopPetView {
        let attached = setup.underlay == AttachOutcome::Attached;
        DesktopPetView {
            model: ModelSlot {
                generation: 0,
                selected: None,
                state: ModelLoadState::NoModel,
                commands: false,
                wake: false,
                frame_rate_wake: false,
                cancellation: false,
                task: false,
            },
            paint: PaintState {
                frame: None,
                current_image: None,
                previous_image: None,
                show_fps: setup.show_fps,
                fps_sampling: setup.show_fps,
            },
            gaze: GazeState {
                tracker_available: setup.cursor_tracker_available,
                tracking: false,
                enabled: setup.eye_tracking_enabled,
            },
            underlay: UnderlayState {
                attached,
                events: attached,
                shutdown_pending: false,
                restart_cpu: false,
                released_for_hidden: false,
                restore_pending: false,
                cpu_fallback_pending: setup.underlay == AttachOutcome::Failed,
                close_after_shutdown: false,
                quitting: false,
            },
            window: PetWindow {
                visible: true,
                visibility_revision: 0,
                tray_available: setup.tray_available,
                pending_size: None,
                pending_size_attempts: 0,
                config_window: None,
                tray_menu_window: None,
                raster: if attached {
                    setup.gpu_raster
                } else {
                    setup.raster
                },
                cpu_raster: setup.raster,
                gpu_raster: setup.gpu_raster,
            },
            voice: PetVoice {
                available: setup.voice_available,
                playback_available: setup.playback_available,
                mode: setup.voice_mode,
                revision: if setup.voice_available {
                    setup.voice_revision
                } else {
                    0
                },
                phase: if setup.voice_available {
                    setup.voice_phase
                } else {
                    VoicePhase::Idle
                },
                levels: false,
                release_timer: false,
            },
            chat: PetChat {
                input_open: false,
                overlay_visible: setup.chat_overlay_visible,
                thinking_feedback: setup.chat_thinking_feedback,
            },
            shortcuts: PetShortcuts {
                available: setup.shortcuts_available,
                runtime_errors: setup.shortcut_errors,
            },
            language: setup.language,
        }
    }

    /// What starting the window takes before its first model is asked for.
    #[verifier::opaque]
    pub open spec fn setup_actions(setup: PetSetup) -> Seq<PetAction> {
        if_due(setup.shortcut_errors@.len() > 0, PetAction::ReportShortcutErrors) + seq![
            PetAction::SyncTrayAppearance,
        ] + if_due(setup.show_fps, PetAction::StartFpsSampling) + if_due(
            setup.underlay == AttachOutcome::Attached,
            PetAction::StartUnderlayEvents,
        )
    }

    fn begin_actions(setup: &PetSetup) -> (actions: Vec<PetAction>)
        ensures
            actions@ == Self::setup_actions(*setup),
    {
        let mut actions: Vec<PetAction> = Vec::new();
        push_if(
            &mut actions,
            setup.shortcut_errors.len() > 0,
            PetAction::ReportShortcutErrors,
        );
        actions.push(PetAction::SyncTrayAppearance);
        push_if(&mut actions, setup.show_fps, PetAction::StartFpsSampling);
        let attached = setup.underlay == AttachOutcome::Attached;
        push_if(&mut actions, attached, PetAction::StartUnderlayEvents);
        proof {
            reveal(DesktopPetView::setup_actions);
            assert(actions@ =~= Self::setup_actions(*setup));
        }
        actions
    }

    fn initial(setup: PetSetup) -> (pet: Self)
        ensures
            pet == Self::initial_state(setup),
    {
        let attached = setup.underlay == AttachOutcome::Attached;
        DesktopPetView {
            model: ModelSlot {
                generation: 0,
                selected: None,
                state: ModelLoadState::NoModel,
                commands: false,
                wake: false,
                frame_rate_wake: false,
                cancellation: false,
                task: false,
            },
            paint: PaintState {
                frame: None,
                current_image: None,
                previous_image: None,
                show_fps: setup.show_fps,
                fps_sampling: setup.show_fps,
            },
            gaze: GazeState {
                tracker_available: setup.cursor_tracker_available,
                tracking: false,
                enabled: setup.eye_tracking_enabled,
            },
            underlay: UnderlayState {
                attached,
                events: attached,
                shutdown_pending: false,
                restart_cpu: false,
                released_for_hidden: false,
                restore_pending: false,
                cpu_fallback_pending: setup.underlay == AttachOutcome::Failed,
                close_after_shutdown: false,
                quitting: false,
            },
            window: PetWindow {
                visible: true,
                visibility_revision: 0,
                tray_available: setup.tray_available,
                pending_size: None,
                pending_size_attempts: 0,
                config_window: None,
                tray_menu_window: None,
                raster: if attached {
                    setup.gpu_raster
                } else {
                    setup.raster
                },
                cpu_raster: setup.raster,
                gpu_raster: setup.gpu_raster,
            },
            voice: PetVoice {
                available: setup.voice_available,
                playback_available: setup.playback_available,
                mode: setup.voice_mode,
                revision: if setup.voice_available {
                    setup.voice_revision
                } else {
                    0
                },
                phase: if setup.voice_available {
                    setup.voice_phase
                } else {
                    VoicePhase::Idle
                },
                levels: false,
                release_timer: false,
            },
            chat: PetChat {
                input_open: false,
                overlay_visible: setup.chat_overlay_visible,
                thinking_feedback: setup.chat_thinking_feedback,
            },
            shortcuts: PetShortcuts {
                available: setup.shortcuts_available,
                runtime_errors: setup.shortcut_errors,
            },
            language: setup.language,
        }
    }

    /// Starts the window with its first model.
    pub fn new(setup: PetSetup) -> (result: (Self, Vec<PetAction>))
        ensures
            result.0 == Self::initial_state(setup).loaded_with(setup.initial_model, false),
            result.1@ == Self::setup_actions(setup) + Self::initial_state(setup).load_actions(
                setup.initial_model,
                false,
            ),
    {
        let mut actions = Self::begin_actions(&setup);
        let initial_model = clone_model(&setup.initial_model);
        let mut pet = Self::initial(setup);
        let mut load = pet.load_model(initial_model);
        actions.append(&mut load);
        (pet, actions)
    }

    /// The state after a change in the settings.
    pub open spec fn after_settings(self, event: SettingsEvent) -> DesktopPetView {
        match event {
            SettingsEvent::ModelChanged(path) => self.loaded_with(path, true),
            SettingsEvent::EyeTrackingChanged(enabled) => self.with_eye_tracking(
                enabled,
            ).with_cursor_synced(),
            SettingsEvent::ShowFpsChanged(show) => DesktopPetView {
                paint: self.paint.with_fps_shown(show, self.window.visible),
                ..self
            },
            SettingsEvent::NativeTrayMenuChanged(enabled) => if enabled {
                self.without_tray_menu()
            } else {
                self
            },
            SettingsEvent::ModelWindowSizeChanged(size) => DesktopPetView {
                window: PetWindow {
                    pending_size: Some(size),
                    pending_size_attempts: 0,
                    ..self.window
                },
                ..self
            },
            SettingsEvent::ResetExpression => if self.model.commands {
                self
            } else {
                self.loaded_with(self.model.selected, true)
            },
            SettingsEvent::AgentChanged { voice_mode } => DesktopPetView {
                voice: self.voice.with_settings(voice_mode),
                ..self
            },
            SettingsEvent::AppearanceChanged { language, diagnostics_summary } => self.speaking(
                language,
                diagnostics_summary,
            ),
            SettingsEvent::VoiceChanged(mode) => DesktopPetView {
                voice: self.voice.with_settings(mode),
                ..self
            },
            SettingsEvent::ShortcutsChanged => self.with_talk_key_released(),
            SettingsEvent::ShortcutRecordingChanged(recording) => if recording {
                self.with_talk_key_released()
            } else {
                self
            },
            _ => self,
        }
    }

    /// The state in another language. The warning of a loaded model is put into it; any
    /// other message stays as it was worded.
    pub open spec fn speaking(self, language: AppLanguage, summary: Option<String>) -> DesktopPetView {
        DesktopPetView {
            model: ModelSlot {
                state: self.model.state.with_warning(summary, language),
                ..self.model
            },
            language,
            ..self
        }
    }

    /// The state with eye tracking switched on or off, before pointer tracking follows.
    pub open spec fn with_eye_tracking(self, enabled: bool) -> DesktopPetView {
        DesktopPetView { gaze: GazeState { enabled, ..self.gaze }, ..self }
    }

    /// What a change in the settings takes.
    pub open spec fn settings_actions(self, event: SettingsEvent) -> Seq<PetAction> {
        match event {
            SettingsEvent::ModelChanged(path) => self.load_actions(path, true),
            SettingsEvent::ModelCatalogChanged => Seq::empty(),
            SettingsEvent::FrameRateChanged => self.wake_frame_rate_actions(),
            SettingsEvent::EyeTrackingChanged(enabled) => if_due(
                !enabled,
                self.reset_look_action(),
            ) + self.with_eye_tracking(enabled).cursor_sync_actions() + seq![PetAction::Notify],
            SettingsEvent::ShowFpsChanged(show) => self.paint.show_fps_actions(
                show,
                self.window.visible,
            ),
            SettingsEvent::NativeTrayMenuChanged(enabled) => if_due(
                self.window.tray_available,
                PetAction::SetTrayNativeMenu(enabled),
            ) + (if enabled {
                self.close_tray_actions()
            } else {
                Seq::empty()
            }),
            SettingsEvent::ModelWindowSizeChanged(_) => seq![PetAction::Notify],
            SettingsEvent::PreviewMotion(group) => if_due(
                self.model.commands,
                PetAction::SendModelCommand(ModelCommand::PreviewMotion(group)),
            ),
            SettingsEvent::PreviewExpression(name) => if_due(
                self.model.commands,
                PetAction::SendModelCommand(ModelCommand::PreviewExpression(name)),
            ),
            SettingsEvent::ResetExpression => if self.model.commands {
                seq![PetAction::SendModelCommand(ModelCommand::ResetExpression)]
            } else {
                self.load_actions(self.model.selected, true)
            },
            SettingsEvent::AgentChanged { .. } => self.voice.settings_actions(self.window.visible)
                + seq![PetAction::RefreshAgentSettings],
            SettingsEvent::AgentOutfitToolChanged(enabled) => seq![
                if enabled {
                    self.outfit_sync_action()
                } else {
                    PetAction::ClearAgentOutfits
                },
            ],
            SettingsEvent::ModelResourcesChanged => seq![self.outfit_sync_action()],
            SettingsEvent::WindowPositionsReset => seq![
                PetAction::RequestPositionReset,
                PetAction::Notify,
            ],
            SettingsEvent::AppearanceChanged { .. } => seq![
                PetAction::ApplyAppearance,
                PetAction::SyncTrayAppearance,
                self.outfit_sync_action(),
                PetAction::RefreshAgentSettings,
            ],
            SettingsEvent::VoiceChanged(_) => self.voice.settings_actions(self.window.visible),
            SettingsEvent::ShortcutsChanged => self.voice.release_actions() + seq![
                if self.shortcuts.available {
                    PetAction::ConfigureShortcuts
                } else {
                    PetAction::ReportShortcutErrors
                },
            ],
            SettingsEvent::ShortcutRecordingChanged(recording) => (if recording {
                self.voice.release_actions()
            } else {
                Seq::empty()
            }) + seq![
                if self.shortcuts.available {
                    PetAction::SuspendShortcuts(recording)
                } else {
                    PetAction::ReportShortcutErrors
                },
            ],
        }
    }

    /// Follows a change in the settings.
    pub fn handle_settings_event(&mut self, event: SettingsEvent) -> (actions: Vec<PetAction>)
        ensures
            *final(self) == old(self).after_settings(event),
            actions@ == old(self).settings_actions(event),
    {
        match event {
            SettingsEvent::ModelChanged(path) => self.reload_model(path),
            SettingsEvent::ModelCatalogChanged => Vec::new(),
            SettingsEvent::FrameRateChanged => self.wake_frame_rate_scheduler(),
            SettingsEvent::EyeTrackingChanged(enabled) => self.set_eye_tracking(enabled),
            SettingsEvent::ShowFpsChanged(show) => self.show_fps(show),
            SettingsEvent::NativeTrayMenuChanged(enabled) => self.set_native_tray_menu(enabled),
            SettingsEvent::ModelWindowSizeChanged(size) => self.request_model_window_size(size),
            SettingsEvent::PreviewMotion(group) => self.send_command(
                ModelCommand::PreviewMotion(group),
            ),
            SettingsEvent::PreviewExpression(name) => self.send_command(
                ModelCommand::PreviewExpression(name),
            ),
            SettingsEvent::ResetExpression => {
                if self.model.commands {
                    return vec![PetAction::SendModelCommand(ModelCommand::ResetExpression)];
                }
                self.reload_selected()
            },
            SettingsEvent::AgentChanged { voice_mode } => {
                let mut actions = self.change_voice_mode(voice_mode);
                actions.push(PetAction::RefreshAgentSettings);
                actions
            },
            SettingsEvent::AgentOutfitToolChanged(enabled) => {
                if enabled {
                    vec![self.sync_agent_outfits()]
                } else {
                    vec![PetAction::ClearAgentOutfits]
                }
            },
            SettingsEvent::ModelResourcesChanged => vec![self.sync_agent_outfits()],
            SettingsEvent::WindowPositionsReset => vec![
                PetAction::RequestPositionReset,
                PetAction::Notify,
            ],
            SettingsEvent::AppearanceChanged { language, diagnostics_summary } => {
                self.change_appearance(language, diagnostics_summary)
            },
            SettingsEvent::VoiceChanged(mode) => self.change_voice_mode(mode),
            SettingsEvent::ShortcutsChanged => self.apply_shortcut_settings(),
            SettingsEvent::ShortcutRecordingChanged(recording) => self.set_shortcut_recording(
                recording,
            ),
        }
    }

    fn change_appearance(&mut self, language: AppLanguage, summary: Option<String>) -> (actions:
        Vec<PetAction>)
        ensures
            *final(self) == old(self).speaking(language, summary),
            actions@ == seq![
                PetAction::ApplyAppearance,
                PetAction::SyncTrayAppearance,
                old(self).outfit_sync_action(),
                PetAction::RefreshAgentSettings,
            ],
    {
        self.language = language;
        self.model.state.refresh_localized_warning(summary, language);
        let outfits = self.sync_agent_outfits();
        vec![
            PetAction::ApplyAppearance,
            PetAction::SyncTrayAppearance,
            outfits,
            PetAction::RefreshAgentSettings,
        ]
    }

    fn change_voice_mode(&mut self, mode: VoiceMode) -> (actions: Vec<PetAction>)
        ensures
            *final(self) == (DesktopPetView {
                voice: old(self).voice.with_settings(mode),
                ..*old(self)
            }),
            actions@ == old(self).voice.settings_actions(old(self).window.visible),
    {
        let visible = self.window.visible;
        self.voice.apply_voice_settings(mode, visible)
    }

    fn show_fps(&mut self, show: bool) -> (actions: Vec<PetAction>)
        ensures
            *final(self) == (DesktopPetView {
                paint: old(self).paint.with_fps_shown(show, old(self).window.visible),
                ..*old(self)
            }),
            actions@ == old(self).paint.show_fps_actions(show, old(self).window.visible),
    {
        let visible = self.window.visible;
        self.paint.set_show_fps(show, visible)
    }

    fn set_eye_tracking(&mut self, enabled: bool) -> (actions: Vec<PetAction>)
        ensures
            *final(self) == old(self).with_eye_tracking(enabled).with_cursor_synced(),
            actions@ == if_due(!enabled, old(self).reset_look_action()) + old(
                self,
            ).with_eye_tracking(enabled).cursor_sync_actions() + seq![PetAction::Notify],
    {
        let mut actions: Vec<PetAction> = Vec::new();
        self.gaze.enabled = enabled;
        let reset = self.reset_look_target();
        push_if(&mut actions, !enabled, reset);
        let mut cursor = self.sync_cursor_tracking_task();
        actions.append(&mut cursor);
        actions.push(PetAction::Notify);
        proof {
            assert(actions@ =~= if_due(!enabled, old(self).reset_look_action()) + old(
                self,
            ).with_eye_tracking(enabled).cursor_sync_actions() + seq![PetAction::Notify]);
        }
        actions
    }

    fn set_native_tray_menu(&mut self, enabled: bool) -> (actions: Vec<PetAction>)
        ensures
            *final(self) == (if enabled {
                old(self).without_tray_menu()
            } else {
                *old(self)
            }),
            actions@ == if_due(
                old(self).window.tray_available,
                PetAction::SetTrayNativeMenu(enabled),
            ) + (if enabled {
                old(self).close_tray_actions()
            } else {
                Seq::empty()
            }),
    {
        let mut actions: Vec<PetAction> = Vec::new();
        push_if(
            &mut actions,
            self.window.tray_available,
            PetAction::SetTrayNativeMenu(enabled),
        );
        if enabled {
            let mut close = self.close_tray_menu();
            actions.append(&mut close);
        }
        proof {
            assert(actions@ =~= if_due(
                old(self).window.tray_available,
                PetAction::SetTrayNativeMenu(enabled),
            ) + (if enabled {
                old(self).close_tray_actions()
            } else {
                Seq::empty()
            }));
        }
        actions
    }

    fn send_command(&self, command: ModelCommand) -> (actions: Vec<PetAction>)
        ensures
            actions@ == if_due(self.model.commands, PetAction::SendModelCommand(command)),
    {
        if self.model.commands {
            vec![PetAction::SendModelCommand(command)]
        } else {
            Vec::new()
        }
    }

    fn reload_selected(&mut self) -> (actions: Vec<PetAction>)
        ensures
            *final(self) == old(self).loaded_with(old(self).model.selected, true),
            actions@ == old(self).load_actions(old(self).model.selected, true),
    {
        let selected = clone_model(&self.model.selected);
        self.reload_model(selected)
    }

    /// Wakes the model once it has taken a preview.
    pub fn preview_command_finished(&self, sent: bool) -> (actions: Vec<PetAction>)
        ensures
            actions@ == (if sent {
                self.wake_model_actions()
            } else {
                Seq::empty()
            }),
    {
        if sent {
            self.wake_model()
        } else {
            Vec::new()
        }
    }

    /// Wakes the model once it has taken the command to drop its expression, and loads it
    /// anew where it has not.
    pub fn reset_command_finished(&mut self, sent: bool) -> (actions: Vec<PetAction>)
        ensures
            sent ==> {
                &&& *final(self) == *old(self)
                &&& actions@ == old(self).wake_model_actions()
            },
            !sent ==> {
                &&& *final(self) == old(self).loaded_with(old(self).model.selected, true)
                &&& actions@ == old(self).load_actions(old(self).model.selected, true)
            },
    {
        if sent {
            self.wake_model()
        } else {
            self.reload_selected()
        }
    }

    /// Follows what the chat asks of the window: speech is played only by a visible pet.
    pub fn handle_speech_event(&self, event: SpeechEvent) -> (actions: Vec<PetAction>)
        ensures
            actions@ == (match event {
                SpeechEvent::StopSpeech => if_due(
                    self.voice.playback_available,
                    PetAction::StopPlayback,
                ),
                SpeechEvent::SpeechAudio => if_due(
                    self.window.visible && self.voice.playback_available,
                    PetAction::PlaySpeech,
                ),
            }),
    {
        let mut actions: Vec<PetAction> = Vec::new();
        match event {
            SpeechEvent::StopSpeech => {
                push_if(&mut actions, self.voice.playback_available, PetAction::StopPlayback);
            },
            SpeechEvent::SpeechAudio => {
                push_if(
                    &mut actions,
                    self.window.visible && self.voice.playback_available,
                    PetAction::PlaySpeech,
                );
            },
        }
        actions
    }

    /// Follows the chat: the window is drawn again where the reply or the thinking sign
    /// has come or gone.
    pub fn chat_changed(&mut self, overlay_visible: bool, feedback: Option<ThinkingFeedback>) -> (actions:
        Vec<PetAction>)
        ensures
            *final(self) == (DesktopPetView {
                chat: PetChat {
                    overlay_visible,
                    thinking_feedback: feedback,
                    ..old(self).chat
                },
                ..*old(self)
            }),
            actions@ == if_due(
                old(self).chat.overlay_visible != overlay_visible || old(
                    self,
                ).chat.thinking_feedback != feedback,
                PetAction::Notify,
            ),
    {
        let same_feedback = match (self.chat.thinking_feedback, feedback) {
            (Some(current), Some(next)) => current == next,
            (None, None) => true,
            _ => false,
        };
        if self.chat.overlay_visible == overlay_visible && same_feedback {
            return Vec::new();
        }
        self.chat.overlay_visible = overlay_visible;
        self.chat.thinking_feedback = feedback;
        vec![PetAction::Notify]
    }

    /// Lets go of the talk key when the window is no longer active.
    pub fn window_activation_changed(&mut self, active: bool) -> (actions: Vec<PetAction>)
        ensures
            *final(self) == (if active {
                *old(self)
            } else {
                old(self).with_talk_key_released()
            }),
            actions@ == (if active {
                Seq::empty()
            } else {
                old(self).voice.release_actions()
            }),
    {
        if active {
            return Vec::new();
        }
        self.voice.release_voice_shortcut()
    }

    /// What is left to do when the window is gone.
    #[verifier::opaque]
    pub open spec fn release_actions(self) -> Seq<PetAction> {
        self.call_off_actions() + if_due(
            self.underlay.attached,
            PetAction::ShutdownUnderlay,
        ) + if_due(self.voice.available, PetAction::RequestVoiceShutdown) + if_due(
            self.voice.playback_available,
            PetAction::StopPlayback,
        ) + self.close_tray_actions() + self.paint.release_actions()
    }

    /// Lets go of everything that outlives the window.
    pub fn on_release(&mut self) -> (actions: Vec<PetAction>)
        ensures
            *final(self) == (DesktopPetView {
                model: ModelSlot {
                    cancellation: false,
                    wake: false,
                    frame_rate_wake: false,
                    ..old(self).model
                },
                paint: PaintState {
                    frame: None,
                    current_image: None,
                    previous_image: None,
                    ..old(self).paint
                },
                underlay: UnderlayState { attached: false, ..old(self).underlay },
                window: PetWindow { tray_menu_window: None, ..old(self).window },
                shortcuts: PetShortcuts { available: false, ..old(self).shortcuts },
                ..*old(self)
            }),
            actions@ == old(self).release_actions(),
    {
        let mut actions = self.call_off_model();
        self.shortcuts.available = false;
        push_if(&mut actions, self.underlay.attached, PetAction::ShutdownUnderlay);
        self.underlay.attached = false;
        push_if(&mut actions, self.voice.available, PetAction::RequestVoiceShutdown);
        push_if(&mut actions, self.voice.playback_available, PetAction::StopPlayback);
        let mut tray = self.close_tray_menu();
        actions.append(&mut tray);
        let mut images = self.paint.release_rendered_images();
        actions.append(&mut images);
        proof {
            reveal(DesktopPetView::release_actions);
        }
        actions
    }
}

} // verus!
