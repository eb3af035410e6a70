//! What becomes of the window, its pictures, its voice and its chat, told in terms of what
//! is asked for.

use vstd::prelude::*;

use crate::desktop_pet::events::SettingsEvent;
use crate::desktop_pet::frame_loop::{
    pacer_for, wait_result, FrameLoop, FrameRate, FrameStep, FrameWaitResult, PacerChange,
};
use crate::desktop_pet::model_promises::given;
use crate::desktop_pet::shortcut::{ResolvedShortcut, ShortcutAction};
use crate::desktop_pet::state::{
    ChatRequest, DesktopPetView, GazeState, ModelSlot, ModelWindowSize, PaintState, PetAction, PetChat, PetVoice,
    PetWindow, RasterSize, UnderlayState, VoiceMode, VoicePhase,
};
use crate::desktop_pet::tracking::switch;
use crate::desktop_pet::visibility::count_after;
use crate::desktop_pet::voice::VoiceEvent;
use crate::revision::revision_after;

verus! {

/// The cursor is followed exactly while there is something to follow it: a tracker that is
/// switched on, a picture on screen, no chat in the way and no end in sight.
pub proof fn cursor_is_followed_where_it_matters(pet: DesktopPetView)
    ensures
        ({
            let wanted = pet.gaze.tracker_available && pet.gaze.enabled && pet.window.visible
                && !pet.chat.input_open && pet.paint.frame is Some
                && !pet.underlay.close_after_shutdown && !pet.underlay.quitting
                && !pet.underlay.shutdown_pending;
            let after = pet.with_cursor_synced();
            &&& after.gaze.tracking == wanted
            &&& after.gaze.enabled == pet.gaze.enabled
            &&& after.gaze.tracker_available == pet.gaze.tracker_available
            &&& (DesktopPetView { gaze: pet.gaze, ..after }) == pet
            &&& wanted == pet.gaze.tracking ==> pet.cursor_sync_actions().len() == 0
            &&& wanted && !pet.gaze.tracking ==> pet.cursor_sync_actions() == seq![
                PetAction::StartCursorTracking,
            ]
            &&& !wanted && pet.gaze.tracking ==> pet.cursor_sync_actions() == seq![
                PetAction::StopCursorTracking,
            ]
        }),
        pet.accepts_look_target() <==> pet.gaze.enabled && pet.paint.frame is Some
            && !pet.chat.input_open,
        pet.reset_look_action() == (PetAction::ResetLookTarget {
            wake_underlay: pet.underlay.attached,
            wake_model: pet.model.wake,
        }),
{
}

/// Something that runs is stopped, and something that does not is started, only where the
/// other is wanted.
pub proof fn only_changes_are_switched(running: bool, start: PetAction, stop: PetAction)
    ensures
        switch(running, running, start, stop).len() == 0,
        switch(false, true, start, stop) == seq![start],
        switch(true, false, start, stop) == seq![stop],
{
}

/// A picture is kept until the one after the next is painted, then dropped; every picture is
/// dropped once.
pub proof fn pictures_are_dropped_once(
    paint: PaintState,
    next: Option<u64>,
    visible: bool,
    current: u64,
    previous: u64,
)
    ensures
        paint.with_painted(next).current_image == next,
        paint.with_painted(next).previous_image == paint.current_image,
        (PaintState {
            current_image: paint.current_image,
            previous_image: paint.previous_image,
            ..paint.with_painted(next)
        }) == paint,
        ({
            let counted = next is Some && paint.current_image != next && paint.show_fps && visible;
            let dropped = match paint.previous_image {
                Some(image) => given(
                    paint.current_image != Some(image),
                    PetAction::DropImage(image),
                ),
                None => seq![],
            };
            paint.paint_actions(next, visible) == dropped + given(
                counted,
                PetAction::RecordPaintedFrame,
            )
        }),
        ({
            let none = PaintState { current_image: None, previous_image: None, ..paint };
            let one = PaintState { current_image: Some(current), ..none };
            let both = PaintState { previous_image: Some(previous), ..one };
            let old = PaintState { previous_image: Some(previous), ..none };
            &&& none.release_actions().len() == 0
            &&& one.release_actions() == seq![PetAction::DropImage(current)]
            &&& old.release_actions() == seq![PetAction::DropImage(previous)]
            &&& current == previous ==> both.release_actions() == seq![
                PetAction::DropImage(current),
            ]
            &&& current != previous ==> both.release_actions() == seq![
                PetAction::DropImage(previous),
                PetAction::DropImage(current),
            ]
        }),
{
}

/// A window that is shown comes up with everything that runs while it is on screen.
pub proof fn shown_window_resumes(pet: DesktopPetView, mode: VoiceMode)
    requires
        !pet.window.visible,
    ensures
        ({
            let after = pet.after_visibility(true, mode);
            let coming_back = pet.underlay.released_for_hidden && pet.underlay.shutdown_pending;
            &&& after.window.visible
            &&& after.window.visibility_revision != pet.window.visibility_revision
            &&& (PetWindow {
                visible: pet.window.visible,
                visibility_revision: pet.window.visibility_revision,
                ..after.window
            }) == pet.window
            &&& after.paint.frame == pet.paint.frame
            &&& after.paint.fps_sampling == (pet.paint.fps_sampling || pet.paint.show_fps)
            &&& after.paint.show_fps == pet.paint.show_fps
            &&& after.voice.mode == mode
            &&& after.voice.phase == VoicePhase::Idle
            &&& after.underlay.restore_pending == (pet.underlay.restore_pending || coming_back)
            &&& after.underlay.restart_cpu == (pet.underlay.restart_cpu && !coming_back)
            &&& after.underlay.attached == pet.underlay.attached
            &&& after.underlay.shutdown_pending == pet.underlay.shutdown_pending
            &&& after.model == pet.model
            &&& after.chat == pet.chat
            &&& after.shortcuts == pet.shortcuts
            &&& after.language == pet.language
        }),
        ({
            let followed = pet.after_visibility(true, mode).gaze.tracking;
            let tail = if followed == pet.gaze.tracking {
                seq![]
            } else if followed {
                seq![PetAction::StartCursorTracking]
            } else {
                seq![PetAction::StopCursorTracking]
            };
            pet.set_visible_actions(true, mode) == pet.visibility_actions(true)
                + pet.shown_model_actions() + (tail + seq![PetAction::Notify])
        }),
        pet.shown_model_actions() == (given(pet.underlay.attached, PetAction::WakeUnderlay) + given(
            pet.model.wake,
            PetAction::WakeModel,
        )) + given(
            pet.paint.show_fps && !pet.paint.fps_sampling,
            PetAction::StartFpsSampling,
        ) + given(
            !pet.underlay.attached && pet.underlay.released_for_hidden && !pet.underlay.quitting
                && !pet.underlay.shutdown_pending,
            PetAction::AttachUnderlay,
        ),
        pet.set_visible_actions(false, mode).len() == 0,
        pet.after_visibility(false, mode) == pet,
{
    reveal(DesktopPetView::shown_model_actions);
}

/// Showing and hiding are told to the tray and the chat, and set the voice anew: to listen
/// while the window is on screen.
pub proof fn visibility_is_told(pet: DesktopPetView, mode: VoiceMode)
    ensures
        pet.visibility_actions(true) == given(
            pet.window.tray_available,
            PetAction::SetTrayHidden(false),
        ) + seq![PetAction::Chat(ChatRequest::Resume)] + pet.voice.settings_actions(true) + seq![
            PetAction::ResetFrameRateMeter,
        ] + given(pet.model.frame_rate_wake, PetAction::WakeFrameRate),
        pet.visibility_actions(false) == given(
            pet.window.tray_available,
            PetAction::SetTrayHidden(true),
        ) + seq![PetAction::Chat(ChatRequest::Suspend)] + pet.voice.settings_actions(false) + seq![
            PetAction::ResetFrameRateMeter,
        ] + given(pet.model.frame_rate_wake, PetAction::WakeFrameRate),
        !pet.window.visible ==> pet.after_visibility(true, mode).voice == pet.voice.with_settings(
            mode,
        ),
        pet.window.visible ==> pet.after_visibility(false, mode).voice == pet.voice.with_settings(
            mode,
        ),
{
    reveal(DesktopPetView::visibility_actions);
}

/// A window that is hidden lets go of its pictures and of the graphics worker, and falls
/// silent.
pub proof fn hidden_window_lets_go(pet: DesktopPetView, mode: VoiceMode)
    requires
        pet.window.visible,
    ensures
        ({
            let after = pet.after_visibility(false, mode);
            let releases = pet.underlay.attached && !pet.underlay.shutdown_pending;
            &&& !after.window.visible
            &&& after.window.visibility_revision != pet.window.visibility_revision
            &&& (PetWindow {
                visible: pet.window.visible,
                visibility_revision: pet.window.visibility_revision,
                ..after.window
            }) == pet.window
            &&& after.paint.frame is None
            &&& after.paint.current_image is None
            &&& after.paint.previous_image is None
            &&& !after.paint.fps_sampling
            &&& after.paint.show_fps == pet.paint.show_fps
            &&& !after.gaze.tracking
            &&& after.gaze.enabled == pet.gaze.enabled
            &&& after.voice.mode == mode
            &&& after.voice.phase == VoicePhase::Idle
            &&& releases ==> !after.underlay.attached && !after.underlay.events
                && after.underlay.shutdown_pending && after.underlay.restart_cpu
                && after.underlay.released_for_hidden
            &&& !releases ==> after.underlay.attached == pet.underlay.attached
                && after.underlay.events == pet.underlay.events
                && after.underlay.shutdown_pending == pet.underlay.shutdown_pending
                && after.underlay.released_for_hidden == pet.underlay.released_for_hidden
                && after.underlay.restart_cpu == (pet.underlay.restart_cpu || (
            pet.underlay.shutdown_pending && pet.underlay.released_for_hidden))
            &&& !after.underlay.restore_pending
            &&& after.underlay.quitting == pet.underlay.quitting
            &&& after.underlay.close_after_shutdown == pet.underlay.close_after_shutdown
            &&& after.underlay.cpu_fallback_pending == pet.underlay.cpu_fallback_pending
            &&& after.model == pet.model
            &&& after.chat == pet.chat
            &&& after.shortcuts == pet.shortcuts
            &&& after.language == pet.language
        }),
        pet.set_visible_actions(false, mode) == pet.visibility_actions(false)
            + pet.hidden_model_actions() + seq![PetAction::Notify],
        pet.underlay.attached && !pet.underlay.shutdown_pending ==> pet.hidden_model_actions()
            == given(pet.paint.fps_sampling, PetAction::StopFpsSampling)
            + pet.paint.release_actions() + (seq![PetAction::PauseUnderlay] + (given(
            pet.underlay.events,
            PetAction::StopUnderlayEvents,
        ) + given(pet.gaze.tracking, PetAction::StopCursorTracking) + seq![
            PetAction::BeginUnderlayShutdown { generation: pet.model.generation },
        ])),
        !pet.underlay.attached || pet.underlay.shutdown_pending ==> pet.hidden_model_actions()
            == given(pet.paint.fps_sampling, PetAction::StopFpsSampling)
            + pet.paint.release_actions() + given(
            pet.gaze.tracking,
            PetAction::StopCursorTracking,
        ),
        pet.set_visible_actions(true, mode).len() == 0,
        pet.after_visibility(true, mode) == pet,
{
    reveal(DesktopPetView::hidden_model_actions);
}

/// Every showing and hiding counts as a change of its own.
pub proof fn visibility_changes_are_counted(count: u64)
    ensures
        count_after(count) != count,
        count < u64::MAX ==> count_after(count) == count + 1,
        count_after(u64::MAX) == 0,
{
}

/// A window that is closed ends everything that still runs; it goes at once unless the
/// graphics worker has to stop first.
pub proof fn closed_window_ends_everything(pet: DesktopPetView)
    ensures
        ({
            let after = pet.close_requested();
            let releases = !pet.underlay.shutdown_pending && pet.underlay.attached;
            &&& pet.closes_at_once() <==> !pet.underlay.shutdown_pending && !pet.underlay.attached
            &&& after.underlay.close_after_shutdown
            &&& !after.underlay.restart_cpu
            &&& after.underlay.shutdown_pending == (pet.underlay.shutdown_pending || releases)
            &&& after.underlay.attached == (pet.underlay.attached && !releases)
            &&& after.underlay.events == (pet.underlay.events && !releases)
            &&& !after.model.cancellation && !after.model.wake && !after.model.frame_rate_wake
            &&& !after.gaze.tracking
            &&& after.voice.phase == VoicePhase::Idle && !after.voice.levels
                && !after.voice.release_timer
            &&& after.voice.mode == pet.voice.mode
            &&& after.model.selected == pet.model.selected
            &&& after.model.generation == pet.model.generation
            &&& after.window == pet.window
            &&& after.paint == pet.paint
            &&& after.chat == pet.chat
            &&& !releases ==> pet.close_actions() == pet.closing_actions()
            &&& releases ==> pet.close_actions() == pet.closing_actions() + (given(
                pet.underlay.events,
                PetAction::StopUnderlayEvents,
            ) + seq![
                PetAction::BeginUnderlayShutdown { generation: pet.model.generation },
            ])
        }),
        pet.closing_actions() == pet.voice.close_actions() + given(
            pet.gaze.tracking,
            PetAction::StopCursorTracking,
        ) + (given(pet.model.cancellation, PetAction::CancelModel) + given(
            pet.model.wake,
            PetAction::CloseModelWake,
        ) + given(pet.model.frame_rate_wake, PetAction::CloseFrameRateWake)),
        pet.voice.close_actions() == (given(
            pet.voice.release_timer,
            PetAction::StopVoiceReleaseTimer,
        ) + given(
            pet.voice.mode.push_to_talk && pet.voice.available,
            PetAction::SetPushToTalk(false),
        )) + given(pet.voice.available, PetAction::RequestVoiceShutdown) + given(
            pet.voice.levels,
            PetAction::StopVoiceLevels,
        ) + seq![
            PetAction::Chat(ChatRequest::CancelPendingVoice),
            PetAction::Chat(ChatRequest::SetVoiceIndicator(false)),
        ] + given(pet.voice.playback_available, PetAction::StopPlayback),
{
    reveal(DesktopPetView::closing_actions);
    reveal(PetVoice::close_actions);
}

/// Leaving the application stops the voice, the cursor and the model, and waits for a worker
/// that is stopping already.
pub proof fn leaving_stops_everything(pet: DesktopPetView)
    ensures
        ({
            let after = pet.quit();
            let stops = !pet.underlay.shutdown_pending;
            &&& after.underlay.quitting
            &&& !after.underlay.restart_cpu
            &&& after.underlay.attached == (pet.underlay.attached && !stops)
            &&& after.underlay.shutdown_pending == pet.underlay.shutdown_pending
            &&& after.underlay.close_after_shutdown == pet.underlay.close_after_shutdown
            &&& !after.gaze.tracking
            &&& !after.voice.release_timer
            &&& stops ==> !after.model.cancellation && !after.model.wake
                && !after.model.frame_rate_wake
            &&& !stops ==> after.model == pet.model
            &&& after.model.selected == pet.model.selected
            &&& after.model.generation == pet.model.generation
            &&& after.window == pet.window
            &&& after.paint == pet.paint
            &&& after.chat == pet.chat
            &&& pet.quit_actions() == (given(
                pet.voice.release_timer,
                PetAction::StopVoiceReleaseTimer,
            ) + given(
                pet.voice.mode.push_to_talk && pet.voice.available,
                PetAction::SetPushToTalk(false),
            )) + given(pet.voice.available, PetAction::RequestVoiceShutdown) + given(
                pet.gaze.tracking,
                PetAction::StopCursorTracking,
            ) + (if stops {
                given(pet.model.cancellation, PetAction::CancelModel) + given(
                    pet.model.wake,
                    PetAction::CloseModelWake,
                ) + given(pet.model.frame_rate_wake, PetAction::CloseFrameRateWake) + given(
                    pet.underlay.attached,
                    PetAction::ShutdownUnderlay,
                )
            } else {
                seq![PetAction::AwaitUnderlayShutdown]
            })
        }),
{
    reveal(DesktopPetView::quit_actions);
}

/// A new size is tried a bounded number of times; once it is reached or given up, the rasters
/// are those of the window as it is, and the selected model is loaded into them anew.
pub proof fn new_size_is_tried_then_loaded(
    pet: DesktopPetView,
    size: ModelWindowSize,
    reached_target: bool,
    gpu: RasterSize,
    cpu: RasterSize,
)
    requires
        pet.window.pending_size == Some(size),
        pet.window.pending_size_attempts <= 8,
    ensures
        ({
            let after = pet.after_pending_size(reached_target, gpu, cpu);
            let settled = reached_target || pet.window.pending_size_attempts == 8;
            &&& !settled ==> after.window.pending_size == Some(size)
                && after.window.pending_size_attempts == pet.window.pending_size_attempts + 1
                && after.model == pet.model && after.window.raster == pet.window.raster
                && pet.pending_size_actions(reached_target) == seq![PetAction::ResizeWindow(size)]
            &&& settled ==> after.window.pending_size is None
                && after.window.pending_size_attempts == 0 && after.window.gpu_raster == gpu
                && after.window.cpu_raster == cpu && after.window.raster == (
            if pet.underlay.attached {
                gpu
            } else {
                cpu
            }) && after.model.selected == pet.model.selected
            &&& settled && pet.model.selected is Some ==> after.model.generation == revision_after(
                pet.model.generation,
            )
            &&& settled ==> pet.pending_size_actions(reached_target) == pet.reselect_actions(
                pet.model.selected,
            )
            &&& after.voice == pet.voice
            &&& after.chat == pet.chat
            &&& after.window.visible == pet.window.visible
        }),
{
}

/// The window renders at another size if the raster of the side that renders has changed.
pub proof fn render_size_is_that_of_the_renderer(
    pet: DesktopPetView,
    gpu_size_changed: bool,
    cpu: RasterSize,
)
    ensures
        pet.underlay.attached ==> pet.render_size_changed(gpu_size_changed, cpu)
            == gpu_size_changed,
        !pet.underlay.attached ==> (pet.render_size_changed(gpu_size_changed, cpu) <==> cpu
            != pet.window.cpu_raster),
{
}

/// Opening and closing the chat input does just that: the window comes to the front when it
/// opens, the look goes back to the middle, and the cursor is followed again when it closes.
pub proof fn chat_input_opens_and_closes(pet: DesktopPetView, open: bool)
    ensures
        ({
            let after = pet.with_chat_input(open);
            &&& after.chat.input_open == open
            &&& (PetChat { input_open: pet.chat.input_open, ..after.chat }) == pet.chat
            &&& (DesktopPetView { chat: pet.chat, gaze: pet.gaze, ..after }) == pet
            &&& pet.chat.input_open == open ==> after == pet
            &&& open && !pet.chat.input_open ==> !after.gaze.tracking && pet.chat_input_actions(
                open,
            ) == seq![
                PetAction::ActivateWindow,
                PetAction::ResetLookTarget {
                    wake_underlay: pet.underlay.attached,
                    wake_model: pet.model.wake,
                },
            ] + given(pet.gaze.tracking, PetAction::StopCursorTracking) + seq![
                PetAction::Chat(ChatRequest::SetInputVisible(true)),
                PetAction::Notify,
            ]
            &&& open && pet.chat.input_open ==> pet.chat_input_actions(open) == seq![
                PetAction::ActivateWindow,
                PetAction::Chat(ChatRequest::SetInputVisible(true)),
            ]
            &&& !open && pet.chat.input_open ==> pet.chat_input_actions(open) == given(
                after.gaze.tracking && !pet.gaze.tracking,
                PetAction::StartCursorTracking,
            ) + given(
                !after.gaze.tracking && pet.gaze.tracking,
                PetAction::StopCursorTracking,
            ) + seq![PetAction::Chat(ChatRequest::SetInputVisible(false)), PetAction::Notify]
            &&& !open && !pet.chat.input_open ==> pet.chat_input_actions(open).len() == 0
        }),
{
}

/// Opening the chat shows the pet first; where it cannot be shown, nothing happens.
pub proof fn chat_opens_on_a_shown_pet(pet: DesktopPetView, shown: bool, mode: VoiceMode)
    ensures
        ({
            let after = pet.chat_opened(shown, mode);
            let may = pet.window.visible || shown;
            &&& !may ==> after == pet && pet.open_chat_actions(shown, mode).len() == 0
            &&& may ==> after.window.visible && after.chat.input_open
            &&& pet.window.visible && pet.chat.input_open ==> after == pet
            &&& after.model == pet.model
            &&& after.paint.frame == pet.paint.frame
            &&& may ==> pet.open_chat_actions(shown, mode) == pet.set_visible_actions(true, mode)
                + seq![PetAction::ActivateWindow] + pet.after_visibility(
                true,
                mode,
            ).chat_input_actions(true)
            &&& pet.shortcut_closes_chat() <==> pet.window.visible && pet.chat.input_open
        }),
        pet.well_formed() && (pet.window.visible || shown) ==> !pet.chat_opened(
            shown,
            mode,
        ).gaze.tracking,
{
}

/// A click on the tray icon shows the menu, or closes the one that is open.
pub proof fn tray_click_toggles_the_menu(pet: DesktopPetView, native: bool, closed: bool)
    ensures
        ({
            let actions = pet.tray_click_actions(native, closed);
            let menu = pet.window.tray_menu_window;
            &&& !pet.window.tray_available ==> actions.len() == 0
            &&& pet.window.tray_available && native ==> actions.last()
                == PetAction::ShowNativeTrayMenu
            &&& pet.window.tray_available && native ==> (menu matches Some(handle) ==> actions[0]
                == PetAction::CloseTrayMenuWindow(handle) && actions.len() == 2)
            &&& pet.window.tray_available && native && menu is None ==> actions.len() == 1
            &&& pet.window.tray_available && !native && menu is Some && closed ==> actions.len()
                == 0
            &&& pet.window.tray_available && !native && !(menu is Some && closed) ==> actions
                == seq![PetAction::OpenTrayMenuWindow { pet_hidden: !pet.window.visible }]
            &&& menu matches Some(handle) ==> pet.close_tray_actions() == seq![
                PetAction::CloseTrayMenuWindow(handle),
            ]
            &&& menu is None ==> pet.close_tray_actions().len() == 0
            &&& pet.without_tray_menu().window.tray_menu_window is None
            &&& (DesktopPetView {
                window: PetWindow {
                    tray_menu_window: pet.window.tray_menu_window,
                    ..pet.without_tray_menu().window
                },
                ..pet.without_tray_menu()
            }) == pet
        }),
{
}

/// A key does what it is bound to, on the press; only the talk key is held and let go. The
/// window comes to the front for keys that bring something up.
pub proof fn key_does_what_it_is_bound_to(pet: DesktopPetView, pressed: bool, token: bool)
    ensures
        ({
            let key = |action: ShortcutAction| ResolvedShortcut {
                action,
                pressed,
                has_activation_token: token,
            };
            &&& pet.shortcut_actions(key(ShortcutAction::ToggleDesktopPet)) == given(
                pressed && token && !pet.window.visible,
                PetAction::ActivateWithToken,
            ) + given(pressed, PetAction::ToggleVisibility)
            &&& pet.shortcut_actions(key(ShortcutAction::ToggleSettings)) == given(
                pressed,
                PetAction::ToggleSettingsWindow,
            )
            &&& pet.shortcut_actions(key(ShortcutAction::ToggleChatInput)) == given(
                pressed && token && !(pet.window.visible && pet.chat.input_open),
                PetAction::ActivateWithToken,
            ) + given(pressed, PetAction::ToggleChatInput)
            &&& pet.after_shortcut(key(ShortcutAction::ToggleDesktopPet)) == pet
            &&& pet.after_shortcut(key(ShortcutAction::ToggleSettings)) == pet
            &&& pet.after_shortcut(key(ShortcutAction::ToggleChatInput)) == pet
            &&& pet.after_shortcut(key(ShortcutAction::VoiceInput)).voice.release_timer == (pressed
                && pet.voice.mode.push_to_talk)
            &&& pet.shortcut_actions(key(ShortcutAction::VoiceInput))
                == pet.voice.shortcut_actions(pressed)
            &&& (DesktopPetView {
                voice: pet.voice,
                ..pet.after_shortcut(key(ShortcutAction::VoiceInput))
            }) == pet
        }),
{
}

/// The talk key records while it is held, where the voice is set to listen to it.
pub proof fn talk_key_records_while_held(voice: PetVoice, pressed: bool)
    ensures
        ({
            let let_go = given(voice.release_timer, PetAction::StopVoiceReleaseTimer) + given(
                voice.mode.push_to_talk && voice.available,
                PetAction::SetPushToTalk(false),
            );
            &&& voice.release_actions() == let_go
            &&& pressed && voice.mode.push_to_talk ==> voice.shortcut_actions(pressed) == let_go
                + seq![PetAction::Chat(ChatRequest::VoiceInputPressed)] + given(
                voice.available,
                PetAction::SetPushToTalk(true),
            ) + seq![PetAction::StartVoiceReleaseTimer]
            &&& !(pressed && voice.mode.push_to_talk) ==> voice.shortcut_actions(pressed) == let_go
            &&& voice.after_shortcut(pressed).release_timer == (pressed && voice.mode.push_to_talk)
            &&& (PetVoice {
                release_timer: voice.release_timer,
                ..voice.after_shortcut(pressed)
            }) == voice
        }),
{
    reveal(PetVoice::shortcut_actions);
}

/// New voice settings are taken as they are, and whatever was under way ends.
pub proof fn voice_settings_start_anew(voice: PetVoice, mode: VoiceMode, visible: bool)
    ensures
        ({
            let after = voice.with_settings(mode);
            &&& after.mode == mode
            &&& after.phase == VoicePhase::Idle
            &&& !after.levels
            &&& !after.release_timer
            &&& after.available == voice.available
            &&& after.playback_available == voice.playback_available
            &&& voice.available ==> after.revision == voice.revision
            &&& !voice.available ==> after.revision == 0
            &&& voice.settings_actions(visible) == given(
                voice.release_timer,
                PetAction::StopVoiceReleaseTimer,
            ) + given(
                voice.mode.push_to_talk && voice.available,
                PetAction::SetPushToTalk(false),
            ) + given(voice.available, PetAction::ConfigureVoice { off: !visible }) + seq![
                PetAction::Chat(ChatRequest::CancelPendingVoice),
                PetAction::Chat(ChatRequest::SetVoiceIndicator(false)),
            ] + given(voice.playback_available, PetAction::StopPlayback) + given(
                voice.levels,
                PetAction::StopVoiceLevels,
            ) + seq![PetAction::Notify]
        }),
{
    reveal(PetVoice::settings_actions);
}

/// The settings window hands its voice settings to the voice, for a window as it is.
pub proof fn voice_settings_reach_the_voice(pet: DesktopPetView, mode: VoiceMode)
    ensures
        pet.after_settings(SettingsEvent::VoiceChanged(mode)).voice.mode == mode,
        pet.after_settings(SettingsEvent::VoiceChanged(mode)).voice.phase == VoicePhase::Idle,
        pet.settings_actions(SettingsEvent::VoiceChanged(mode)) == given(
            pet.voice.release_timer,
            PetAction::StopVoiceReleaseTimer,
        ) + given(
            pet.voice.mode.push_to_talk && pet.voice.available,
            PetAction::SetPushToTalk(false),
        ) + given(
            pet.voice.available,
            PetAction::ConfigureVoice { off: !pet.window.visible },
        ) + seq![
            PetAction::Chat(ChatRequest::CancelPendingVoice),
            PetAction::Chat(ChatRequest::SetVoiceIndicator(false)),
        ] + given(pet.voice.playback_available, PetAction::StopPlayback) + given(
            pet.voice.levels,
            PetAction::StopVoiceLevels,
        ) + seq![PetAction::Notify],
{
    voice_settings_start_anew(pet.voice, mode, pet.window.visible);
}

/// What is heard is handed to the chat as it was heard, under its own number, as long as it
/// belongs to the settings in force.
pub proof fn what_is_heard_is_handed_on(
    voice: PetVoice,
    revision: u64,
    utterance_id: u64,
    text: String,
)
    ensures
        voice.event_actions(VoiceEvent::TranscriptReady { revision, utterance_id, text }) == given(
            revision == voice.revision,
            PetAction::Chat(ChatRequest::VoiceTranscript { utterance_id, text }),
        ),
        voice.event_actions(
            VoiceEvent::TranscriptionRequested { revision, utterance_id, model_id: text },
        ) == given(
            revision == voice.revision && voice.available,
            PetAction::Chat(
                ChatRequest::TranscribeVoice { revision, utterance_id, model_id: text },
            ),
        ),
        voice.event_actions(VoiceEvent::UtteranceCancelled { revision, utterance_id }) == given(
            revision == voice.revision,
            PetAction::Chat(ChatRequest::VoiceUtteranceCancelled { utterance_id }),
        ),
        voice.event_actions(VoiceEvent::Error { revision, message: text }) == given(
            revision == voice.revision,
            PetAction::Chat(ChatRequest::VoiceFailed { message: text }),
        ),
        voice.event_actions(VoiceEvent::SpeechStarted { revision, utterance_id }) == given(
            revision == voice.revision && voice.playback_available,
            PetAction::StopPlayback,
        ) + given(
            revision == voice.revision,
            PetAction::Chat(ChatRequest::VoiceSpeechStarted { utterance_id }),
        ),
        voice.after_event(VoiceEvent::TranscriptReady { revision, utterance_id, text }) == voice,
        voice.after_event(
            VoiceEvent::TranscriptionRequested { revision, utterance_id, model_id: text },
        ) == voice,
        voice.after_event(VoiceEvent::UtteranceCancelled { revision, utterance_id }) == voice,
        voice.after_event(VoiceEvent::Error { revision, message: text }) == voice,
        voice.after_event(VoiceEvent::SpeechStarted { revision, utterance_id }) == voice,
{
}

/// The phase of the voice is the one that is reported; levels are sampled while it records,
/// and the chat shows that someone is being heard.
pub proof fn reported_phase_is_shown(voice: PetVoice, revision: u64, phase: VoicePhase)
    ensures
        ({
            let event = VoiceEvent::ActivityChanged { revision, phase };
            let after = voice.after_event(event);
            let current = revision == voice.revision && voice.available;
            &&& !current ==> after == voice && voice.event_actions(event).len() == 0
            &&& current ==> after.phase == phase && after.levels == (phase
                == VoicePhase::Recording) && after.revision == voice.revision && after.mode
                == voice.mode && after.release_timer == voice.release_timer
            &&& current ==> voice.event_actions(event) == seq![
                PetAction::Chat(ChatRequest::SetVoiceIndicator(phase != VoicePhase::Idle)),
            ] + given(
                phase == VoicePhase::Recording && !voice.levels,
                PetAction::StartVoiceLevels,
            ) + given(
                phase != VoicePhase::Recording && voice.levels,
                PetAction::StopVoiceLevels,
            ) + seq![PetAction::Notify]
        }),
        voice.with_levels_synced().levels == (voice.phase == VoicePhase::Recording && (voice.levels
            || voice.available)),
        (PetVoice { levels: voice.levels, ..voice.with_levels_synced() }) == voice,
        voice.talk_key_works() <==> voice.mode.push_to_talk && voice.available,
{
}

/// The errors of the shortcuts are those that were reported.
pub proof fn shortcut_errors_are_kept(pet: DesktopPetView, errors: Vec<String>)
    ensures
        pet.with_shortcut_errors(errors).shortcuts.runtime_errors == errors,
        pet.with_shortcut_errors(errors).shortcuts.available == pet.shortcuts.available,
        (DesktopPetView { shortcuts: pet.shortcuts, ..pet.with_shortcut_errors(errors) }) == pet,
        !pet.with_talk_key_released().voice.release_timer,
        (DesktopPetView {
            voice: PetVoice {
                release_timer: pet.voice.release_timer,
                ..pet.with_talk_key_released().voice
            },
            ..pet.with_talk_key_released()
        }) == pet,
{
}

/// What is drawn is what there is: the frame of the current generation, what is to be said
/// about its model, and the chat in place of the settings button.
pub proof fn drawing_shows_what_there_is(pet: DesktopPetView)
    ensures
        ({
            let scene = pet.scene_view();
            &&& scene.generation == pet.model.generation
            &&& scene.frame == pet.paint.frame
            &&& scene.message == pet.model.state.cover_message()
            &&& pet.chat.input_open ==> scene.warning is None
            &&& !pet.chat.input_open ==> scene.warning == pet.model.state.load_warning()
            &&& scene.fps_counter == pet.paint.show_fps
            &&& scene.warning_below_counter == pet.paint.show_fps
            &&& scene.chat_panel == pet.chat.input_open
            &&& scene.settings_button == !pet.chat.input_open
        }),
        pet.paint.frame matches Some(frame) ==> pet.painted_image() == frame.image,
        pet.paint.frame is None ==> pet.painted_image() is None,
{
}

/// Frames are asked for by the model's own loop alone: while its generation is current and
/// rendered on the processor, with the visibility as it is.
pub proof fn frames_are_for_the_running_model(pet: DesktopPetView, generation: u64)
    ensures
        generation == pet.model.generation && !pet.underlay.attached ==> pet.activity_for(
            generation,
        ) == Some((pet.window.visible, pet.window.visibility_revision)),
        generation != pet.model.generation || pet.underlay.attached ==> pet.activity_for(
            generation,
        ) is None,
{
}

/// Frames are paced as the settings ask.
pub proof fn frames_are_paced_as_asked(rate: FrameRate)
    ensures
        pacer_for(rate).target_fps == rate.limit,
        pacer_for(rate).allow_degradation == rate.allows_degradation,
{
}

/// A wait ends with whatever came, a changed rate before a frame; a side that has gone ends
/// the loop.
pub proof fn wait_ends_with_what_came(frame: Option<bool>)
    ensures
        wait_result(Some(true), frame) == Some(FrameWaitResult::FrameRateChanged),
        wait_result(Some(false), frame) == Some(FrameWaitResult::Closed),
        wait_result(None, Some(true)) == Some(FrameWaitResult::FrameReady),
        wait_result(None, Some(false)) == Some(FrameWaitResult::Closed),
        wait_result(None, None) is None,
{
}

/// A loop whose model is gone stops; a hidden one waits for a change; a visible one renders
/// when a frame is due, or waits for input.
pub proof fn loop_does_what_is_due(
    frames: FrameLoop,
    visible: bool,
    visibility_revision: u64,
    rate: FrameRate,
)
    ensures
        ({
            let activity = Some((visible, visibility_revision));
            let after = frames.after_look(activity);
            let plan = frames.plan_after_look(activity, rate);
            let rested = !visible || frames.observed_visibility_revision != visibility_revision;
            &&& after.generation == frames.generation
            &&& after.observed_visibility_revision == visibility_revision
            &&& after.needs_next_frame == (frames.needs_next_frame || rested)
            &&& after.reset_delta == (frames.reset_delta || rested)
            &&& rested ==> plan.pacer == PacerChange::ResetAfterIdle
            &&& !rested ==> plan.pacer == PacerChange::Keep
            &&& !visible ==> plan.step == FrameStep::AwaitRateChange && plan.target is None
            &&& visible ==> (plan.target matches Some(pacer) && pacer.target_fps == rate.limit
                && pacer.allow_degradation == rate.allows_degradation)
            &&& visible && !after.needs_next_frame ==> plan.step == FrameStep::AwaitInput
            &&& visible && after.needs_next_frame && rate.follows_display ==> plan.step
                == FrameStep::AwaitDisplay
            &&& visible && after.needs_next_frame && !rate.follows_display ==> plan.step
                == FrameStep::AwaitTimer
        }),
        frames.after_look(None) == frames,
        frames.plan_after_look(None, rate).step == FrameStep::Stop,
        frames.plan_after_look(None, rate).target is None,
        frames.plan_after_look(None, rate).pacer == PacerChange::Keep,
{
}

/// A frame that is due is rendered, with no time passed after a rest; a changed rate starts
/// the loop again, and an end ends it.
pub proof fn due_frame_is_rendered(frames: FrameLoop, rate: FrameRate, result: FrameWaitResult)
    ensures
        ({
            let ready = FrameWaitResult::FrameReady;
            let due = frames.plan_after_wait(ready);
            let input = frames.plan_after_input(ready, rate);
            let after = frames.after_wait(ready);
            let woken = frames.after_input(ready, rate);
            &&& due.step == FrameStep::Render { zero_delta: frames.reset_delta }
            &&& due.pacer == PacerChange::Keep
            &&& due.target is None
            &&& !after.reset_delta
            &&& after.needs_next_frame == frames.needs_next_frame
            &&& after.generation == frames.generation
            &&& after.observed_visibility_revision == frames.observed_visibility_revision
            &&& input.pacer == PacerChange::ResetAfterIdle
            &&& input.target == Some(pacer_for(rate))
            &&& rate.follows_display ==> input.step == FrameStep::AwaitDisplay
            &&& !rate.follows_display ==> input.step == FrameStep::Render { zero_delta: true }
            &&& woken.needs_next_frame
            &&& woken.reset_delta == rate.follows_display
            &&& woken.generation == frames.generation
            &&& woken.observed_visibility_revision == frames.observed_visibility_revision
        }),
        result != FrameWaitResult::FrameReady ==> {
            &&& frames.after_wait(result) == frames
            &&& frames.after_input(result, rate) == frames
            &&& frames.plan_after_wait(result) == frames.plan_after_input(result, rate)
            &&& result == FrameWaitResult::FrameRateChanged ==> frames.plan_after_wait(result).step
                == FrameStep::Restart && frames.plan_after_wait(result).pacer
                == PacerChange::Rebuild
            &&& result == FrameWaitResult::Closed ==> frames.plan_after_wait(result).step
                == FrameStep::Stop && frames.plan_after_wait(result).pacer == PacerChange::Keep
            &&& frames.plan_after_wait(result).target is None
        },
{
}

/// Another frame is due after one if the model moves, if commands are left over, or if input
/// has come in.
pub proof fn next_frame_is_due(moves: bool, taken: nat, limit: nat, input_pending: bool)
    ensures
        FrameLoop::frame_due_after_render(moves, taken, limit, input_pending) <==> moves || taken
            == limit || input_pending,
{
}

/// Levels are sampled while the voice records, and only where something can be heard.
pub proof fn levels_follow_the_recording(voice: PetVoice)
    ensures
        ({
            let wanted = voice.phase == VoicePhase::Recording && (voice.levels
                || voice.available);
            &&& wanted && !voice.levels ==> voice.level_sync_actions() == seq![
                PetAction::StartVoiceLevels,
            ]
            &&& !wanted && voice.levels ==> voice.level_sync_actions() == seq![
                PetAction::StopVoiceLevels,
            ]
            &&& wanted == voice.levels ==> voice.level_sync_actions().len() == 0
        }),
{
}

/// Showing the window touches nothing but what runs while it is on screen.
pub proof fn showing_leaves_the_rest(pet: DesktopPetView, mode: VoiceMode)
    ensures
        ({
            let shown = pet.shown(mode);
            &&& (PaintState { fps_sampling: pet.paint.fps_sampling, ..shown.paint }) == pet.paint
            &&& (UnderlayState {
                restore_pending: pet.underlay.restore_pending,
                restart_cpu: pet.underlay.restart_cpu,
                ..shown.underlay
            }) == pet.underlay
            &&& (GazeState { tracking: pet.gaze.tracking, ..shown.gaze }) == pet.gaze
            &&& shown.gaze.tracking == shown.tracks_cursor()
        }),
{
}

/// Closing the window touches nothing but what it ends.
pub proof fn closing_leaves_the_rest(pet: DesktopPetView)
    ensures
        ({
            let closed = pet.close_requested();
            &&& (UnderlayState {
                attached: pet.underlay.attached,
                events: pet.underlay.events,
                shutdown_pending: pet.underlay.shutdown_pending,
                restart_cpu: pet.underlay.restart_cpu,
                close_after_shutdown: pet.underlay.close_after_shutdown,
                ..closed.underlay
            }) == pet.underlay
            &&& (ModelSlot {
                cancellation: pet.model.cancellation,
                wake: pet.model.wake,
                frame_rate_wake: pet.model.frame_rate_wake,
                ..closed.model
            }) == pet.model
            &&& (GazeState { tracking: pet.gaze.tracking, ..closed.gaze }) == pet.gaze
            &&& (PetVoice {
                phase: pet.voice.phase,
                levels: pet.voice.levels,
                release_timer: pet.voice.release_timer,
                ..closed.voice
            }) == pet.voice
            &&& closed.shortcuts == pet.shortcuts && closed.language == pet.language
        }),
{
}

/// Leaving the application touches nothing but what it ends.
pub proof fn leaving_leaves_the_rest(pet: DesktopPetView)
    ensures
        ({
            let left = pet.quit();
            &&& (UnderlayState {
                attached: pet.underlay.attached,
                restart_cpu: pet.underlay.restart_cpu,
                quitting: pet.underlay.quitting,
                ..left.underlay
            }) == pet.underlay
            &&& (ModelSlot {
                cancellation: pet.model.cancellation,
                wake: pet.model.wake,
                frame_rate_wake: pet.model.frame_rate_wake,
                ..left.model
            }) == pet.model
            &&& (GazeState { tracking: pet.gaze.tracking, ..left.gaze }) == pet.gaze
            &&& (PetVoice { release_timer: pet.voice.release_timer, ..left.voice }) == pet.voice
            &&& left.shortcuts == pet.shortcuts && left.language == pet.language
        }),
{
}

/// Hiding the window sets the voice anew and lets go of the cursor, and touches neither
/// otherwise.
pub proof fn hiding_leaves_the_rest(pet: DesktopPetView, mode: VoiceMode)
    ensures
        ({
            let hidden = pet.hidden(mode);
            &&& (GazeState { tracking: pet.gaze.tracking, ..hidden.gaze }) == pet.gaze
            &&& hidden.voice == pet.voice.with_settings(mode)
        }),
{
}

} // verus!
