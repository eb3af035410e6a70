//! What holds of the pet window at all times.

use vstd::prelude::*;

use crate::agent::message::AppLanguage;
use crate::desktop_pet::events::{PetSetup, SettingsEvent};
use crate::desktop_pet::generation::LoadedModelGeneration;
use crate::desktop_pet::gpu_events::GpuUnderlayEvent;
use crate::desktop_pet::gpu_lifecycle::AttachOutcome;
use crate::desktop_pet::shortcut::ResolvedShortcut;
use crate::desktop_pet::state::{
    diagnostics_warning, same_model, DesktopPetView, FrameRef, LoadErrorText, ModelLabel,
    ModelMessage, ModelPath, PetAction, RasterSize, VoiceMode,
};
use crate::desktop_pet::voice::VoiceEvent;
use crate::revision::revision_after;

verus! {

impl DesktopPetView {
    /// What holds between any two events:
    /// a pointer is followed only where that is wanted, the frame rate is sampled only
    /// where it is shown, a hidden window holds no frame, a worker that is stopping is no
    /// longer attached, its return is planned only for a visible window, and the channels
    /// of a model rendered on the processor exist only together with its task, which the
    /// graphics worker never shares.
    pub open spec fn well_formed(self) -> bool {
        &&& self.gaze.tracking ==> self.tracks_cursor()
        &&& self.paint.fps_sampling ==> self.paint.show_fps && self.window.visible
        &&& !self.window.visible ==> self.paint.frame is None
        &&& self.underlay.shutdown_pending ==> !self.underlay.attached
        &&& self.underlay.restore_pending ==> self.window.visible
        &&& self.model.wake ==> self.model.task
        &&& self.model.frame_rate_wake ==> self.model.task
        &&& self.model.task ==> !self.underlay.attached
    }
}

/// The window starts well-formed, and its first model is a generation of its own.
pub proof fn start_is_well_formed(setup: PetSetup)
    ensures
        DesktopPetView::initial_state(setup).loaded_with(setup.initial_model, false).well_formed(),
        DesktopPetView::initial_state(setup).loaded_with(
            setup.initial_model,
            false,
        ).model.generation == 1,
{
}

/// Loading, reloading and asking again for a model keep the window well-formed.
pub proof fn load_keeps_well_formed(pet: DesktopPetView, path: Option<ModelPath>, force: bool)
    requires
        pet.well_formed(),
    ensures
        pet.loaded_with(path, force).well_formed(),
        pet.reselected(path).well_formed(),
{
}

/// So do the results of a model rendered on the processor.
pub proof fn generation_keeps_well_formed(
    pet: DesktopPetView,
    loaded: LoadedModelGeneration,
    label: ModelLabel,
    error: LoadErrorText,
    text: String,
    frame: FrameRef,
)
    requires
        pet.well_formed(),
    ensures
        pet.with_cpu_loaded(loaded).well_formed(),
        pet.with_cpu_load_failure(label, error).well_formed(),
        pet.with_render_failure(label, text).well_formed(),
        pet.with_rendered_frame(frame).well_formed(),
{
}

/// So does a graphics worker that is attached again, once the one before it has stopped.
pub proof fn restored_worker_keeps_well_formed(pet: DesktopPetView, outcome: AttachOutcome)
    requires
        pet.well_formed(),
        !pet.underlay.shutdown_pending,
    ensures
        pet.restored(outcome).well_formed(),
{
}

/// So do a failing and a stopping graphics worker, and a window that is left.
pub proof fn worker_keeps_well_formed(
    pet: DesktopPetView,
    generation: u64,
    path: Option<ModelPath>,
)
    requires
        pet.well_formed(),
    ensures
        pet.shut_down(generation, path).well_formed(),
        pet.shutdown_finished(generation, path).well_formed(),
        pet.fallen_back().well_formed(),
        pet.quit().well_formed(),
        pet.close_requested().well_formed(),
{
    load_keeps_well_formed(pet, path, false);
}

/// So do the reports of the graphics worker.
pub proof fn gpu_event_keeps_well_formed(pet: DesktopPetView, event: GpuUnderlayEvent)
    requires
        pet.well_formed(),
    ensures
        pet.after_gpu_event(event).well_formed(),
        pet.after_channel_closed().well_formed(),
{
    worker_keeps_well_formed(pet, pet.model.generation, pet.model.selected);
}

/// So do showing, hiding, resizing and typing.
pub proof fn window_keeps_well_formed(
    pet: DesktopPetView,
    visible: bool,
    mode: VoiceMode,
    reached: bool,
    gpu: RasterSize,
    cpu: RasterSize,
    open: bool,
    shown: bool,
)
    requires
        pet.well_formed(),
    ensures
        pet.after_visibility(visible, mode).well_formed(),
        pet.after_pending_size(reached, gpu, cpu).well_formed(),
        pet.with_rasters(gpu, cpu).well_formed(),
        pet.with_chat_input(open).well_formed(),
        pet.chat_opened(shown, mode).well_formed(),
{
}

/// So do changes in the settings, shortcuts and voice events.
pub proof fn input_keeps_well_formed(
    pet: DesktopPetView,
    event: SettingsEvent,
    shortcut: ResolvedShortcut,
    voice_event: VoiceEvent,
)
    requires
        pet.well_formed(),
    ensures
        pet.after_settings(event).well_formed(),
        pet.after_shortcut(shortcut).well_formed(),
        (DesktopPetView { voice: pet.voice.after_event(voice_event), ..pet }).well_formed(),
{
}

/// Asking for the model that is already loading or loaded does nothing at all; a forced
/// reload always makes a new generation.
pub proof fn same_model_is_reused(pet: DesktopPetView, path: Option<ModelPath>)
    requires
        pet.model.state.active(),
        same_model(pet.model.selected, path),
    ensures
        pet.loaded_with(path, false) == pet,
        pet.load_actions(path, false) == Seq::<PetAction>::empty(),
        pet.loaded_with(path, true).model.generation == revision_after(pet.model.generation),
        pet.loaded_with(path, true).model.generation != pet.model.generation,
{
}

/// A change of language rewords the warning of a loaded model and nothing else: what is said
/// of a model that failed stays in the language in which it was said, and one that is being
/// loaded keeps its name. What is said from then on is in the new language.
pub proof fn new_language_rewords_warning_alone(
    pet: DesktopPetView,
    language: AppLanguage,
    summary: Option<String>,
    label: ModelLabel,
    error: LoadErrorText,
    text: String,
)
    ensures
        pet.speaking(language, summary).model.state.cover_message()
            == pet.model.state.cover_message(),
        pet.model.state is Ready ==> pet.speaking(language, summary).model.state.load_warning()
            == diagnostics_warning(summary, language),
        ({
            let spoken = pet.speaking(language, summary);
            &&& spoken.with_cpu_load_failure(label, error).model.state.cover_message() == Some(
                ModelMessage::LoadFailed { label, error, language },
            )
            &&& spoken.with_render_failure(label, text).model.state.cover_message() == Some(
                ModelMessage::RenderFailed { label, error: text, language },
            )
        }),
{
}

/// Loading twice is loading once: the second request finds the first one on its way.
pub proof fn loading_twice_is_loading_once(pet: DesktopPetView, path: ModelPath)
    ensures
        ({
            let once = pet.loaded_with(Some(path), false);
            &&& once.loaded_with(Some(path), false) == once
            &&& once.load_actions(Some(path), false) == Seq::<PetAction>::empty()
        }),
{
}

/// Hiding the pet and showing it again before the worker has stopped brings the worker
/// back: once it has stopped, a new one is asked for, and the model stays off the
/// processor.
pub proof fn quick_return_restores_worker(
    pet: DesktopPetView,
    mode: VoiceMode,
    generation: u64,
    path: Option<ModelPath>,
)
    requires
        pet.well_formed(),
        pet.window.visible,
        pet.underlay.attached,
        !pet.underlay.close_after_shutdown,
        !pet.underlay.quitting,
    ensures
        ({
            let back = pet.hidden(mode).shown(mode);
            &&& back.underlay.shutdown_pending
            &&& back.underlay.restore_pending
            &&& !back.underlay.restart_cpu
            &&& back.shutdown_finished_actions(generation, path) == seq![PetAction::AttachUnderlay]
            &&& back.shutdown_finished(generation, path).restored(
                AttachOutcome::Attached,
            ).underlay.attached
        }),
{
}

/// A pet that stays hidden moves its model to the processor once the worker has stopped.
pub proof fn hidden_model_moves_to_cpu(pet: DesktopPetView, mode: VoiceMode)
    requires
        pet.well_formed(),
        pet.window.visible,
        pet.underlay.attached,
        !pet.underlay.close_after_shutdown,
        pet.model.selected is Some,
    ensures
        ({
            let hidden = pet.hidden(mode);
            let settled = hidden.shutdown_finished(pet.model.generation, pet.model.selected);
            &&& !settled.underlay.attached
            &&& !settled.underlay.shutdown_pending
            &&& settled.model.task
            &&& settled.model.selected == pet.model.selected
            &&& settled.model.generation == revision_after(pet.model.generation)
        }),
{
}

/// A worker that fails leaves the same model to the processor, in a new generation, at
/// the processor's own raster.
pub proof fn failed_worker_moves_model_to_cpu(pet: DesktopPetView)
    requires
        pet.well_formed(),
        pet.underlay.attached,
        !pet.underlay.quitting,
        !pet.underlay.close_after_shutdown,
        !pet.underlay.restore_pending,
        pet.model.selected is Some,
    ensures
        ({
            let failed = pet.fallen_back();
            let settled = failed.shutdown_finished(pet.model.generation, pet.model.selected);
            &&& failed.underlay.shutdown_pending
            &&& settled.model.task
            &&& settled.model.selected == pet.model.selected
            &&& settled.model.generation != pet.model.generation
            &&& settled.window.raster == pet.window.cpu_raster
        }),
{
}

/// A window that is being left starts nothing any more: a failing worker is stopped on
/// the spot and its model is not loaded again.
pub proof fn quitting_window_restarts_nothing(pet: DesktopPetView)
    requires
        pet.underlay.quitting,
        !pet.underlay.shutdown_pending,
    ensures
        !pet.fallen_back().underlay.restart_cpu,
        !pet.fallen_back().underlay.attached,
        pet.fallen_back().model.generation == pet.model.generation,
        !pet.can_restore(),
{
}

/// A window asked to close is removed only once no worker holds on to it.
pub proof fn closing_waits_for_worker(pet: DesktopPetView, generation: u64, path: Option<ModelPath>)
    requires
        pet.well_formed(),
        !pet.closes_at_once(),
    ensures
        pet.close_requested().underlay.shutdown_pending,
        pet.close_requested().shutdown_finished_actions(generation, path) == seq![
            PetAction::RemoveWindow,
        ],
{
}

} // verus!
