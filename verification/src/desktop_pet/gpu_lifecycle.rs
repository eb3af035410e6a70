//! The graphics worker: attached, failing over to the processor, released and restored.

use vstd::prelude::*;

use crate::desktop_pet::state::{
    clone_model, if_due, push_if, DesktopPetView, GazeState, ModelPath, ModelSlot, PetAction,
    PetVoice, PetWindow, UnderlayState,
};

verus! {

/// What came of attaching a graphics worker.
#[derive(Debug, Clone, Copy, PartialEq, Eq, Structural)]
pub enum AttachOutcome {
    Attached,
    Unsupported,
    Failed,
}

impl DesktopPetView {
    /// What waking the model takes.
    pub open spec fn wake_model_actions(self) -> Seq<PetAction> {
        if_due(self.underlay.attached, PetAction::WakeUnderlay) + if_due(
            self.model.wake,
            PetAction::WakeModel,
        )
    }

    /// Wakes the model, wherever it is rendered.
    pub fn wake_model(&self) -> (actions: Vec<PetAction>)
        ensures
            actions@ == self.wake_model_actions(),
    {
        let mut actions: Vec<PetAction> = Vec::new();
        push_if(&mut actions, self.underlay.attached, PetAction::WakeUnderlay);
        push_if(&mut actions, self.model.wake, PetAction::WakeModel);
        proof {
            assert(actions@ =~= self.wake_model_actions());
        }
        actions
    }

    /// What announcing a new frame rate takes.
    pub open spec fn wake_frame_rate_actions(self) -> Seq<PetAction> {
        if_due(self.underlay.attached, PetAction::WakeUnderlay) + if_due(
            self.model.frame_rate_wake,
            PetAction::WakeFrameRate,
        )
    }

    /// Announces a new frame rate to whatever renders the model.
    pub fn wake_frame_rate_scheduler(&self) -> (actions: Vec<PetAction>)
        ensures
            actions@ == self.wake_frame_rate_actions(),
    {
        let mut actions: Vec<PetAction> = Vec::new();
        push_if(&mut actions, self.underlay.attached, PetAction::WakeUnderlay);
        push_if(&mut actions, self.model.frame_rate_wake, PetAction::WakeFrameRate);
        proof {
            assert(actions@ =~= self.wake_frame_rate_actions());
        }
        actions
    }

    /// Whether reading the worker's events has to be started.
    pub open spec fn starts_events(self) -> bool {
        self.underlay.attached && !self.underlay.events
    }

    /// Starts reading the events of an attached worker.
    pub fn start_gpu_event_task(&mut self) -> (actions: Vec<PetAction>)
        ensures
            *final(self) == (DesktopPetView {
                underlay: UnderlayState {
                    events: old(self).underlay.events || old(self).underlay.attached,
                    ..old(self).underlay
                },
                ..*old(self)
            }),
            actions@ == if_due(old(self).starts_events(), PetAction::StartUnderlayEvents),
    {
        if self.underlay.events || !self.underlay.attached {
            return Vec::new();
        }
        self.underlay.events = true;
        vec![PetAction::StartUnderlayEvents]
    }

    /// Takes note that the worker's events are no longer read.
    pub fn gpu_events_ended(&mut self)
        ensures
            *final(self) == (DesktopPetView {
                underlay: UnderlayState { events: false, ..old(self).underlay },
                ..*old(self)
            }),
    {
        self.underlay.events = false;
    }

    /// The state with the worker let go and stopping.
    pub open spec fn with_shutdown_begun(self) -> DesktopPetView {
        DesktopPetView {
            underlay: UnderlayState {
                attached: false,
                events: false,
                shutdown_pending: true,
                ..self.underlay
            },
            gaze: GazeState { tracking: false, ..self.gaze },
            ..self
        }
    }

    /// What letting go of the worker takes.
    pub open spec fn begin_shutdown_actions(self, generation: u64) -> Seq<PetAction> {
        if_due(self.underlay.events, PetAction::StopUnderlayEvents) + if_due(
            self.gaze.tracking,
            PetAction::StopCursorTracking,
        ) + seq![PetAction::BeginUnderlayShutdown { generation }]
    }

    /// The state with no model selected, as it is just before the model is asked for
    /// again.
    pub open spec fn with_model_unselected(self) -> DesktopPetView {
        DesktopPetView { model: ModelSlot { selected: None, ..self.model }, ..self }
    }

    /// The state after the model at `path` was asked for again.
    pub open spec fn reselected(self, path: Option<ModelPath>) -> DesktopPetView {
        self.with_model_unselected().loaded_with(path, false)
    }

    /// What asking for the model at `path` again takes.
    #[verifier::opaque]
    pub open spec fn reselect_actions(self, path: Option<ModelPath>) -> Seq<PetAction> {
        self.with_model_unselected().load_actions(path, false)
    }

    /// Asks for the model at `path` again, whatever is selected.
    pub fn reselect_model(&mut self, path: Option<ModelPath>) -> (actions: Vec<PetAction>)
        ensures
            *final(self) == old(self).reselected(path),
            actions@ == old(self).reselect_actions(path),
    {
        self.model.selected = None;
        proof {
            reveal(DesktopPetView::reselect_actions);
        }
        self.load_model(path)
    }

    /// Whether the end of a shutdown of `generation` moves the model to the processor.
    pub open spec fn restarts_on_cpu(self, generation: u64) -> bool {
        self.underlay.restart_cpu && self.model.generation == generation
    }

    /// The state after a shutdown was begun for `generation`, with the model at `path`
    /// to follow on the processor.
    pub open spec fn shut_down(self, generation: u64, path: Option<ModelPath>) -> DesktopPetView {
        if self.underlay.attached {
            self.with_shutdown_begun()
        } else if self.restarts_on_cpu(generation) {
            self.reselected(path)
        } else {
            self
        }
    }

    /// What beginning a shutdown takes.
    pub open spec fn shut_down_actions(self, generation: u64, path: Option<ModelPath>) -> Seq<
        PetAction,
    > {
        if self.underlay.attached {
            self.begin_shutdown_actions(generation)
        } else if self.restarts_on_cpu(generation) {
            self.reselect_actions(path)
        } else {
            Seq::empty()
        }
    }

    /// Lets go of the worker, which then stops in the background. Where there is none,
    /// the model moves to the processor at once, if it is to.
    pub fn begin_gpu_shutdown(&mut self, generation: u64, model_path: Option<ModelPath>) -> (actions:
        Vec<PetAction>)
        ensures
            *final(self) == old(self).shut_down(generation, model_path),
            actions@ == old(self).shut_down_actions(generation, model_path),
    {
        if !self.underlay.attached {
            if self.underlay.restart_cpu && self.model.generation == generation {
                return self.reselect_model(model_path);
            }
            return Vec::new();
        }
        let mut actions: Vec<PetAction> = Vec::new();
        push_if(&mut actions, self.underlay.events, PetAction::StopUnderlayEvents);
        self.underlay.attached = false;
        self.underlay.events = false;
        self.underlay.shutdown_pending = true;
        let mut cursor = self.sync_cursor_tracking_task();
        actions.append(&mut cursor);
        actions.push(PetAction::BeginUnderlayShutdown { generation });
        proof {
            assert(actions@ =~= old(self).begin_shutdown_actions(generation));
        }
        actions
    }

    /// Whether a worker released for a hidden window may be attached again.
    pub open spec fn can_restore(self) -> bool {
        !self.underlay.attached && self.underlay.released_for_hidden && !self.underlay.quitting
    }

    /// The state after the worker that was stopping for `generation` has stopped.
    pub open spec fn shutdown_finished(self, generation: u64, path: Option<ModelPath>) -> DesktopPetView {
        let stopped = DesktopPetView {
            underlay: UnderlayState { shutdown_pending: false, ..self.underlay },
            ..self
        };
        if self.underlay.close_after_shutdown {
            stopped
        } else if self.underlay.restore_pending && self.window.visible {
            DesktopPetView {
                underlay: UnderlayState { restore_pending: false, ..stopped.underlay },
                ..stopped
            }
        } else if self.restarts_on_cpu(generation) {
            stopped.reselected(path)
        } else {
            stopped
        }
    }

    /// What the end of a shutdown takes: the window goes, the worker comes back, or the
    /// model moves to the processor.
    pub open spec fn shutdown_finished_actions(self, generation: u64, path: Option<ModelPath>) -> Seq<
        PetAction,
    > {
        let stopped = DesktopPetView {
            underlay: UnderlayState { shutdown_pending: false, ..self.underlay },
            ..self
        };
        if self.underlay.close_after_shutdown {
            seq![PetAction::RemoveWindow]
        } else if self.underlay.restore_pending && self.window.visible {
            if_due(self.can_restore(), PetAction::AttachUnderlay)
        } else if self.restarts_on_cpu(generation) {
            stopped.reselect_actions(path)
        } else {
            Seq::empty()
        }
    }

    /// Takes note that the worker has stopped. `generation` and `model_path` are those
    /// with which the shutdown was begun.
    pub fn finish_gpu_shutdown(&mut self, generation: u64, model_path: Option<ModelPath>) -> (actions:
        Vec<PetAction>)
        ensures
            *final(self) == old(self).shutdown_finished(generation, model_path),
            actions@ == old(self).shutdown_finished_actions(generation, model_path),
    {
        self.underlay.shutdown_pending = false;
        if self.underlay.close_after_shutdown {
            vec![PetAction::RemoveWindow]
        } else if self.underlay.restore_pending && self.window.visible {
            self.underlay.restore_pending = false;
            self.request_underlay()
        } else if self.underlay.restart_cpu && self.model.generation == generation {
            self.reselect_model(model_path)
        } else {
            Vec::new()
        }
    }

    /// Asks for a worker to be attached, where one may be.
    fn request_underlay(&self) -> (actions: Vec<PetAction>)
        ensures
            actions@ == if_due(self.can_restore(), PetAction::AttachUnderlay),
    {
        if self.underlay.attached || !self.underlay.released_for_hidden || self.underlay.quitting {
            return Vec::new();
        }
        vec![PetAction::AttachUnderlay]
    }

    /// The state with the release for a hidden window undone.
    pub open spec fn with_release_undone(self, attached: bool) -> DesktopPetView {
        DesktopPetView {
            underlay: UnderlayState {
                attached,
                events: self.underlay.events || attached,
                restart_cpu: false,
                restore_pending: false,
                released_for_hidden: false,
                ..self.underlay
            },
            ..self
        }
    }

    /// Whether a window that stays on the processor has to load its model anew: nothing
    /// renders it.
    pub open spec fn reloads_after_hidden(self) -> bool {
        !self.model.task && self.model.selected is Some
    }

    /// The state after an attempt to attach the worker again.
    pub open spec fn restored(self, outcome: AttachOutcome) -> DesktopPetView {
        let undone = self.with_release_undone(outcome == AttachOutcome::Attached);
        if !self.can_restore() {
            self
        } else if outcome == AttachOutcome::Attached || self.reloads_after_hidden() {
            undone.loaded_with(self.model.selected, true)
        } else {
            undone
        }
    }

    /// What an attempt to attach the worker again takes.
    pub open spec fn restore_actions(self, outcome: AttachOutcome) -> Seq<PetAction> {
        let undone = self.with_release_undone(outcome == AttachOutcome::Attached);
        if !self.can_restore() {
            Seq::empty()
        } else if outcome == AttachOutcome::Attached {
            if_due(!self.underlay.events, PetAction::StartUnderlayEvents) + undone.load_actions(
                self.model.selected,
                true,
            )
        } else if self.reloads_after_hidden() {
            undone.load_actions(self.model.selected, true)
        } else {
            Seq::empty()
        }
    }

    /// Takes what came of attaching the worker again after the window was hidden. The
    /// model is loaded anew on the worker, or goes on on the processor.
    pub fn restore_gpu_underlay(&mut self, outcome: AttachOutcome) -> (actions: Vec<PetAction>)
        ensures
            *final(self) == old(self).restored(outcome),
            actions@ == old(self).restore_actions(outcome),
    {
        if self.underlay.attached || !self.underlay.released_for_hidden || self.underlay.quitting {
            return Vec::new();
        }
        match outcome {
            AttachOutcome::Attached => self.adopt_underlay(),
            _ => self.restore_cpu_after_hidden(),
        }
    }

    fn adopt_underlay(&mut self) -> (actions: Vec<PetAction>)
        requires
            old(self).can_restore(),
        ensures
            *final(self) == old(self).restored(AttachOutcome::Attached),
            actions@ == old(self).restore_actions(AttachOutcome::Attached),
    {
        self.underlay.attached = true;
        self.underlay.restart_cpu = false;
        self.underlay.restore_pending = false;
        self.underlay.released_for_hidden = false;
        let mut actions = self.start_gpu_event_task();
        let selected = clone_model(&self.model.selected);
        let mut load = self.reload_model(selected);
        actions.append(&mut load);
        actions
    }

    fn restore_cpu_after_hidden(&mut self) -> (actions: Vec<PetAction>)
        requires
            old(self).can_restore(),
        ensures
            *final(self) == old(self).restored(AttachOutcome::Failed),
            actions@ == old(self).restore_actions(AttachOutcome::Failed),
    {
        self.underlay.restart_cpu = false;
        self.underlay.restore_pending = false;
        self.underlay.released_for_hidden = false;
        if !self.model.task && self.model.selected.is_some() {
            let selected = clone_model(&self.model.selected);
            return self.reload_model(selected);
        }
        Vec::new()
    }

    /// The state of a window that is being left for good.
    pub open spec fn quit(self) -> DesktopPetView {
        DesktopPetView {
            model: if self.underlay.shutdown_pending {
                self.model
            } else {
                ModelSlot {
                    cancellation: false,
                    wake: false,
                    frame_rate_wake: false,
                    ..self.model
                }
            },
            underlay: UnderlayState {
                attached: self.underlay.attached && self.underlay.shutdown_pending,
                restart_cpu: false,
                quitting: true,
                ..self.underlay
            },
            gaze: GazeState { tracking: false, ..self.gaze },
            voice: PetVoice { release_timer: false, ..self.voice },
            ..self
        }
    }

    /// What calling off the current generation takes.
    pub open spec fn call_off_actions(self) -> Seq<PetAction> {
        if_due(self.model.cancellation, PetAction::CancelModel) + if_due(
            self.model.wake,
            PetAction::CloseModelWake,
        ) + if_due(self.model.frame_rate_wake, PetAction::CloseFrameRateWake)
    }

    /// What leaving the window for good takes.
    #[verifier::opaque]
    pub open spec fn quit_actions(self) -> Seq<PetAction> {
        self.voice.release_actions() + if_due(
            self.voice.available,
            PetAction::RequestVoiceShutdown,
        ) + if_due(self.gaze.tracking, PetAction::StopCursorTracking) + (
        if self.underlay.shutdown_pending {
            seq![PetAction::AwaitUnderlayShutdown]
        } else {
            self.call_off_actions() + if_due(
                self.underlay.attached,
                PetAction::ShutdownUnderlay,
            )
        })
    }

    /// Calls off the current generation and closes its channels.
    pub fn call_off_model(&mut self) -> (actions: Vec<PetAction>)
        ensures
            *final(self) == (DesktopPetView {
                model: ModelSlot {
                    cancellation: false,
                    wake: false,
                    frame_rate_wake: false,
                    ..old(self).model
                },
                ..*old(self)
            }),
            actions@ == old(self).call_off_actions(),
    {
        let mut actions: Vec<PetAction> = Vec::new();
        push_if(&mut actions, self.model.cancellation, PetAction::CancelModel);
        push_if(&mut actions, self.model.wake, PetAction::CloseModelWake);
        push_if(&mut actions, self.model.frame_rate_wake, PetAction::CloseFrameRateWake);
        self.model.cancellation = false;
        self.model.wake = false;
        self.model.frame_rate_wake = false;
        proof {
            assert(actions@ =~= old(self).call_off_actions());
        }
        actions
    }

    /// Makes sure that the worker lets go of the native window before it disappears. No
    /// task is started any more.
    pub fn shutdown_gpu_for_quit(&mut self) -> (actions: Vec<PetAction>)
        ensures
            *final(self) == old(self).quit(),
            actions@ == old(self).quit_actions(),
    {
        let mut actions = self.voice.release_voice_shortcut();
        push_if(&mut actions, self.voice.available, PetAction::RequestVoiceShutdown);
        self.underlay.restart_cpu = false;
        self.underlay.quitting = true;
        push_if(&mut actions, self.gaze.tracking, PetAction::StopCursorTracking);
        self.gaze.tracking = false;
        proof {
            reveal(DesktopPetView::quit_actions);
        }
        if self.underlay.shutdown_pending {
            actions.push(PetAction::AwaitUnderlayShutdown);
            return actions;
        }
        let mut release = self.call_off_model();
        push_if(&mut release, self.underlay.attached, PetAction::ShutdownUnderlay);
        self.underlay.attached = false;
        actions.append(&mut release);
        actions
    }

    /// The state as a failing worker leaves it, before anything is done about it.
    pub open spec fn with_worker_failed(self) -> DesktopPetView {
        DesktopPetView {
            model: ModelSlot { cancellation: false, ..self.model },
            underlay: UnderlayState { cpu_fallback_pending: true, ..self.underlay },
            window: PetWindow { raster: self.window.cpu_raster, ..self.window },
            ..self
        }
    }

    /// The same, with the model to follow on the processor.
    pub open spec fn with_cpu_restart(self) -> DesktopPetView {
        DesktopPetView {
            underlay: UnderlayState { restart_cpu: true, ..self.underlay },
            ..self
        }
    }

    /// The state after the worker has failed.
    pub open spec fn fallen_back(self) -> DesktopPetView {
        let failed = self.with_worker_failed();
        if self.underlay.quitting {
            failed.quit()
        } else if self.underlay.shutdown_pending {
            failed.with_cpu_restart()
        } else {
            failed.with_cpu_restart().shut_down(self.model.generation, self.model.selected)
        }
    }

    /// What a failing worker takes.
    pub open spec fn fallback_actions(self) -> Seq<PetAction> {
        let failed = self.with_worker_failed();
        let cancel = if_due(self.model.cancellation, PetAction::CancelModel);
        if self.underlay.quitting {
            cancel + failed.quit_actions()
        } else if self.underlay.shutdown_pending {
            cancel
        } else {
            cancel + failed.with_cpu_restart().shut_down_actions(
                self.model.generation,
                self.model.selected,
            )
        }
    }

    /// Moves the model from a failing worker to the processor, unless the window is
    /// being left anyway.
    pub fn fallback_to_cpu(&mut self) -> (actions: Vec<PetAction>)
        ensures
            *final(self) == old(self).fallen_back(),
            actions@ == old(self).fallback_actions(),
    {
        let mut actions = self.note_worker_failure();
        if self.underlay.quitting {
            let mut rest = self.shutdown_gpu_for_quit();
            actions.append(&mut rest);
            return actions;
        }
        self.underlay.restart_cpu = true;
        proof {
            assert(*self == old(self).with_worker_failed().with_cpu_restart());
        }
        if self.underlay.shutdown_pending {
            return actions;
        }
        let generation: u64 = self.model.generation;
        let selected = clone_model(&self.model.selected);
        let mut rest = self.begin_gpu_shutdown(generation, selected);
        actions.append(&mut rest);
        actions
    }

    fn note_worker_failure(&mut self) -> (actions: Vec<PetAction>)
        ensures
            *final(self) == old(self).with_worker_failed(),
            actions@ == if_due(old(self).model.cancellation, PetAction::CancelModel),
    {
        let mut actions: Vec<PetAction> = Vec::new();
        push_if(&mut actions, self.model.cancellation, PetAction::CancelModel);
        self.underlay.cpu_fallback_pending = true;
        self.model.cancellation = false;
        self.window.raster = self.window.cpu_raster;
        actions
    }
}

} // verus!
