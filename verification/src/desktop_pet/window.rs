//! Closing and resizing the pet window.

use vstd::prelude::*;

use crate::desktop_pet::state::{
    clone_model, if_due, push_if, ChatRequest, DesktopPetView, GazeState, ModelSlot,
    ModelWindowSize, PetAction, PetVoice, PetWindow, RasterSize, UnderlayState, VoicePhase,
};

verus! {

/// How often a refused resize is asked for again before the size at hand is accepted.
pub const MAX_WINDOW_RESIZE_ATTEMPTS: u32 = 8;

impl PetVoice {
    /// The voice of a window that is being closed.
    pub open spec fn closed(self) -> PetVoice {
        PetVoice { phase: VoicePhase::Idle, levels: false, release_timer: false, ..self }
    }

    /// What closing takes for the voice.
    #[verifier::opaque]
    pub open spec fn close_actions(self) -> Seq<PetAction> {
        self.release_actions() + if_due(
            self.available,
            PetAction::RequestVoiceShutdown,
        ) + if_due(self.levels, PetAction::StopVoiceLevels) + seq![
            PetAction::Chat(ChatRequest::CancelPendingVoice),
            PetAction::Chat(ChatRequest::SetVoiceIndicator(false)),
        ] + if_due(self.playback_available, PetAction::StopPlayback)
    }

    /// Ends voice input and speech for good.
    pub fn close(&mut self) -> (actions: Vec<PetAction>)
        ensures
            *final(self) == old(self).closed(),
            actions@ == old(self).close_actions(),
    {
        let mut actions = self.release_voice_shortcut();
        push_if(&mut actions, self.available, PetAction::RequestVoiceShutdown);
        self.phase = VoicePhase::Idle;
        push_if(&mut actions, self.levels, PetAction::StopVoiceLevels);
        self.levels = false;
        actions.push(PetAction::Chat(ChatRequest::CancelPendingVoice));
        actions.push(PetAction::Chat(ChatRequest::SetVoiceIndicator(false)));
        push_if(&mut actions, self.playback_available, PetAction::StopPlayback);
        proof {
            reveal(PetVoice::close_actions);
            assert(actions@ =~= old(self).close_actions());
        }
        actions
    }
}

impl DesktopPetView {
    /// The state of a window that is to be closed, before its worker is let go.
    pub open spec fn closing(self) -> DesktopPetView {
        DesktopPetView {
            model: ModelSlot {
                cancellation: false,
                wake: false,
                frame_rate_wake: false,
                ..self.model
            },
            gaze: GazeState { tracking: false, ..self.gaze },
            underlay: UnderlayState {
                restart_cpu: false,
                close_after_shutdown: true,
                ..self.underlay
            },
            voice: self.voice.closed(),
            ..self
        }
    }

    /// Whether the window can be removed at once: no worker holds on to it.
    pub open spec fn closes_at_once(self) -> bool {
        !self.underlay.shutdown_pending && !self.underlay.attached
    }

    /// Whether the worker has to be let go before the window can be removed.
    pub open spec fn closing_releases_underlay(self) -> bool {
        !self.underlay.shutdown_pending && self.underlay.attached
    }

    /// The state after a request to close the window.
    pub open spec fn close_requested(self) -> DesktopPetView {
        if self.closing_releases_underlay() {
            self.closing().with_shutdown_begun()
        } else {
            self.closing()
        }
    }

    /// What a request to close the window takes.
    pub open spec fn close_actions(self) -> Seq<PetAction> {
        self.closing_actions() + (if self.closing_releases_underlay() {
            self.closing().begin_shutdown_actions(self.model.generation)
        } else {
            Seq::empty()
        })
    }

    /// What preparing to close takes.
    #[verifier::opaque]
    pub open spec fn closing_actions(self) -> Seq<PetAction> {
        self.voice.close_actions() + if_due(
            self.gaze.tracking,
            PetAction::StopCursorTracking,
        ) + self.call_off_actions()
    }

    /// Asks the window to close, and tells whether it may be removed at once. Where a
    /// graphics worker holds on to it, the window goes once the worker has stopped.
    pub fn request_window_close(&mut self) -> (result: (bool, Vec<PetAction>))
        ensures
            result.0 == old(self).closes_at_once(),
            *final(self) == old(self).close_requested(),
            result.1@ == old(self).close_actions(),
    {
        let mut actions = self.prepare_close();
        if self.underlay.shutdown_pending {
            return (false, actions);
        }
        if !self.underlay.attached {
            return (true, actions);
        }
        let generation: u64 = self.model.generation;
        let mut stop = self.begin_gpu_shutdown(generation, None);
        actions.append(&mut stop);
        (false, actions)
    }

    fn prepare_close(&mut self) -> (actions: Vec<PetAction>)
        ensures
            *final(self) == old(self).closing(),
            actions@ == old(self).closing_actions(),
    {
        let mut actions = self.voice.close();
        self.underlay.restart_cpu = false;
        self.underlay.close_after_shutdown = true;
        let mut cursor = self.sync_cursor_tracking_task();
        actions.append(&mut cursor);
        let mut stop = self.call_off_model();
        actions.append(&mut stop);
        proof {
            reveal(DesktopPetView::closing_actions);
            assert(actions@ =~= old(self).closing_actions());
        }
        actions
    }

    /// Asks for another window size.
    pub fn request_model_window_size(&mut self, size: ModelWindowSize) -> (actions: Vec<PetAction>)
        ensures
            *final(self) == (DesktopPetView {
                window: PetWindow {
                    pending_size: Some(size),
                    pending_size_attempts: 0,
                    ..old(self).window
                },
                ..*old(self)
            }),
            actions@ == seq![PetAction::Notify],
    {
        self.window.pending_size = Some(size);
        self.window.pending_size_attempts = 0;
        vec![PetAction::Notify]
    }

    /// The state with other raster sizes; the model is rendered into the one that its
    /// back end uses.
    pub open spec fn with_rasters(self, gpu: RasterSize, cpu: RasterSize) -> DesktopPetView {
        DesktopPetView {
            window: PetWindow {
                gpu_raster: gpu,
                cpu_raster: cpu,
                raster: if self.underlay.attached {
                    gpu
                } else {
                    cpu
                },
                ..self.window
            },
            ..self
        }
    }

    fn update_render_dimensions(&mut self, gpu: RasterSize, cpu: RasterSize)
        ensures
            *final(self) == old(self).with_rasters(gpu, cpu),
    {
        self.window.gpu_raster = gpu;
        self.window.cpu_raster = cpu;
        self.window.raster = if self.underlay.attached {
            gpu
        } else {
            cpu
        };
    }

    /// Whether a pending size is settled: the window has it, or it has been asked for
    /// often enough.
    pub open spec fn resize_is_settled(self, reached_target: bool) -> bool {
        reached_target || self.window.pending_size_attempts >= MAX_WINDOW_RESIZE_ATTEMPTS
    }

    /// The state after the pending size was looked at. `gpu` and `cpu` are the rasters
    /// of the size that is accepted if it is settled.
    pub open spec fn after_pending_size(
        self,
        reached_target: bool,
        gpu: RasterSize,
        cpu: RasterSize,
    ) -> DesktopPetView {
        match self.window.pending_size {
            None => self,
            Some(_) => if self.resize_is_settled(reached_target) {
                (DesktopPetView {
                    window: PetWindow {
                        pending_size: None,
                        pending_size_attempts: 0,
                        ..self.window
                    },
                    ..self
                }).with_rasters(gpu, cpu).reselected(self.model.selected)
            } else {
                DesktopPetView {
                    window: PetWindow {
                        pending_size_attempts: (self.window.pending_size_attempts + 1) as u32,
                        ..self.window
                    },
                    ..self
                }
            },
        }
    }

    /// What looking at the pending size takes.
    pub open spec fn pending_size_actions(self, reached_target: bool) -> Seq<PetAction> {
        match self.window.pending_size {
            None => Seq::empty(),
            Some(size) => if self.resize_is_settled(reached_target) {
                self.reselect_actions(self.model.selected)
            } else {
                seq![PetAction::ResizeWindow(size)]
            },
        }
    }

    /// Looks at the pending window size and tells whether there was one. The window
    /// system may take its time, round or refuse; a refused size is given up after some
    /// attempts. The model is loaded anew once the size is settled.
    pub fn apply_pending_model_window_size(
        &mut self,
        reached_target: bool,
        gpu: RasterSize,
        cpu: RasterSize,
    ) -> (result: (bool, Vec<PetAction>))
        ensures
            result.0 == (old(self).window.pending_size is Some),
            *final(self) == old(self).after_pending_size(reached_target, gpu, cpu),
            result.1@ == old(self).pending_size_actions(reached_target),
    {
        let Some(window_size) = self.window.pending_size else {
            return (false, Vec::new());
        };
        if reached_target || self.window.pending_size_attempts >= MAX_WINDOW_RESIZE_ATTEMPTS {
            let actions = self.settle_size(gpu, cpu);
            return (true, actions);
        }
        self.window.pending_size_attempts = self.window.pending_size_attempts + 1;
        (true, vec![PetAction::ResizeWindow(window_size)])
    }

    fn settle_size(&mut self, gpu: RasterSize, cpu: RasterSize) -> (actions: Vec<PetAction>)
        ensures
            *final(self) == (DesktopPetView {
                window: PetWindow {
                    pending_size: None,
                    pending_size_attempts: 0,
                    ..old(self).window
                },
                ..*old(self)
            }).with_rasters(gpu, cpu).reselected(old(self).model.selected),
            actions@ == old(self).reselect_actions(old(self).model.selected),
    {
        self.window.pending_size = None;
        self.window.pending_size_attempts = 0;
        self.update_render_dimensions(gpu, cpu);
        let selected = clone_model(&self.model.selected);
        proof {
            reveal(DesktopPetView::reselect_actions);
            reveal(DesktopPetView::drop_generation_actions);
        }
        self.reselect_model(selected)
    }

    /// Whether a new viewport changes what the model is rendered into.
    pub open spec fn render_size_changed(self, gpu_size_changed: bool, cpu: RasterSize) -> bool {
        if self.underlay.attached {
            gpu_size_changed
        } else {
            self.window.cpu_raster != cpu
        }
    }

    /// Follows a new viewport. `gpu_size_changed` tells whether the size of the graphics
    /// surface differs from the last one in any respect. Both rasters are kept up to
    /// date, so that a failing worker finds the right one; the model is loaded anew if
    /// the one in use has changed.
    pub fn synchronize_render_dimensions(
        &mut self,
        gpu_size_changed: bool,
        gpu: RasterSize,
        cpu: RasterSize,
    ) -> (actions: Vec<PetAction>)
        ensures
            old(self).render_size_changed(gpu_size_changed, cpu) ==> {
                &&& *final(self) == old(self).with_rasters(gpu, cpu).reselected(
                    old(self).model.selected,
                )
                &&& actions@ == old(self).reselect_actions(old(self).model.selected)
            },
            !old(self).render_size_changed(gpu_size_changed, cpu) ==> {
                &&& *final(self) == (DesktopPetView {
                    window: PetWindow { gpu_raster: gpu, cpu_raster: cpu, ..old(self).window },
                    ..*old(self)
                })
                &&& actions@ == Seq::<PetAction>::empty()
            },
    {
        let active_path_changed = if self.underlay.attached {
            gpu_size_changed
        } else {
            self.window.cpu_raster != cpu
        };
        if !active_path_changed {
            self.window.gpu_raster = gpu;
            self.window.cpu_raster = cpu;
            return Vec::new();
        }
        self.update_render_dimensions(gpu, cpu);
        let selected = clone_model(&self.model.selected);
        proof {
            reveal(DesktopPetView::reselect_actions);
            reveal(DesktopPetView::drop_generation_actions);
        }
        self.reselect_model(selected)
    }
}

/// A size that the window never takes is asked for a fixed number of times and then
/// given up.
pub proof fn refused_resize_is_given_up(pet: DesktopPetView, gpu: RasterSize, cpu: RasterSize)
    requires
        pet.window.pending_size is Some,
    ensures
        pet.window.pending_size_attempts >= MAX_WINDOW_RESIZE_ATTEMPTS ==> pet.after_pending_size(
            false,
            gpu,
            cpu,
        ).window.pending_size is None,
        pet.window.pending_size_attempts < MAX_WINDOW_RESIZE_ATTEMPTS ==> pet.after_pending_size(
            false,
            gpu,
            cpu,
        ).window.pending_size_attempts == pet.window.pending_size_attempts + 1,
{
}

} // verus!
