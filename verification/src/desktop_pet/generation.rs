//! What becomes of a model generation: loaded, failed, or painted once more.

use vstd::prelude::*;

use crate::desktop_pet::state::{
    diagnostics_warning, if_due, push_if, DesktopPetView, FrameRef, GazeState, LoadErrorText,
    ModelLabel, ModelLoadState, ModelMessage, ModelSlot, PaintState, PetAction, UnderlayState,
};

verus! {

/// An error of the model loader.
#[derive(Debug, PartialEq, Eq)]
pub struct ModelLoadError {
    pub cancelled: bool,
    pub text: String,
}

impl ModelLoadError {
    /// Whether the work was called off rather than failed.
    pub fn is_cancelled(&self) -> (cancelled: bool)
        ensures
            cancelled == self.cancelled,
    {
        self.cancelled
    }
}

/// An error of the renderer.
#[derive(Debug, PartialEq, Eq)]
pub struct RenderError {
    pub cancelled: bool,
    pub text: String,
}

impl RenderError {
    /// Whether the work was called off rather than failed.
    pub fn is_cancelled(&self) -> (cancelled: bool)
        ensures
            cancelled == self.cancelled,
    {
        self.cancelled
    }
}

/// Why a generation did not come up: the model itself, or its first frame.
#[derive(Debug, PartialEq, Eq)]
pub enum ModelGenerationLoadError {
    Model(ModelLoadError),
    InitialFrame(RenderError),
}

impl ModelGenerationLoadError {
    /// Whether the work was called off rather than failed.
    pub open spec fn cancelled(self) -> bool {
        match self {
            ModelGenerationLoadError::Model(error) => error.cancelled,
            ModelGenerationLoadError::InitialFrame(error) => error.cancelled,
        }
    }

    /// The error as it is shown.
    pub open spec fn text(self) -> LoadErrorText {
        match self {
            ModelGenerationLoadError::Model(error) => LoadErrorText::Plain(error.text),
            ModelGenerationLoadError::InitialFrame(error) => LoadErrorText::InitialFrame(error.text),
        }
    }

    /// Tells whether the work was called off rather than failed.
    pub fn is_cancelled(&self) -> (cancelled: bool)
        ensures
            cancelled == self.cancelled(),
    {
        match self {
            ModelGenerationLoadError::Model(error) => error.is_cancelled(),
            ModelGenerationLoadError::InitialFrame(error) => error.is_cancelled(),
        }
    }

    /// Turns the error into what is shown of it.
    pub fn into_text(self) -> (text: LoadErrorText)
        ensures
            text == self.text(),
    {
        match self {
            ModelGenerationLoadError::Model(error) => LoadErrorText::Plain(error.text),
            ModelGenerationLoadError::InitialFrame(error) => LoadErrorText::InitialFrame(error.text),
        }
    }
}

/// A generation that has come up: its first frame, and what its diagnostics say.
#[derive(Debug)]
pub struct LoadedModelGeneration {
    pub frame: FrameRef,
    pub diagnostics_summary: Option<String>,
}

/// What rendering one frame gave.
#[derive(Debug)]
pub enum FrameOutcome {
    Rendered(FrameRef),
    Failed(RenderError),
}

impl DesktopPetView {
    /// The state with `frame` on screen, if the window is.
    pub open spec fn with_visible_frame(self, frame: FrameRef) -> DesktopPetView {
        if self.window.visible {
            DesktopPetView { paint: PaintState { frame: Some(frame), ..self.paint }, ..self }
        } else {
            self
        }
    }

    /// The state of a generation that failed to come up on the processor.
    pub open spec fn with_cpu_load_failure(
        self,
        label: ModelLabel,
        error: LoadErrorText,
    ) -> DesktopPetView {
        DesktopPetView {
            model: ModelSlot {
                state: ModelLoadState::Failed(
                    ModelMessage::LoadFailed { label, error, language: self.language },
                ),
                commands: false,
                wake: false,
                frame_rate_wake: false,
                cancellation: false,
                ..self.model
            },
            paint: PaintState { frame: None, ..self.paint },
            gaze: GazeState { tracking: false, ..self.gaze },
            underlay: UnderlayState { cpu_fallback_pending: false, ..self.underlay },
            ..self
        }
    }

    /// What a generation that failed to come up on the processor takes.
    #[verifier::opaque]
    pub open spec fn cpu_load_failure_actions(self) -> Seq<PetAction> {
        seq![PetAction::ClearPreviewCapabilities, PetAction::ClearAgentOutfits] + if_due(
            self.gaze.tracking,
            PetAction::StopCursorTracking,
        ) + if_due(self.model.wake, PetAction::CloseModelWake) + if_due(
            self.model.frame_rate_wake,
            PetAction::CloseFrameRateWake,
        ) + seq![PetAction::Notify]
    }

    /// The state of a generation that has come up on the processor.
    pub open spec fn with_cpu_loaded(self, loaded: LoadedModelGeneration) -> DesktopPetView {
        let shown = self.with_visible_frame(loaded.frame);
        let tracking = if self.window.visible {
            shown.tracks_cursor()
        } else {
            self.gaze.tracking
        };
        DesktopPetView {
            model: ModelSlot {
                state: ModelLoadState::Ready {
                    warning: diagnostics_warning(loaded.diagnostics_summary, self.language),
                },
                ..self.model
            },
            gaze: GazeState { tracking, ..self.gaze },
            underlay: UnderlayState { cpu_fallback_pending: false, ..self.underlay },
            ..shown
        }
    }

    /// What a generation that has come up on the processor takes.
    pub open spec fn cpu_loaded_actions(self, loaded: LoadedModelGeneration) -> Seq<PetAction> {
        (if self.window.visible {
            self.with_visible_frame(loaded.frame).cursor_sync_actions()
        } else {
            Seq::empty()
        }) + seq![
            PetAction::PublishPreviewCapabilities,
            PetAction::PublishAgentOutfits,
            PetAction::Notify,
        ]
    }

    /// Takes the result of loading `generation` on the processor, and tells whether its
    /// frames are wanted. `label` is what the model was called when the loading began.
    ///
    /// The result of a generation that has been replaced, or called off, changes
    /// nothing.
    pub fn finish_cpu_load(
        &mut self,
        generation: u64,
        label: ModelLabel,
        loaded: Result<LoadedModelGeneration, ModelGenerationLoadError>,
    ) -> (result: (bool, Vec<PetAction>))
        ensures
            result.0 == (loaded is Ok && old(self).model.generation == generation),
            match loaded {
                Ok(loaded) => if old(self).model.generation == generation {
                    &&& *final(self) == old(self).with_cpu_loaded(loaded)
                    &&& result.1@ == old(self).cpu_loaded_actions(loaded)
                } else {
                    &&& *final(self) == *old(self)
                    &&& result.1@ == Seq::<PetAction>::empty()
                },
                Err(error) => if !error.cancelled() && old(self).model.generation == generation {
                    &&& *final(self) == old(self).with_cpu_load_failure(label, error.text())
                    &&& result.1@ == old(self).cpu_load_failure_actions()
                } else {
                    &&& *final(self) == *old(self)
                    &&& result.1@ == Seq::<PetAction>::empty()
                },
            },
    {
        match loaded {
            Err(error) => {
                if error.is_cancelled() || self.model.generation != generation {
                    return (false, Vec::new());
                }
                let actions = self.fail_cpu_load(label, error.into_text());
                (false, actions)
            },
            Ok(loaded) => {
                if self.model.generation != generation {
                    return (false, Vec::new());
                }
                let actions = self.accept_cpu_load(loaded);
                (true, actions)
            },
        }
    }

    fn accept_cpu_load(&mut self, loaded: LoadedModelGeneration) -> (actions: Vec<PetAction>)
        ensures
            *final(self) == old(self).with_cpu_loaded(loaded),
            actions@ == old(self).cpu_loaded_actions(loaded),
    {
        let mut actions: Vec<PetAction> = Vec::new();
        if self.window.visible {
            self.paint.frame = Some(loaded.frame);
            actions = self.sync_cursor_tracking_task();
        }
        self.model.state = ModelLoadState::ready(loaded.diagnostics_summary, self.language);
        self.underlay.cpu_fallback_pending = false;
        actions.push(PetAction::PublishPreviewCapabilities);
        actions.push(PetAction::PublishAgentOutfits);
        actions.push(PetAction::Notify);
        proof {
            assert(actions@ =~= old(self).cpu_loaded_actions(loaded));
        }
        actions
    }

    fn fail_cpu_load(&mut self, label: ModelLabel, error: LoadErrorText) -> (actions: Vec<PetAction>)
        ensures
            *final(self) == old(self).with_cpu_load_failure(label, error),
            actions@ == old(self).cpu_load_failure_actions(),
    {
        let mut actions: Vec<PetAction> = Vec::new();
        self.underlay.cpu_fallback_pending = false;
        self.model.state = ModelLoadState::Failed(
            ModelMessage::LoadFailed { label, error, language: self.language },
        );
        actions.push(PetAction::ClearPreviewCapabilities);
        actions.push(PetAction::ClearAgentOutfits);
        self.paint.frame = None;
        let mut cursor = self.sync_cursor_tracking_task();
        actions.append(&mut cursor);
        self.model.commands = false;
        self.model.cancellation = false;
        push_if(&mut actions, self.model.wake, PetAction::CloseModelWake);
        self.model.wake = false;
        push_if(&mut actions, self.model.frame_rate_wake, PetAction::CloseFrameRateWake);
        self.model.frame_rate_wake = false;
        actions.push(PetAction::Notify);
        proof {
            reveal(DesktopPetView::cpu_load_failure_actions);
            assert(actions@ =~= old(self).cpu_load_failure_actions());
        }
        actions
    }

    /// The state of a generation whose renderer has failed.
    pub open spec fn with_render_failure(self, label: ModelLabel, error: String) -> DesktopPetView {
        DesktopPetView {
            model: ModelSlot {
                state: ModelLoadState::Failed(
                    ModelMessage::RenderFailed { label, error, language: self.language },
                ),
                commands: false,
                wake: false,
                frame_rate_wake: false,
                cancellation: false,
                ..self.model
            },
            paint: PaintState { frame: None, ..self.paint },
            gaze: GazeState { tracking: false, ..self.gaze },
            ..self
        }
    }

    /// What a generation whose renderer has failed takes.
    #[verifier::opaque]
    pub open spec fn render_failure_actions(self) -> Seq<PetAction> {
        if_due(self.gaze.tracking, PetAction::StopCursorTracking) + seq![
            PetAction::ClearPreviewCapabilities,
            PetAction::ClearAgentOutfits,
        ] + if_due(self.model.cancellation, PetAction::CancelModel) + if_due(
            self.model.wake,
            PetAction::CloseModelWake,
        ) + if_due(self.model.frame_rate_wake, PetAction::CloseFrameRateWake) + seq![
            PetAction::Notify,
        ]
    }

    /// The state after a frame of the current generation was rendered. Only the first
    /// frame after a pause can start pointer tracking.
    pub open spec fn with_rendered_frame(self, frame: FrameRef) -> DesktopPetView {
        if self.window.visible && self.paint.frame is None {
            self.with_visible_frame(frame).with_cursor_synced()
        } else {
            self.with_visible_frame(frame)
        }
    }

    /// What a rendered frame of the current generation takes.
    pub open spec fn rendered_frame_actions(self, frame: FrameRef) -> Seq<PetAction> {
        if !self.window.visible {
            Seq::empty()
        } else if self.paint.frame is None {
            self.with_visible_frame(frame).cursor_sync_actions() + seq![PetAction::Notify]
        } else {
            seq![PetAction::Notify]
        }
    }

    /// Takes what rendering one frame of `generation` gave, and tells whether the next one is
    /// wanted. `label` is what the model was called when the loading began. A generation that
    /// has been replaced or called off ends here.
    pub fn finish_frame(
        &mut self,
        generation: u64,
        label: ModelLabel,
        outcome: FrameOutcome,
    ) -> (result: (bool, Vec<PetAction>))
        ensures
            result.0 == (outcome is Rendered && old(self).model.generation == generation),
            match outcome {
                FrameOutcome::Rendered(frame) => if old(self).model.generation == generation {
                    &&& *final(self) == old(self).with_rendered_frame(frame)
                    &&& result.1@ == old(self).rendered_frame_actions(frame)
                } else {
                    &&& *final(self) == *old(self)
                    &&& result.1@ == Seq::<PetAction>::empty()
                },
                FrameOutcome::Failed(error) => if !error.cancelled && old(self).model.generation
                    == generation {
                    &&& *final(self) == old(self).with_render_failure(label, error.text)
                    &&& result.1@ == old(self).render_failure_actions()
                } else {
                    &&& *final(self) == *old(self)
                    &&& result.1@ == Seq::<PetAction>::empty()
                },
            },
    {
        if self.model.generation != generation {
            return (false, Vec::new());
        }
        match outcome {
            FrameOutcome::Rendered(frame) => {
                let mut actions: Vec<PetAction> = Vec::new();
                if self.window.visible {
                    let first_visible_frame = self.paint.frame.is_none();
                    self.paint.frame = Some(frame);
                    if first_visible_frame {
                        let mut cursor = self.sync_cursor_tracking_task();
                        actions.append(&mut cursor);
                    }
                    actions.push(PetAction::Notify);
                }
                proof {
                    assert(actions@ =~= old(self).rendered_frame_actions(frame));
                }
                (true, actions)
            },
            FrameOutcome::Failed(error) => {
                if error.is_cancelled() {
                    return (false, Vec::new());
                }
                let actions = self.fail_rendering(label, error.text);
                (false, actions)
            },
        }
    }

    fn fail_rendering(&mut self, label: ModelLabel, error: String) -> (actions: Vec<PetAction>)
        ensures
            *final(self) == old(self).with_render_failure(label, error),
            actions@ == old(self).render_failure_actions(),
    {
        self.paint.frame = None;
        let mut actions = self.sync_cursor_tracking_task();
        actions.push(PetAction::ClearPreviewCapabilities);
        actions.push(PetAction::ClearAgentOutfits);
        self.model.commands = false;
        push_if(&mut actions, self.model.cancellation, PetAction::CancelModel);
        self.model.cancellation = false;
        push_if(&mut actions, self.model.wake, PetAction::CloseModelWake);
        self.model.wake = false;
        push_if(&mut actions, self.model.frame_rate_wake, PetAction::CloseFrameRateWake);
        self.model.frame_rate_wake = false;
        self.model.state = ModelLoadState::Failed(
            ModelMessage::RenderFailed { label, error, language: self.language },
        );
        actions.push(PetAction::Notify);
        proof {
            reveal(DesktopPetView::render_failure_actions);
            assert(actions@ =~= old(self).render_failure_actions());
        }
        actions
    }
}

} // verus!
