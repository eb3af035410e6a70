//! What the graphics worker reports.

use vstd::prelude::*;

use crate::desktop_pet::state::{
    clone_model, diagnostics_warning, if_due, push_if, DesktopPetView, FrameRef, GazeState,
    LoadErrorText, ModelLabel, ModelLoadState, ModelMessage, ModelSlot, PaintState, PetAction,
    UnderlayState,
};

verus! {

/// The newest frame that the worker has presented, with the generation it belongs to.
#[derive(Debug, Clone, Copy, PartialEq, Eq, Structural)]
pub struct PresentedFrame {
    pub generation: u64,
    pub frame: FrameRef,
}

/// A report of the graphics worker. Where it is current, `latest` is what could be taken
/// of the newest presented frame.
#[derive(Debug)]
#[allow(inconsistent_fields)]
pub enum GpuUnderlayEvent {
    ModelLoaded {
        generation: u64,
        frame: FrameRef,
        diagnostics_summary: Option<String>,
        latest: Option<PresentedFrame>,
    },
    FrameAvailable { generation: u64, latest: Option<PresentedFrame> },
    ModelLoadFailed { generation: u64, error: String },
    ModelGpuFailed { generation: u64 },
    Unavailable,
}

impl DesktopPetView {
    /// Whether a report about `generation` concerns what is on screen.
    pub open spec fn gpu_report_is_current(self, generation: u64) -> bool {
        self.model.generation == generation && self.underlay.attached
    }

    /// Tells whether a report about `generation` concerns what is on screen. Only then is
    /// the newest presented frame taken from the worker.
    pub fn gpu_event_is_current(&self, generation: u64) -> (current: bool)
        ensures
            current == self.gpu_report_is_current(generation),
    {
        self.model.generation == generation && self.underlay.attached
    }

    /// Whether presented frames are counted.
    pub open spec fn counts_frames(self) -> bool {
        self.paint.show_fps && self.window.visible
    }

    /// Tells whether presented frames are counted.
    pub fn records_presented_frames(&self) -> (counted: bool)
        ensures
            counted == self.counts_frames(),
    {
        self.paint.show_fps && self.window.visible
    }

    /// The newest presented frame, if it is one of the current generation.
    pub open spec fn current_presented(self, latest: Option<PresentedFrame>) -> Option<FrameRef> {
        match latest {
            Some(presented) => if presented.generation == self.model.generation {
                Some(presented.frame)
            } else {
                None
            },
            None => None,
        }
    }

    /// The frame of a loaded model: the newest one, or the one that came with the report.
    pub open spec fn loaded_frame(self, frame: FrameRef, latest: Option<PresentedFrame>) -> FrameRef {
        match self.current_presented(latest) {
            Some(newer) => newer,
            None => frame,
        }
    }

    /// The state of a model that has come up on the worker.
    pub open spec fn with_gpu_loaded(
        self,
        frame: FrameRef,
        summary: Option<String>,
        latest: Option<PresentedFrame>,
    ) -> DesktopPetView {
        let shown = self.with_visible_frame(self.loaded_frame(frame, latest));
        (DesktopPetView {
            model: ModelSlot {
                state: ModelLoadState::Ready { warning: diagnostics_warning(summary, self.language) },
                ..self.model
            },
            underlay: UnderlayState { cpu_fallback_pending: false, ..self.underlay },
            ..shown
        }).with_cursor_synced()
    }

    /// What a model that has come up on the worker takes. Its own first frame is counted
    /// before a newer one, so that no presented frame is lost.
    pub open spec fn gpu_loaded_actions(
        self,
        frame: FrameRef,
        latest: Option<PresentedFrame>,
    ) -> Seq<PetAction> {
        let shown = self.with_visible_frame(self.loaded_frame(frame, latest));
        self.count_actions(latest) + (shown.cursor_sync_actions() + seq![
            PetAction::PublishPreviewCapabilities,
            PetAction::PublishAgentOutfits,
            PetAction::Notify,
        ])
    }

    /// What counting the first frames of a loaded model takes.
    #[verifier::opaque]
    pub open spec fn count_actions(self, latest: Option<PresentedFrame>) -> Seq<PetAction> {
        if_due(self.counts_frames(), PetAction::RecordEventFrame) + if_due(
            self.counts_frames() && self.current_presented(latest) is Some,
            PetAction::RecordTakenFrame,
        )
    }

    fn count_loaded_frames(&self, latest: Option<PresentedFrame>) -> (actions: Vec<PetAction>)
        ensures
            actions@ == self.count_actions(latest),
    {
        let mut actions: Vec<PetAction> = Vec::new();
        let counted = self.records_presented_frames();
        push_if(&mut actions, counted, PetAction::RecordEventFrame);
        let taken = self.take_current(latest).is_some();
        push_if(&mut actions, counted && taken, PetAction::RecordTakenFrame);
        proof {
            reveal(DesktopPetView::count_actions);
            assert(actions@ =~= self.count_actions(latest));
        }
        actions
    }

    fn show_frame(&mut self, frame: FrameRef)
        ensures
            *final(self) == old(self).with_visible_frame(frame),
    {
        if self.window.visible {
            self.paint.frame = Some(frame);
        }
    }

    fn accept_gpu_load(
        &mut self,
        frame: FrameRef,
        summary: Option<String>,
        latest: Option<PresentedFrame>,
    ) -> (actions: Vec<PetAction>)
        ensures
            *final(self) == old(self).with_gpu_loaded(frame, summary, latest),
            actions@ == old(self).gpu_loaded_actions(frame, latest),
    {
        let mut actions = self.count_loaded_frames(latest);
        let frame = match self.take_current(latest) {
            Some(newer) => newer,
            None => frame,
        };
        self.show_frame(frame);
        let mut rest = self.sync_cursor_tracking_task();
        self.model.state = ModelLoadState::ready(summary, self.language);
        self.underlay.cpu_fallback_pending = false;
        rest.push(PetAction::PublishPreviewCapabilities);
        rest.push(PetAction::PublishAgentOutfits);
        rest.push(PetAction::Notify);
        actions.append(&mut rest);
        actions
    }

    fn take_current(&self, latest: Option<PresentedFrame>) -> (frame: Option<FrameRef>)
        ensures
            frame == self.current_presented(latest),
    {
        match latest {
            Some(presented) => if presented.generation == self.model.generation {
                Some(presented.frame)
            } else {
                None
            },
            None => None,
        }
    }

    /// The state after a newer frame could be taken.
    pub open spec fn with_gpu_frame(self, latest: Option<PresentedFrame>) -> DesktopPetView {
        match self.current_presented(latest) {
            Some(frame) => self.with_rendered_frame(frame),
            None => self,
        }
    }

    /// What a newer frame takes. Only the first one after a pause is drawn; the others the
    /// worker presents by itself.
    pub open spec fn gpu_frame_actions(self, latest: Option<PresentedFrame>) -> Seq<PetAction> {
        match self.current_presented(latest) {
            Some(frame) => if !self.window.visible {
                Seq::empty()
            } else {
                if_due(self.counts_frames(), PetAction::RecordTakenFrame) + (
                if self.paint.frame is None {
                    self.with_visible_frame(frame).cursor_sync_actions() + seq![PetAction::Notify]
                } else {
                    Seq::empty()
                })
            },
            None => Seq::empty(),
        }
    }

    fn accept_gpu_frame(&mut self, latest: Option<PresentedFrame>) -> (actions: Vec<PetAction>)
        ensures
            *final(self) == old(self).with_gpu_frame(latest),
            actions@ == old(self).gpu_frame_actions(latest),
    {
        let mut actions: Vec<PetAction> = Vec::new();
        if let Some(frame) = self.take_current(latest) {
            if self.window.visible {
                let needs_notify = self.paint.frame.is_none();
                let counted = self.records_presented_frames();
                self.paint.frame = Some(frame);
                push_if(&mut actions, counted, PetAction::RecordTakenFrame);
                if needs_notify {
                    let mut rest = self.sync_cursor_tracking_task();
                    rest.push(PetAction::Notify);
                    actions.append(&mut rest);
                }
            }
        }
        proof {
            assert(actions@ =~= old(self).gpu_frame_actions(latest));
        }
        actions
    }

    /// The state of a model that failed to come up on the worker.
    pub open spec fn with_gpu_load_failure(self, error: String) -> DesktopPetView {
        DesktopPetView {
            model: ModelSlot {
                state: ModelLoadState::Failed(
                    ModelMessage::LoadFailed {
                        label: ModelLabel {
                            model: self.model.selected,
                            language: self.language,
                        },
                        error: LoadErrorText::Plain(error),
                        language: self.language,
                    },
                ),
                commands: false,
                ..self.model
            },
            paint: PaintState { frame: None, ..self.paint },
            gaze: GazeState { tracking: false, ..self.gaze },
            ..self
        }
    }

    /// What a model that failed to come up on the worker takes.
    pub open spec fn gpu_load_failure_actions(self) -> Seq<PetAction> {
        if_due(self.gaze.tracking, PetAction::StopCursorTracking) + seq![
            PetAction::ClearPreviewCapabilities,
            PetAction::ClearAgentOutfits,
            PetAction::Notify,
        ]
    }

    fn fail_gpu_load(&mut self, error: String) -> (actions: Vec<PetAction>)
        ensures
            *final(self) == old(self).with_gpu_load_failure(error),
            actions@ == old(self).gpu_load_failure_actions(),
    {
        let language = self.language;
        let label = ModelLabel { model: clone_model(&self.model.selected), language };
        self.model.state = ModelLoadState::Failed(
            ModelMessage::LoadFailed { label, error: LoadErrorText::Plain(error), language },
        );
        self.paint.frame = None;
        let mut actions = self.sync_cursor_tracking_task();
        actions.push(PetAction::ClearPreviewCapabilities);
        actions.push(PetAction::ClearAgentOutfits);
        self.model.commands = false;
        actions.push(PetAction::Notify);
        actions
    }

    /// The state after a report of the worker.
    pub open spec fn after_gpu_event(self, event: GpuUnderlayEvent) -> DesktopPetView {
        match event {
            GpuUnderlayEvent::ModelLoaded {
                generation,
                frame,
                diagnostics_summary,
                latest,
            } => if self.gpu_report_is_current(generation) {
                self.with_gpu_loaded(frame, diagnostics_summary, latest)
            } else {
                self
            },
            GpuUnderlayEvent::FrameAvailable { generation, latest } => if self.gpu_report_is_current(
                generation,
            ) {
                self.with_gpu_frame(latest)
            } else {
                self
            },
            GpuUnderlayEvent::ModelLoadFailed { generation, error } => if self.gpu_report_is_current(
                generation,
            ) {
                self.with_gpu_load_failure(error)
            } else {
                self
            },
            GpuUnderlayEvent::ModelGpuFailed { generation } => if self.gpu_report_is_current(
                generation,
            ) {
                self.fallen_back()
            } else {
                self
            },
            GpuUnderlayEvent::Unavailable => self.fallen_back(),
        }
    }

    /// What a report of the worker takes.
    pub open spec fn gpu_event_actions(self, event: GpuUnderlayEvent) -> Seq<PetAction> {
        match event {
            GpuUnderlayEvent::ModelLoaded { generation, frame, latest, .. } => if self.gpu_report_is_current(
                generation,
            ) {
                self.gpu_loaded_actions(frame, latest)
            } else {
                Seq::empty()
            },
            GpuUnderlayEvent::FrameAvailable { generation, latest } => if self.gpu_report_is_current(
                generation,
            ) {
                self.gpu_frame_actions(latest)
            } else {
                Seq::empty()
            },
            GpuUnderlayEvent::ModelLoadFailed { generation, .. } => if self.gpu_report_is_current(
                generation,
            ) {
                self.gpu_load_failure_actions()
            } else {
                Seq::empty()
            },
            GpuUnderlayEvent::ModelGpuFailed { generation } => if self.gpu_report_is_current(
                generation,
            ) {
                self.fallback_actions()
            } else {
                Seq::empty()
            },
            GpuUnderlayEvent::Unavailable => self.fallback_actions(),
        }
    }

    /// Whether a report ends the reading of reports: the worker has failed.
    pub open spec fn gpu_event_is_fatal(self, event: GpuUnderlayEvent) -> bool {
        match event {
            GpuUnderlayEvent::ModelGpuFailed { generation } => self.gpu_report_is_current(
                generation,
            ),
            GpuUnderlayEvent::Unavailable => true,
            _ => false,
        }
    }

    /// Follows a report of the worker, and tells whether to go on reading.
    pub fn handle_gpu_event(&mut self, event: GpuUnderlayEvent) -> (result: (bool, Vec<PetAction>))
        ensures
            result.0 == !old(self).gpu_event_is_fatal(event),
            *final(self) == old(self).after_gpu_event(event),
            result.1@ == old(self).gpu_event_actions(event),
    {
        match event {
            GpuUnderlayEvent::ModelLoaded {
                generation,
                frame,
                diagnostics_summary,
                latest,
            } => {
                if !self.gpu_event_is_current(generation) {
                    return (true, Vec::new());
                }
                let actions = self.accept_gpu_load(frame, diagnostics_summary, latest);
                (true, actions)
            },
            GpuUnderlayEvent::FrameAvailable { generation, latest } => {
                if !self.gpu_event_is_current(generation) {
                    return (true, Vec::new());
                }
                let actions = self.accept_gpu_frame(latest);
                (true, actions)
            },
            GpuUnderlayEvent::ModelLoadFailed { generation, error } => {
                if !self.gpu_event_is_current(generation) {
                    return (true, Vec::new());
                }
                let actions = self.fail_gpu_load(error);
                (true, actions)
            },
            GpuUnderlayEvent::ModelGpuFailed { generation } => {
                if !self.gpu_event_is_current(generation) {
                    return (true, Vec::new());
                }
                let actions = self.fallback_to_cpu();
                (false, actions)
            },
            GpuUnderlayEvent::Unavailable => {
                let actions = self.fallback_to_cpu();
                (false, actions)
            },
        }
    }

    /// The state after the worker's reports broke off.
    pub open spec fn after_channel_closed(self) -> DesktopPetView {
        let left = if self.underlay.attached {
            self.fallen_back()
        } else {
            self
        };
        DesktopPetView { underlay: UnderlayState { events: false, ..left.underlay }, ..left }
    }

    /// Takes note that the worker's reports have broken off. An attached worker is then
    /// given up.
    pub fn gpu_event_channel_closed(&mut self) -> (actions: Vec<PetAction>)
        ensures
            *final(self) == old(self).after_channel_closed(),
            actions@ == (if old(self).underlay.attached {
                old(self).fallback_actions()
            } else {
                Seq::empty()
            }),
    {
        let mut actions: Vec<PetAction> = Vec::new();
        if self.underlay.attached {
            actions = self.fallback_to_cpu();
        }
        self.underlay.events = false;
        actions
    }
}

/// A report about a generation that has been replaced, or about one that the worker no
/// longer renders, changes nothing and takes nothing, and reading goes on.
pub proof fn outdated_gpu_report_is_ignored(pet: DesktopPetView, event: GpuUnderlayEvent)
    requires
        match event {
            GpuUnderlayEvent::ModelLoaded { generation, .. } => !pet.gpu_report_is_current(
                generation,
            ),
            GpuUnderlayEvent::FrameAvailable { generation, .. } => !pet.gpu_report_is_current(
                generation,
            ),
            GpuUnderlayEvent::ModelLoadFailed { generation, .. } => !pet.gpu_report_is_current(
                generation,
            ),
            GpuUnderlayEvent::ModelGpuFailed { generation } => !pet.gpu_report_is_current(
                generation,
            ),
            GpuUnderlayEvent::Unavailable => false,
        },
    ensures
        pet.after_gpu_event(event) == pet,
        pet.gpu_event_actions(event) == Seq::<PetAction>::empty(),
        !pet.gpu_event_is_fatal(event),
{
}

} // verus!
