//! Model generations: loading, replacing and driving them frame by frame.

use vstd::prelude::*;

use crate::desktop_pet::state::{
    if_due, push_if, same_model, DesktopPetView, GazeState, ModelLabel, ModelLoadState, ModelPath,
    ModelSlot, PaintState, PetAction, UnderlayState,
};
use crate::path::same_path;
use crate::revision::{next_revision, revision_after};

verus! {

/// Tells whether the current generation already serves a request for `requested`:
/// it is loading or loaded, the path is the same, and no reload is forced.
pub fn model_generation_can_be_reused(
    selected: &Option<ModelPath>,
    requested: &Option<ModelPath>,
    generation_active: bool,
    force_reload: bool,
) -> (reused: bool)
    ensures
        reused == (!force_reload && generation_active && same_model(*selected, *requested)),
{
    if force_reload || !generation_active {
        return false;
    }
    match (selected, requested) {
        (Some(selected), Some(requested)) => same_path(
            selected.location.as_str(),
            requested.location.as_str(),
        ),
        (None, None) => true,
        _ => false,
    }
}

impl DesktopPetView {
    /// Whether the current generation serves a request for `path`.
    pub open spec fn reuses_generation(self, path: Option<ModelPath>, force: bool) -> bool {
        !force && self.model.state.active() && same_model(self.model.selected, path)
    }

    /// The state after a request for `path`.
    pub open spec fn loaded_with(self, path: Option<ModelPath>, force: bool) -> DesktopPetView {
        if self.reuses_generation(path, force) {
            self
        } else {
            let on_cpu = path is Some && !self.underlay.attached;
            DesktopPetView {
                model: ModelSlot {
                    generation: revision_after(self.model.generation),
                    selected: path,
                    state: match path {
                        Some(path) => ModelLoadState::Loading(
                            ModelLabel { model: Some(path), language: self.language },
                        ),
                        None => ModelLoadState::NoModel,
                    },
                    commands: path is Some,
                    wake: on_cpu,
                    frame_rate_wake: on_cpu,
                    cancellation: path is Some || self.underlay.attached,
                    task: on_cpu,
                },
                paint: PaintState { frame: None, ..self.paint },
                gaze: GazeState { tracking: false, ..self.gaze },
                underlay: UnderlayState {
                    cpu_fallback_pending: self.underlay.cpu_fallback_pending && path is Some,
                    ..self.underlay
                },
                ..self
            }
        }
    }

    /// What letting go of the current generation takes.
    #[verifier::opaque]
    pub open spec fn drop_generation_actions(self) -> Seq<PetAction> {
        if_due(self.model.cancellation, PetAction::CancelModel) + if_due(
            self.model.wake,
            PetAction::CloseModelWake,
        ) + if_due(self.model.frame_rate_wake, PetAction::CloseFrameRateWake) + if_due(
            self.model.task,
            PetAction::StopModelTask,
        ) + if_due(self.gaze.tracking, PetAction::StopCursorTracking) + seq![
            PetAction::ResetFrameRateMeter,
            PetAction::ResetLookTarget {
                wake_underlay: self.underlay.attached,
                wake_model: false,
            },
            PetAction::ClearPreviewCapabilities,
            PetAction::ClearAgentOutfits,
        ]
    }

    /// What a request for `path` takes.
    pub open spec fn load_actions(self, path: Option<ModelPath>, force: bool) -> Seq<PetAction> {
        let generation: u64 = revision_after(self.model.generation);
        let drop_old = self.drop_generation_actions();
        if self.reuses_generation(path, force) {
            Seq::empty()
        } else if path is None {
            drop_old + if_due(
                self.underlay.attached,
                PetAction::LoadOnUnderlay { generation, has_model: false },
            ) + seq![PetAction::Notify]
        } else if self.underlay.attached {
            drop_old + seq![
                PetAction::Notify,
                PetAction::LoadOnUnderlay { generation, has_model: true },
            ]
        } else {
            drop_old + seq![PetAction::Notify, PetAction::StartCpuModel { generation }]
        }
    }

    /// Makes `model_path` the current model, unless it already is.
    pub fn load_model(&mut self, model_path: Option<ModelPath>) -> (actions: Vec<PetAction>)
        ensures
            *final(self) == old(self).loaded_with(model_path, false),
            actions@ == old(self).load_actions(model_path, false),
    {
        self.load_model_inner(model_path, false)
    }

    /// Makes `model_path` the current model in a new generation, even where it
    /// already is: its settings or its files have changed.
    pub fn reload_model(&mut self, model_path: Option<ModelPath>) -> (actions: Vec<PetAction>)
        ensures
            *final(self) == old(self).loaded_with(model_path, true),
            actions@ == old(self).load_actions(model_path, true),
    {
        self.load_model_inner(model_path, true)
    }

    fn load_model_inner(&mut self, model_path: Option<ModelPath>, force_reload: bool) -> (actions:
        Vec<PetAction>)
        ensures
            *final(self) == old(self).loaded_with(model_path, force_reload),
            actions@ == old(self).load_actions(model_path, force_reload),
    {
        let generation_active = match &self.model.state {
            ModelLoadState::Loading(_) => true,
            ModelLoadState::Ready { .. } => true,
            _ => false,
        };
        if model_generation_can_be_reused(
            &self.model.selected,
            &model_path,
            generation_active,
            force_reload,
        ) {
            return Vec::new();
        }
        let mut actions = self.drop_generation();
        let attached = self.underlay.attached;
        let generation: u64 = next_revision(self.model.generation);
        let Some(path) = model_path else {
            self.model = ModelSlot {
                generation,
                selected: None,
                state: ModelLoadState::NoModel,
                commands: false,
                wake: false,
                frame_rate_wake: false,
                cancellation: attached,
                task: false,
            };
            self.underlay.cpu_fallback_pending = false;
            push_if(
                &mut actions,
                attached,
                PetAction::LoadOnUnderlay { generation, has_model: false },
            );
            actions.push(PetAction::Notify);
            proof {
                assert(actions@ =~= old(self).load_actions(model_path, force_reload));
            }
            return actions;
        };
        self.model = ModelSlot {
            generation,
            selected: Some(path.clone()),
            state: ModelLoadState::Loading(
                ModelLabel { model: Some(path), language: self.language },
            ),
            commands: true,
            wake: !attached,
            frame_rate_wake: !attached,
            cancellation: true,
            task: !attached,
        };
        actions.push(PetAction::Notify);
        if attached {
            actions.push(PetAction::LoadOnUnderlay { generation, has_model: true });
        } else {
            actions.push(PetAction::StartCpuModel { generation });
        }
        proof {
            assert(actions@ =~= old(self).load_actions(model_path, force_reload));
        }
        actions
    }

    /// Lets go of the current generation: cancels its work, takes its last frame off
    /// the screen and withdraws what it offered.
    fn drop_generation(&mut self) -> (actions: Vec<PetAction>)
        ensures
            *final(self) == (DesktopPetView {
                paint: PaintState { frame: None, ..old(self).paint },
                gaze: GazeState { tracking: false, ..old(self).gaze },
                ..*old(self)
            }),
            actions@ == old(self).drop_generation_actions(),
    {
        let mut actions: Vec<PetAction> = Vec::new();
        push_if(&mut actions, self.model.cancellation, PetAction::CancelModel);
        push_if(&mut actions, self.model.wake, PetAction::CloseModelWake);
        push_if(&mut actions, self.model.frame_rate_wake, PetAction::CloseFrameRateWake);
        push_if(&mut actions, self.model.task, PetAction::StopModelTask);
        self.paint.frame = None;
        let mut cursor = self.sync_cursor_tracking_task();
        actions.append(&mut cursor);
        let ghost before = actions@;
        actions.push(PetAction::ResetFrameRateMeter);
        actions.push(
            PetAction::ResetLookTarget { wake_underlay: self.underlay.attached, wake_model: false },
        );
        actions.push(PetAction::ClearPreviewCapabilities);
        actions.push(PetAction::ClearAgentOutfits);
        proof {
            reveal(DesktopPetView::drop_generation_actions);
            assert(before =~= if_due(old(self).model.cancellation, PetAction::CancelModel) + if_due(
                old(self).model.wake,
                PetAction::CloseModelWake,
            ) + if_due(old(self).model.frame_rate_wake, PetAction::CloseFrameRateWake) + if_due(
                old(self).model.task,
                PetAction::StopModelTask,
            ) + if_due(old(self).gaze.tracking, PetAction::StopCursorTracking));
            assert(actions@ =~= old(self).drop_generation_actions());
        }
        actions
    }
}

} // verus!
