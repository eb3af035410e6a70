//! The loop that renders a model on the processor, one decision at a time.
//!
//! The loop sleeps until a frame is due, renders it, and decides whether the next
//! one is due at once. [`FrameLoop`] holds what it remembers; each method takes what
//! the last wait brought and says what to do next.

use vstd::prelude::*;

use crate::desktop_pet::state::DesktopPetView;

verus! {

/// A choice of frame rate, as the loop reads it.
#[derive(Debug, Clone, Copy, PartialEq, Eq, Structural)]
pub struct FrameRate {
    /// The highest number of frames per second, if there is one.
    pub limit: Option<u32>,
    pub allows_degradation: bool,
    /// Whether frames are paced by the display rather than by a timer.
    pub follows_display: bool,
}

/// The target of the pacer that spaces frames out.
#[derive(Debug, Clone, Copy, PartialEq, Eq, Structural)]
pub struct FramePacer {
    pub target_fps: Option<u32>,
    pub allow_degradation: bool,
}

/// The pacer for a frame rate.
pub open spec fn pacer_for(frame_rate: FrameRate) -> FramePacer {
    FramePacer { target_fps: frame_rate.limit, allow_degradation: frame_rate.allows_degradation }
}

/// Returns the pacer for a frame rate.
pub fn frame_pacer(frame_rate: FrameRate) -> (pacer: FramePacer)
    ensures
        pacer == pacer_for(frame_rate),
{
    FramePacer { target_fps: frame_rate.limit, allow_degradation: frame_rate.allows_degradation }
}

/// What a wait for the next frame ended with.
#[derive(Debug, Clone, Copy, PartialEq, Eq, Structural)]
pub enum FrameWaitResult {
    FrameReady,
    FrameRateChanged,
    Closed,
}

/// The end of a wait of which `changed` and `frame` tell how far its two sides have
/// come: not yet, done, or closed. The announcement of a new frame rate goes first,
/// so that no frame is rendered at the old one.
pub open spec fn wait_result(changed: Option<bool>, frame: Option<bool>) -> Option<
    FrameWaitResult,
> {
    match (changed, frame) {
        (Some(true), _) => Some(FrameWaitResult::FrameRateChanged),
        (Some(false), _) => Some(FrameWaitResult::Closed),
        (None, Some(true)) => Some(FrameWaitResult::FrameReady),
        (None, Some(false)) => Some(FrameWaitResult::Closed),
        (None, None) => None,
    }
}

/// Decides how a wait ends, or that it goes on.
pub fn wait_for_frame_or_rate_change(changed: Option<bool>, frame: Option<bool>) -> (result: Option<
    FrameWaitResult,
>)
    ensures
        result == wait_result(changed, frame),
{
    match changed {
        Some(ready) => if ready {
            Some(FrameWaitResult::FrameRateChanged)
        } else {
            Some(FrameWaitResult::Closed)
        },
        None => match frame {
            Some(ready) => if ready {
                Some(FrameWaitResult::FrameReady)
            } else {
                Some(FrameWaitResult::Closed)
            },
            None => None,
        },
    }
}

/// What happens to the pacer before the next step.
#[derive(Debug, Clone, Copy, PartialEq, Eq, Structural)]
pub enum PacerChange {
    Keep,
    /// Forget the rhythm: the loop has been idle.
    ResetAfterIdle,
    /// Make a new one for the current frame rate.
    Rebuild,
}

/// The next step of the loop.
#[derive(Debug, Clone, Copy, PartialEq, Eq, Structural)]
pub enum FrameStep {
    /// The loop ends.
    Stop,
    /// Look at the window again, from the top.
    Restart,
    /// Wait for an announcement of the frame rate; the window is hidden.
    AwaitRateChange,
    /// Wait until the pacer lets the next frame through.
    AwaitTimer,
    /// Wait until something wakes the model.
    AwaitInput,
    /// Wait for the next frame of the display.
    AwaitDisplay,
    /// Render a frame, with no time passed since the last one where asked.
    Render { zero_delta: bool },
}

/// A step, with what happens to the pacer before it.
#[derive(Debug, Clone, Copy, PartialEq, Eq, Structural)]
pub struct FramePlan {
    pub pacer: PacerChange,
    pub target: Option<FramePacer>,
    pub step: FrameStep,
}

/// Commands that are handed to the model before one frame at most.
pub open spec fn batch_is_full(taken: nat, limit: nat) -> bool {
    taken == limit
}

/// What the loop remembers from one step to the next.
#[derive(Debug, Clone, Copy, PartialEq, Eq, Structural)]
pub struct FrameLoop {
    pub generation: u64,
    pub observed_visibility_revision: u64,
    /// Whether a frame is due without waiting for input.
    pub needs_next_frame: bool,
    /// Whether the next frame starts its clock anew.
    pub reset_delta: bool,
}

impl DesktopPetView {
    /// What the loop of `generation` has to know of the window: nothing, if the loop
    /// has no business any more.
    pub open spec fn activity_for(self, generation: u64) -> Option<(bool, u64)> {
        if self.model.generation == generation && !self.underlay.attached {
            Some((self.window.visible, self.window.visibility_revision))
        } else {
            None
        }
    }

    /// Tells the loop of `generation` whether the window is visible and how often that
    /// has changed, or that the loop has no business any more.
    pub fn frame_activity(&self, generation: u64) -> (activity: Option<(bool, u64)>)
        ensures
            activity == self.activity_for(generation),
    {
        if self.model.generation == generation && !self.underlay.attached {
            Some((self.window.visible, self.window.visibility_revision))
        } else {
            None
        }
    }

    /// Tells whether a callback for the next display frame may be armed for
    /// `generation`.
    pub fn display_frame_can_be_armed(&self, generation: u64) -> (armed: bool)
        ensures
            armed == (self.activity_for(generation) is Some),
    {
        self.model.generation == generation && !self.underlay.attached
    }
}

impl FrameLoop {
    /// The memory of a loop that has just begun.
    pub fn new(generation: u64, visibility_revision: u64, needs_continuous_frames: bool) -> (state:
        Self)
        ensures
            state == (FrameLoop {
                generation,
                observed_visibility_revision: visibility_revision,
                needs_next_frame: needs_continuous_frames,
                reset_delta: false,
            }),
    {
        FrameLoop {
            generation,
            observed_visibility_revision: visibility_revision,
            needs_next_frame: needs_continuous_frames,
            reset_delta: false,
        }
    }

    /// Whether a look at the window shows that time has been lost: it is hidden, or it
    /// was hidden or shown since the last look.
    pub open spec fn idled(self, visible: bool, visibility_revision: u64) -> bool {
        !visible || self.observed_visibility_revision != visibility_revision
    }

    /// The memory after a look at the window.
    pub open spec fn after_look(self, activity: Option<(bool, u64)>) -> FrameLoop {
        match activity {
            Some((visible, visibility_revision)) => FrameLoop {
                observed_visibility_revision: visibility_revision,
                needs_next_frame: self.needs_next_frame || self.idled(visible, visibility_revision),
                reset_delta: self.reset_delta || self.idled(visible, visibility_revision),
                ..self
            },
            None => self,
        }
    }

    /// The plan after a look at the window.
    pub open spec fn plan_after_look(
        self,
        activity: Option<(bool, u64)>,
        frame_rate: FrameRate,
    ) -> FramePlan {
        match activity {
            None => FramePlan { pacer: PacerChange::Keep, target: None, step: FrameStep::Stop },
            Some((visible, visibility_revision)) => {
                let pacer = if self.idled(visible, visibility_revision) {
                    PacerChange::ResetAfterIdle
                } else {
                    PacerChange::Keep
                };
                if !visible {
                    FramePlan { pacer, target: None, step: FrameStep::AwaitRateChange }
                } else {
                    FramePlan {
                        pacer,
                        target: Some(pacer_for(frame_rate)),
                        step: if !self.after_look(activity).needs_next_frame {
                            FrameStep::AwaitInput
                        } else if frame_rate.follows_display {
                            FrameStep::AwaitDisplay
                        } else {
                            FrameStep::AwaitTimer
                        },
                    }
                }
            },
        }
    }

    /// Starts a turn of the loop with a look at the window.
    pub fn look(&mut self, activity: Option<(bool, u64)>, frame_rate: FrameRate) -> (plan:
        FramePlan)
        ensures
            *final(self) == old(self).after_look(activity),
            plan == old(self).plan_after_look(activity, frame_rate),
    {
        let Some((visible, visibility_revision)) = activity else {
            return FramePlan { pacer: PacerChange::Keep, target: None, step: FrameStep::Stop };
        };
        let mut pacer = PacerChange::Keep;
        if self.observed_visibility_revision != visibility_revision {
            self.observed_visibility_revision = visibility_revision;
            pacer = PacerChange::ResetAfterIdle;
            self.reset_delta = true;
            self.needs_next_frame = true;
        }
        if !visible {
            self.reset_delta = true;
            self.needs_next_frame = true;
            return FramePlan {
                pacer: PacerChange::ResetAfterIdle,
                target: None,
                step: FrameStep::AwaitRateChange,
            };
        }
        let step = if self.needs_next_frame {
            if frame_rate.follows_display {
                FrameStep::AwaitDisplay
            } else {
                FrameStep::AwaitTimer
            }
        } else {
            FrameStep::AwaitInput
        };
        FramePlan { pacer, target: Some(frame_pacer(frame_rate)), step }
    }

    /// The plan of a loop that was hidden and has been woken, or whose channel has been
    /// closed.
    pub fn after_hidden_wait(&self, woken: bool) -> (plan: FramePlan)
        ensures
            plan == (FramePlan {
                pacer: PacerChange::Keep,
                target: None,
                step: if woken {
                    FrameStep::Restart
                } else {
                    FrameStep::Stop
                },
            }),
    {
        FramePlan {
            pacer: PacerChange::Keep,
            target: None,
            step: if woken {
                FrameStep::Restart
            } else {
                FrameStep::Stop
            },
        }
    }

    /// The plan for a wait that ended without a frame being due.
    pub open spec fn plan_without_frame(result: FrameWaitResult) -> FramePlan {
        if result == FrameWaitResult::FrameRateChanged {
            FramePlan { pacer: PacerChange::Rebuild, target: None, step: FrameStep::Restart }
        } else {
            FramePlan { pacer: PacerChange::Keep, target: None, step: FrameStep::Stop }
        }
    }

    fn without_frame(result: FrameWaitResult) -> (plan: FramePlan)
        ensures
            plan == Self::plan_without_frame(result),
    {
        match result {
            FrameWaitResult::FrameRateChanged => FramePlan {
                pacer: PacerChange::Rebuild,
                target: None,
                step: FrameStep::Restart,
            },
            _ => FramePlan { pacer: PacerChange::Keep, target: None, step: FrameStep::Stop },
        }
    }

    /// The memory after a wait for the timer or the display.
    pub open spec fn after_wait(self, result: FrameWaitResult) -> FrameLoop {
        if result == FrameWaitResult::FrameReady {
            FrameLoop { reset_delta: false, ..self }
        } else {
            self
        }
    }

    /// The plan after a wait for the timer or the display.
    pub open spec fn plan_after_wait(self, result: FrameWaitResult) -> FramePlan {
        if result == FrameWaitResult::FrameReady {
            FramePlan {
                pacer: PacerChange::Keep,
                target: None,
                step: FrameStep::Render { zero_delta: self.reset_delta },
            }
        } else {
            Self::plan_without_frame(result)
        }
    }

    /// Goes on after a wait for the timer or the display.
    pub fn frame_due(&mut self, result: FrameWaitResult) -> (plan: FramePlan)
        ensures
            *final(self) == old(self).after_wait(result),
            plan == old(self).plan_after_wait(result),
    {
        match result {
            FrameWaitResult::FrameReady => {
                let zero_delta = self.reset_delta;
                self.reset_delta = false;
                FramePlan {
                    pacer: PacerChange::Keep,
                    target: None,
                    step: FrameStep::Render { zero_delta },
                }
            },
            _ => Self::without_frame(result),
        }
    }

    /// The memory after a wait for input. Input that has been taken keeps a frame due
    /// until one has been rendered, whatever the frame rate does meanwhile.
    pub open spec fn after_input(self, result: FrameWaitResult, frame_rate: FrameRate) -> FrameLoop {
        if result == FrameWaitResult::FrameReady {
            FrameLoop { needs_next_frame: true, reset_delta: frame_rate.follows_display, ..self }
        } else {
            self
        }
    }

    /// The plan after a wait for input.
    pub open spec fn plan_after_input(
        self,
        result: FrameWaitResult,
        frame_rate: FrameRate,
    ) -> FramePlan {
        if result == FrameWaitResult::FrameReady {
            FramePlan {
                pacer: PacerChange::ResetAfterIdle,
                target: Some(pacer_for(frame_rate)),
                step: if frame_rate.follows_display {
                    FrameStep::AwaitDisplay
                } else {
                    FrameStep::Render { zero_delta: true }
                },
            }
        } else {
            Self::plan_without_frame(result)
        }
    }

    /// Goes on after a wait for input, at the frame rate of that moment.
    pub fn input_arrived(&mut self, result: FrameWaitResult, frame_rate: FrameRate) -> (plan:
        FramePlan)
        ensures
            *final(self) == old(self).after_input(result, frame_rate),
            plan == old(self).plan_after_input(result, frame_rate),
    {
        match result {
            FrameWaitResult::FrameReady => {
                self.needs_next_frame = true;
                self.reset_delta = true;
                let step = if frame_rate.follows_display {
                    FrameStep::AwaitDisplay
                } else {
                    self.reset_delta = false;
                    FrameStep::Render { zero_delta: true }
                };
                FramePlan {
                    pacer: PacerChange::ResetAfterIdle,
                    target: Some(frame_pacer(frame_rate)),
                    step,
                }
            },
            _ => Self::without_frame(result),
        }
    }

    /// The plan for a display callback that was armed, or could not be.
    pub fn display_armed(&self, armed: bool) -> (step: FrameStep)
        ensures
            step == (if armed {
                FrameStep::AwaitDisplay
            } else {
                FrameStep::Stop
            }),
    {
        if armed {
            FrameStep::AwaitDisplay
        } else {
            FrameStep::Stop
        }
    }

    /// Whether a frame is due right after one: the model moves by itself, commands may
    /// be left over, or input came in while it was rendered.
    pub open spec fn frame_due_after_render(
        model_needs_continuous_frames: bool,
        commands_taken: nat,
        command_limit: nat,
        input_pending: bool,
    ) -> bool {
        model_needs_continuous_frames || batch_is_full(commands_taken, command_limit)
            || input_pending
    }

    /// Takes note of a rendered frame, and tells whether the pacer has to hear of it.
    pub fn frame_rendered(
        &mut self,
        model_needs_continuous_frames: bool,
        commands_taken: usize,
        command_limit: usize,
        input_pending: bool,
    ) -> (pace: bool)
        ensures
            *final(self) == (FrameLoop {
                needs_next_frame: Self::frame_due_after_render(
                    model_needs_continuous_frames,
                    commands_taken as nat,
                    command_limit as nat,
                    input_pending,
                ),
                ..*old(self)
            }),
            pace == final(self).needs_next_frame,
    {
        let command_batch_full = commands_taken == command_limit;
        self.needs_next_frame = model_needs_continuous_frames || command_batch_full
            || input_pending;
        self.needs_next_frame
    }
}

/// The announcement of a new frame rate wins over a frame that is ready at the same
/// time.
pub proof fn rate_change_goes_first(frame: Option<bool>)
    ensures
        wait_result(Some(true), frame) == Some(FrameWaitResult::FrameRateChanged),
{
}

/// Input that has been taken is never forgotten before a frame: whatever the window
/// and the frame rate do afterwards, a frame stays due, and the loop never goes back
/// to waiting for input.
pub proof fn taken_input_keeps_frame_due(
    state: FrameLoop,
    frame_rate: FrameRate,
    activity: Option<(bool, u64)>,
    later_rate: FrameRate,
    result: FrameWaitResult,
)
    ensures
        ({
            let taken = state.after_input(FrameWaitResult::FrameReady, frame_rate);
            let looked = taken.after_look(activity);
            &&& taken.needs_next_frame
            &&& looked.needs_next_frame
            &&& looked.after_wait(result).needs_next_frame
            &&& taken.plan_after_look(activity, later_rate).step != FrameStep::AwaitInput
        }),
{
}

/// The first frame after the window was hidden and shown again starts its clock anew:
/// the time spent hidden does not reach the model.
pub proof fn hidden_time_is_skipped(
    state: FrameLoop,
    hidden_revision: u64,
    shown_revision: u64,
    frame_rate: FrameRate,
)
    ensures
        ({
            let hidden = state.after_look(Some((false, hidden_revision)));
            let shown = hidden.after_look(Some((true, shown_revision)));
            &&& shown.reset_delta
            &&& shown.needs_next_frame
            &&& shown.plan_after_wait(FrameWaitResult::FrameReady).step == (FrameStep::Render {
                zero_delta: true,
            })
        }),
{
}

/// A replaced generation stops at its next look at the window, and so does one whose
/// work the graphics worker has taken over.
pub proof fn replaced_loop_stops(pet: DesktopPetView, state: FrameLoop, frame_rate: FrameRate)
    requires
        pet.model.generation != state.generation || pet.underlay.attached,
    ensures
        state.plan_after_look(pet.activity_for(state.generation), frame_rate).step
            == FrameStep::Stop,
{
}

} // verus!
