//! When the model's gaze follows the pointer.

use vstd::prelude::*;

use crate::desktop_pet::state::{DesktopPetView, GazeState, PetAction};

verus! {

/// The action that brings a task from `running` to `wanted`, if one is needed.
pub open spec fn switch(
    running: bool,
    wanted: bool,
    start: PetAction,
    stop: PetAction,
) -> Seq<PetAction> {
    if running == wanted {
        Seq::empty()
    } else if wanted {
        seq![start]
    } else {
        seq![stop]
    }
}

impl DesktopPetView {
    /// Whether the pointer is followed outside the window: only for a visible frame
    /// of a window that stays, and not while something is typed.
    pub open spec fn tracks_cursor(self) -> bool {
        &&& self.gaze.tracker_available
        &&& self.gaze.enabled
        &&& self.window.visible
        &&& !self.chat.input_open
        &&& self.paint.frame is Some
        &&& !self.underlay.close_after_shutdown
        &&& !self.underlay.quitting
        &&& !self.underlay.shutdown_pending
    }

    /// The state with pointer tracking brought in line with the rest.
    pub open spec fn with_cursor_synced(self) -> DesktopPetView {
        DesktopPetView {
            gaze: GazeState { tracking: self.tracks_cursor(), ..self.gaze },
            ..self
        }
    }

    /// What bringing pointer tracking in line takes.
    pub open spec fn cursor_sync_actions(self) -> Seq<PetAction> {
        switch(
            self.gaze.tracking,
            self.tracks_cursor(),
            PetAction::StartCursorTracking,
            PetAction::StopCursorTracking,
        )
    }

    /// Whether a pointer position may turn the gaze.
    pub open spec fn accepts_look_target(self) -> bool {
        self.gaze.enabled && self.paint.frame is Some && !self.chat.input_open
    }

    /// What centring the gaze takes.
    pub open spec fn reset_look_action(self) -> PetAction {
        PetAction::ResetLookTarget {
            wake_underlay: self.underlay.attached,
            wake_model: self.model.wake,
        }
    }

    /// Tells whether a pointer position may turn the gaze.
    pub fn update_look_target(&self) -> (accepted: bool)
        ensures
            accepted == self.accepts_look_target(),
    {
        self.gaze.enabled && self.paint.frame.is_some() && !self.chat.input_open
    }

    /// Decides what a sampled pointer means: a known position turns the gaze if it
    /// may, an unknown one centres it.
    pub fn update_global_cursor_target(&self, position_known: bool) -> (actions: (
        bool,
        Vec<PetAction>,
    ))
        ensures
            actions.0 == (position_known && self.accepts_look_target()),
            actions.1@ == (if position_known {
                Seq::empty()
            } else {
                seq![self.reset_look_action()]
            }),
    {
        if position_known {
            (self.update_look_target(), Vec::new())
        } else {
            (false, vec![self.reset_look_target()])
        }
    }

    /// Tells whether the pointer is followed outside the window.
    pub fn should_track_global_cursor(&self) -> (tracks: bool)
        ensures
            tracks == self.tracks_cursor(),
    {
        self.gaze.tracker_available && self.gaze.enabled && self.window.visible
            && !self.chat.input_open && self.paint.frame.is_some() && !self.underlay.close_after_shutdown
            && !self.underlay.quitting && !self.underlay.shutdown_pending
    }

    /// Starts or stops following the pointer, as the rest of the state asks.
    pub fn sync_cursor_tracking_task(&mut self) -> (actions: Vec<PetAction>)
        ensures
            *final(self) == old(self).with_cursor_synced(),
            actions@ == old(self).cursor_sync_actions(),
    {
        let mut actions: Vec<PetAction> = Vec::new();
        if !self.should_track_global_cursor() {
            if self.gaze.tracking {
                self.gaze.tracking = false;
                actions.push(PetAction::StopCursorTracking);
            }
            return actions;
        }
        if self.gaze.tracking {
            return actions;
        }
        self.gaze.tracking = true;
        actions.push(PetAction::StartCursorTracking);
        actions
    }

    /// Centres the gaze and wakes the model if that moved it.
    pub fn reset_look_target(&self) -> (action: PetAction)
        ensures
            action == self.reset_look_action(),
    {
        PetAction::ResetLookTarget { wake_underlay: self.underlay.attached, wake_model: self.model.wake }
    }
}

} // verus!
