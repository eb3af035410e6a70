//! Showing and hiding the pet, and counting its frames.

use vstd::prelude::*;

use crate::desktop_pet::state::{
    clone_model, if_due, push_if, ChatRequest, DesktopPetView, GazeState, PaintState, PetAction,
    PetWindow, UnderlayState, VoiceMode,
};

verus! {

impl PaintState {
    /// What releasing the painted images takes. An image held twice is released once.
    pub open spec fn release_actions(self) -> Seq<PetAction> {
        (match self.previous_image {
            Some(previous) => if_due(
                self.current_image != Some(previous),
                PetAction::DropImage(previous),
            ),
            None => Seq::empty(),
        }) + (match self.current_image {
            Some(current) => seq![PetAction::DropImage(current)],
            None => Seq::empty(),
        })
    }

    /// Releases the painted images and takes the frame off the screen.
    pub fn release_rendered_images(&mut self) -> (actions: Vec<PetAction>)
        ensures
            *final(self) == (PaintState {
                frame: None,
                current_image: None,
                previous_image: None,
                ..*old(self)
            }),
            actions@ == old(self).release_actions(),
    {
        let mut actions: Vec<PetAction> = Vec::new();
        self.frame = None;
        let current = self.current_image.take();
        if let Some(previous) = self.previous_image.take() {
            let painted = match current {
                Some(current) => previous == current,
                None => false,
            };
            push_if(&mut actions, !painted, PetAction::DropImage(previous));
        }
        if let Some(current) = current {
            actions.push(PetAction::DropImage(current));
        }
        actions
    }

    /// Whether a newly painted image counts as a new frame.
    pub open spec fn image_changed(self, next: Option<u64>) -> bool {
        next is Some && self.current_image != next
    }

    /// What painting `next` releases: the image before the last, unless it is still the
    /// last one.
    pub open spec fn superseded(self) -> Option<u64> {
        if self.previous_image != self.current_image {
            self.previous_image
        } else {
            None
        }
    }

    /// The images held once `next` has been painted: it, and the one before it.
    pub open spec fn with_painted(self, next: Option<u64>) -> PaintState {
        PaintState { current_image: next, previous_image: self.current_image, ..self }
    }

    /// What painting `next` takes, in a window that is visible or not.
    pub open spec fn paint_actions(self, next: Option<u64>, visible: bool) -> Seq<PetAction> {
        (match self.superseded() {
            Some(image) => seq![PetAction::DropImage(image)],
            None => Seq::empty(),
        }) + if_due(
            self.image_changed(next) && self.show_fps && visible,
            PetAction::RecordPaintedFrame,
        )
    }

    /// Takes note of the image that has just been painted. The scene before it may still
    /// use the image painted last; the one before that is released.
    pub fn track_rendered_image(&mut self, next: Option<u64>, visible: bool) -> (actions: Vec<
        PetAction,
    >)
        ensures
            *final(self) == old(self).with_painted(next),
            actions@ == old(self).paint_actions(next, visible),
    {
        let image_changed = match (self.current_image, next) {
            (Some(current), Some(next)) => current != next,
            (None, Some(_)) => true,
            _ => false,
        };
        let mut actions: Vec<PetAction> = Vec::new();
        let current = self.current_image.take();
        if let Some(previous) = self.previous_image.take() {
            let painted = match current {
                Some(current) => previous == current,
                None => false,
            };
            push_if(&mut actions, !painted, PetAction::DropImage(previous));
        }
        self.previous_image = current;
        self.current_image = next;
        push_if(
            &mut actions,
            image_changed && self.show_fps && visible,
            PetAction::RecordPaintedFrame,
        );
        proof {
            assert(actions@ =~= old(self).paint_actions(next, visible));
        }
        actions
    }

    /// The state after the frame counter was switched on or off.
    pub open spec fn with_fps_shown(self, show: bool, visible: bool) -> PaintState {
        if self.show_fps == show {
            self
        } else {
            PaintState { show_fps: show, fps_sampling: show && visible, ..self }
        }
    }

    /// What switching the frame counter takes.
    pub open spec fn show_fps_actions(self, show: bool, visible: bool) -> Seq<PetAction> {
        if self.show_fps == show {
            Seq::empty()
        } else {
            seq![PetAction::ResetFrameRateMeter] + if_due(
                self.fps_sampling,
                PetAction::StopFpsSampling,
            ) + if_due(show && visible, PetAction::StartFpsSampling) + seq![PetAction::Notify]
        }
    }

    /// Switches the frame counter on or off.
    pub fn set_show_fps(&mut self, show: bool, visible: bool) -> (actions: Vec<PetAction>)
        ensures
            *final(self) == old(self).with_fps_shown(show, visible),
            actions@ == old(self).show_fps_actions(show, visible),
    {
        if self.show_fps == show {
            return Vec::new();
        }
        self.show_fps = show;
        let mut actions = vec![PetAction::ResetFrameRateMeter];
        push_if(&mut actions, self.fps_sampling, PetAction::StopFpsSampling);
        self.fps_sampling = false;
        if show && visible {
            let mut start = self.start_fps_task(visible);
            actions.append(&mut start);
        }
        actions.push(PetAction::Notify);
        proof {
            assert(actions@ =~= old(self).show_fps_actions(show, visible));
        }
        actions
    }

    /// Starts sampling the frame rate of a visible window.
    pub fn start_fps_task(&mut self, visible: bool) -> (actions: Vec<PetAction>)
        ensures
            *final(self) == (PaintState {
                fps_sampling: old(self).fps_sampling || visible,
                ..*old(self)
            }),
            actions@ == if_due(visible && !old(self).fps_sampling, PetAction::StartFpsSampling),
    {
        if self.fps_sampling || !visible {
            return Vec::new();
        }
        self.fps_sampling = true;
        vec![PetAction::StartFpsSampling]
    }

    /// Tells whether the frame rate is still sampled.
    pub fn fps_sample_is_wanted(&self, visible: bool) -> (wanted: bool)
        ensures
            wanted == (self.show_fps && visible),
    {
        self.show_fps && visible
    }
}

/// The number of times that something has happened, one more than `count`, wrapping
/// around.
pub open spec fn count_after(count: u64) -> u64 {
    if count == u64::MAX {
        0
    } else {
        (count + 1) as u64
    }
}

impl DesktopPetView {
    /// The window once it has been shown or hidden, with the voice that goes with it.
    pub open spec fn with_visibility(self, visible: bool, mode: VoiceMode) -> DesktopPetView {
        DesktopPetView {
            window: PetWindow {
                visible,
                visibility_revision: count_after(self.window.visibility_revision),
                ..self.window
            },
            voice: self.voice.with_settings(mode),
            ..self
        }
    }

    /// What showing or hiding takes first.
    #[verifier::opaque]
    pub open spec fn visibility_actions(self, visible: bool) -> Seq<PetAction> {
        if_due(self.window.tray_available, PetAction::SetTrayHidden(!visible)) + seq![
            PetAction::Chat(
                if visible {
                    ChatRequest::Resume
                } else {
                    ChatRequest::Suspend
                },
            ),
        ] + self.voice.settings_actions(visible) + seq![PetAction::ResetFrameRateMeter] + if_due(
            self.model.frame_rate_wake,
            PetAction::WakeFrameRate,
        )
    }

    fn change_visibility(&mut self, visible: bool, mode: VoiceMode) -> (actions: Vec<PetAction>)
        ensures
            *final(self) == old(self).with_visibility(visible, mode),
            actions@ == old(self).visibility_actions(visible),
    {
        let mut actions: Vec<PetAction> = Vec::new();
        self.window.visible = visible;
        push_if(&mut actions, self.window.tray_available, PetAction::SetTrayHidden(!visible));
        self.window.visibility_revision = self.window.visibility_revision.wrapping_add(1);
        if visible {
            actions.push(PetAction::Chat(ChatRequest::Resume));
        } else {
            actions.push(PetAction::Chat(ChatRequest::Suspend));
        }
        let mut voice = self.voice.apply_voice_settings(mode, visible);
        actions.append(&mut voice);
        actions.push(PetAction::ResetFrameRateMeter);
        push_if(&mut actions, self.model.frame_rate_wake, PetAction::WakeFrameRate);
        proof {
            reveal(DesktopPetView::visibility_actions);
            assert(actions@ =~= old(self).visibility_actions(visible));
        }
        actions
    }

    /// The state after the window was shown. A worker that is still stopping because it
    /// was hidden comes back once it has stopped.
    pub open spec fn shown(self, mode: VoiceMode) -> DesktopPetView {
        let returning = self.underlay.released_for_hidden && self.underlay.shutdown_pending;
        (DesktopPetView {
            paint: PaintState {
                fps_sampling: self.paint.fps_sampling || self.paint.show_fps,
                ..self.paint
            },
            underlay: UnderlayState {
                restore_pending: self.underlay.restore_pending || returning,
                restart_cpu: self.underlay.restart_cpu && !returning,
                ..self.underlay
            },
            ..self.with_visibility(true, mode)
        }).with_cursor_synced()
    }

    /// What showing the window takes.
    pub open spec fn show_actions(self, mode: VoiceMode) -> Seq<PetAction> {
        self.visibility_actions(true) + self.shown_model_actions() + (
        self.shown_untracked(mode).cursor_sync_actions() + seq![PetAction::Notify])
    }

    /// The shown window before pointer tracking is brought in line.
    pub open spec fn shown_untracked(self, mode: VoiceMode) -> DesktopPetView {
        DesktopPetView { gaze: self.gaze, ..self.shown(mode) }
    }

    /// What showing the window takes for its model.
    #[verifier::opaque]
    pub open spec fn shown_model_actions(self) -> Seq<PetAction> {
        self.wake_model_actions() + if_due(
            self.paint.show_fps && !self.paint.fps_sampling,
            PetAction::StartFpsSampling,
        ) + if_due(
            self.can_restore() && !self.underlay.shutdown_pending,
            PetAction::AttachUnderlay,
        )
    }

    fn resume_model(&mut self) -> (actions: Vec<PetAction>)
        requires
            old(self).window.visible,
        ensures
            *final(self) == (DesktopPetView {
                paint: PaintState {
                    fps_sampling: old(self).paint.fps_sampling || old(self).paint.show_fps,
                    ..old(self).paint
                },
                underlay: UnderlayState {
                    restore_pending: old(self).underlay.restore_pending || (old(
                        self,
                    ).underlay.released_for_hidden && old(self).underlay.shutdown_pending),
                    restart_cpu: old(self).underlay.restart_cpu && !(old(
                        self,
                    ).underlay.released_for_hidden && old(self).underlay.shutdown_pending),
                    ..old(self).underlay
                },
                ..*old(self)
            }),
            actions@ == old(self).shown_model_actions(),
    {
        let mut actions = self.wake_model();
        if self.paint.show_fps {
            let mut start = self.paint.start_fps_task(true);
            actions.append(&mut start);
        }
        if self.underlay.released_for_hidden {
            if self.underlay.shutdown_pending {
                self.underlay.restore_pending = true;
                self.underlay.restart_cpu = false;
            } else if !self.underlay.attached && !self.underlay.quitting {
                actions.push(PetAction::AttachUnderlay);
            }
        }
        proof {
            reveal(DesktopPetView::shown_model_actions);
            assert(actions@ =~= old(self).shown_model_actions());
        }
        actions
    }

    /// Whether hiding the window lets go of the graphics worker.
    pub open spec fn hiding_releases_underlay(self) -> bool {
        self.underlay.attached && !self.underlay.shutdown_pending
    }

    /// The state after the window was hidden: nothing is painted, and the graphics worker
    /// is let go until the window comes back.
    pub open spec fn hidden(self, mode: VoiceMode) -> DesktopPetView {
        DesktopPetView {
            paint: PaintState {
                frame: None,
                current_image: None,
                previous_image: None,
                fps_sampling: false,
                ..self.paint
            },
            gaze: GazeState { tracking: false, ..self.gaze },
            underlay: if self.hiding_releases_underlay() {
                UnderlayState {
                    attached: false,
                    events: false,
                    shutdown_pending: true,
                    restart_cpu: true,
                    released_for_hidden: true,
                    restore_pending: false,
                    ..self.underlay
                }
            } else {
                UnderlayState {
                    restart_cpu: self.underlay.restart_cpu || (self.underlay.shutdown_pending
                        && self.underlay.released_for_hidden),
                    restore_pending: false,
                    ..self.underlay
                }
            },
            ..self.with_visibility(false, mode)
        }
    }

    /// What hiding the window takes.
    pub open spec fn hide_actions(self) -> Seq<PetAction> {
        self.visibility_actions(false) + self.hidden_model_actions() + seq![PetAction::Notify]
    }

    /// What hiding the window takes for its model.
    #[verifier::opaque]
    pub open spec fn hidden_model_actions(self) -> Seq<PetAction> {
        if_due(self.paint.fps_sampling, PetAction::StopFpsSampling) + self.paint.release_actions()
            + (if self.hiding_releases_underlay() {
            seq![PetAction::PauseUnderlay] + self.begin_shutdown_actions(self.model.generation)
        } else {
            if_due(self.gaze.tracking, PetAction::StopCursorTracking)
        })
    }

    fn suspend_model(&mut self) -> (actions: Vec<PetAction>)
        requires
            !old(self).window.visible,
        ensures
            *final(self) == (DesktopPetView {
                paint: PaintState {
                    frame: None,
                    current_image: None,
                    previous_image: None,
                    fps_sampling: false,
                    ..old(self).paint
                },
                underlay: UnderlayState {
                    restart_cpu: old(self).underlay.restart_cpu || (old(
                        self,
                    ).underlay.shutdown_pending && old(self).underlay.released_for_hidden),
                    restore_pending: false,
                    ..old(self).underlay
                },
                ..*old(self)
            }),
            actions@ == if_due(old(self).paint.fps_sampling, PetAction::StopFpsSampling) + old(
                self,
            ).paint.release_actions(),
    {
        let mut actions: Vec<PetAction> = Vec::new();
        push_if(&mut actions, self.paint.fps_sampling, PetAction::StopFpsSampling);
        self.paint.fps_sampling = false;
        self.underlay.restore_pending = false;
        if self.underlay.shutdown_pending && self.underlay.released_for_hidden {
            self.underlay.restart_cpu = true;
        }
        let mut images = self.paint.release_rendered_images();
        actions.append(&mut images);
        proof {
            assert(actions@ =~= if_due(old(self).paint.fps_sampling, PetAction::StopFpsSampling)
                + old(self).paint.release_actions());
        }
        actions
    }

    fn release_underlay(&mut self) -> (actions: Vec<PetAction>)
        requires
            !old(self).window.visible,
        ensures
            *final(self) == (DesktopPetView {
                gaze: GazeState { tracking: false, ..old(self).gaze },
                underlay: if old(self).hiding_releases_underlay() {
                    UnderlayState {
                        attached: false,
                        events: false,
                        shutdown_pending: true,
                        restart_cpu: true,
                        released_for_hidden: true,
                        ..old(self).underlay
                    }
                } else {
                    old(self).underlay
                },
                ..*old(self)
            }),
            actions@ == (if old(self).hiding_releases_underlay() {
                seq![PetAction::PauseUnderlay] + old(self).begin_shutdown_actions(
                    old(self).model.generation,
                )
            } else {
                if_due(old(self).gaze.tracking, PetAction::StopCursorTracking)
            }),
    {
        if !self.underlay.attached || self.underlay.shutdown_pending {
            return self.sync_cursor_tracking_task();
        }
        let mut actions = vec![PetAction::PauseUnderlay];
        self.underlay.released_for_hidden = true;
        self.underlay.restart_cpu = true;
        let generation: u64 = self.model.generation;
        let selected = clone_model(&self.model.selected);
        let mut stop = self.begin_gpu_shutdown(generation, selected);
        actions.append(&mut stop);
        actions
    }

    /// The state after the window was shown or hidden.
    pub open spec fn after_visibility(self, visible: bool, mode: VoiceMode) -> DesktopPetView {
        if self.window.visible == visible {
            self
        } else if visible {
            self.shown(mode)
        } else {
            self.hidden(mode)
        }
    }

    /// What showing or hiding the window takes.
    pub open spec fn set_visible_actions(self, visible: bool, mode: VoiceMode) -> Seq<PetAction> {
        if self.window.visible == visible {
            Seq::empty()
        } else if visible {
            self.show_actions(mode)
        } else {
            self.hide_actions()
        }
    }

    /// Follows the native window, which has been shown or hidden, with model, voice and
    /// chat. `mode` is what the voice settings ask for.
    pub fn set_desktop_pet_visible(&mut self, visible: bool, mode: VoiceMode) -> (actions: Vec<
        PetAction,
    >)
        ensures
            *final(self) == old(self).after_visibility(visible, mode),
            actions@ == old(self).set_visible_actions(visible, mode),
    {
        if self.window.visible == visible {
            return Vec::new();
        }
        if visible {
            self.show(mode)
        } else {
            self.conceal(mode)
        }
    }

    fn show(&mut self, mode: VoiceMode) -> (actions: Vec<PetAction>)
        requires
            !old(self).window.visible,
        ensures
            *final(self) == old(self).shown(mode),
            actions@ == old(self).show_actions(mode),
    {
        let mut actions = self.change_visibility(true, mode);
        proof {
            reveal(DesktopPetView::shown_model_actions);
        }
        let mut model = self.resume_model();
        actions.append(&mut model);
        proof {
            assert(*self == old(self).shown_untracked(mode));
        }
        let mut rest = self.sync_cursor_tracking_task();
        rest.push(PetAction::Notify);
        actions.append(&mut rest);
        actions
    }

    fn conceal(&mut self, mode: VoiceMode) -> (actions: Vec<PetAction>)
        requires
            old(self).window.visible,
        ensures
            *final(self) == old(self).hidden(mode),
            actions@ == old(self).hide_actions(),
    {
        let mut actions = self.change_visibility(false, mode);
        let mut model = self.suspend_model();
        let mut release = self.release_underlay();
        model.append(&mut release);
        proof {
            reveal(DesktopPetView::hidden_model_actions);
            assert(model@ =~= old(self).hidden_model_actions());
        }
        actions.append(&mut model);
        actions.push(PetAction::Notify);
        actions
    }

    /// What a request to toggle the window asks the platform for.
    pub fn requested_visibility(&self) -> (visible: bool)
        ensures
            visible == !self.window.visible,
    {
        !self.window.visible
    }

    /// Toggles the window, once the platform has answered the request. A refused request
    /// changes nothing.
    pub fn toggle_desktop_pet_visibility(
        &mut self,
        platform: Result<(), String>,
        mode: VoiceMode,
    ) -> (result: (Result<bool, String>, Vec<PetAction>))
        ensures
            match platform {
                Ok(_) => {
                    &&& result.0 == Ok::<bool, String>(!old(self).window.visible)
                    &&& *final(self) == old(self).after_visibility(
                        !old(self).window.visible,
                        mode,
                    )
                    &&& result.1@ == old(self).set_visible_actions(
                        !old(self).window.visible,
                        mode,
                    )
                },
                Err(error) => {
                    &&& result.0 == Err::<bool, String>(error)
                    &&& *final(self) == *old(self)
                    &&& result.1@ == Seq::<PetAction>::empty()
                },
            },
    {
        let visible = self.requested_visibility();
        match platform {
            Ok(_) => {
                let actions = self.set_desktop_pet_visible(visible, mode);
                (Ok(visible), actions)
            },
            Err(error) => (Err(error), Vec::new()),
        }
    }

    /// Brings the tray back in line after a refused request.
    pub fn sync_desktop_pet_visibility_to_tray(&self) -> (actions: Vec<PetAction>)
        ensures
            actions@ == if_due(
                self.window.tray_available,
                PetAction::SetTrayHidden(!self.window.visible),
            ),
    {
        if self.window.tray_available {
            vec![PetAction::SetTrayHidden(!self.window.visible)]
        } else {
            Vec::new()
        }
    }
}

/// After painting, at most the last two images are held, and what is released is
/// neither of them unless it has just been painted again.
pub proof fn painting_keeps_two_images(paint: PaintState, next: Option<u64>)
    requires
        next is Some ==> paint.previous_image != next || paint.current_image == next,
    ensures
        ({
            let painted = paint.with_painted(next);
            &&& painted.current_image == next
            &&& painted.previous_image == paint.current_image
            &&& paint.superseded() matches Some(image) ==> painted.current_image != Some(image)
                && painted.previous_image != Some(image)
        }),
{
}

/// No image is lost: what was held is held afterwards or released.
pub proof fn painting_loses_no_image(paint: PaintState, next: Option<u64>, image: u64)
    requires
        paint.current_image == Some(image) || paint.previous_image == Some(image),
    ensures
        paint.with_painted(next).previous_image == Some(image) || paint.superseded() == Some(image),
{
}

} // verus!
