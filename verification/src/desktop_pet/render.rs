//! What the pet window draws.

use vstd::prelude::*;

use crate::desktop_pet::state::{
    DesktopPetView, FrameRef, ModelMessage, PetAction, PetWindow, RasterSize,
};

verus! {

/// The parts of the window, decided; drawing them is left to others.
#[derive(Debug)]
pub struct PetScene {
    /// The generation that the model element belongs to.
    pub generation: u64,
    pub frame: Option<FrameRef>,
    /// The message that covers the pet and opens the settings.
    pub message: Option<ModelMessage>,
    /// The warning of a loaded model, hidden by the chat.
    pub warning: Option<ModelMessage>,
    pub fps_counter: bool,
    /// Whether the warning has to leave room for the frame counter.
    pub warning_below_counter: bool,
    pub chat_panel: bool,
    pub settings_button: bool,
}

/// The rasters of a viewport.
#[derive(Debug, Clone, Copy, PartialEq, Eq, Structural)]
pub struct ViewportRasters {
    pub gpu: RasterSize,
    pub cpu: RasterSize,
}

impl DesktopPetView {
    /// What the window draws now.
    pub open spec fn scene_view(self) -> PetScene {
        PetScene {
            generation: self.model.generation,
            frame: self.paint.frame,
            message: self.model.state.cover_message(),
            warning: if self.chat.input_open {
                None
            } else {
                self.model.state.load_warning()
            },
            fps_counter: self.paint.show_fps,
            warning_below_counter: self.paint.show_fps,
            chat_panel: self.chat.input_open,
            settings_button: !self.chat.input_open,
        }
    }

    /// Returns what the window draws now.
    pub fn scene(&self) -> (scene: PetScene)
        ensures
            scene == self.scene_view(),
    {
        PetScene {
            generation: self.model.generation,
            frame: self.paint.frame,
            message: self.model.state.message(),
            warning: if self.chat.input_open {
                None
            } else {
                self.model.state.diagnostics_message()
            },
            fps_counter: self.paint.show_fps,
            warning_below_counter: self.paint.show_fps,
            chat_panel: self.chat.input_open,
            settings_button: !self.chat.input_open,
        }
    }

    /// The image that the window paints itself.
    pub open spec fn painted_image(self) -> Option<u64> {
        match self.paint.frame {
            Some(frame) => frame.image,
            None => None,
        }
    }

    /// Settles the size before the window is drawn: a pending size goes before the size
    /// of the viewport. `settled` are the rasters of the size that a settled request is
    /// accepted with, `viewport` those of the viewport at hand.
    pub fn prepare_render(
        &mut self,
        reached_target: bool,
        settled: ViewportRasters,
        gpu_size_changed: bool,
        viewport: ViewportRasters,
    ) -> (actions: Vec<PetAction>)
        ensures
            old(self).window.pending_size is Some ==> {
                &&& *final(self) == old(self).after_pending_size(
                    reached_target,
                    settled.gpu,
                    settled.cpu,
                )
                &&& actions@ == old(self).pending_size_actions(reached_target)
            },
            old(self).window.pending_size is None && old(self).render_size_changed(
                gpu_size_changed,
                viewport.cpu,
            ) ==> {
                &&& *final(self) == old(self).with_rasters(
                    viewport.gpu,
                    viewport.cpu,
                ).reselected(old(self).model.selected)
                &&& actions@ == old(self).reselect_actions(old(self).model.selected)
            },
            old(self).window.pending_size is None && !old(self).render_size_changed(
                gpu_size_changed,
                viewport.cpu,
            ) ==> {
                &&& *final(self) == (DesktopPetView {
                    window: PetWindow {
                        gpu_raster: viewport.gpu,
                        cpu_raster: viewport.cpu,
                        ..old(self).window
                    },
                    ..*old(self)
                })
                &&& actions@ == Seq::<PetAction>::empty()
            },
    {
        let (pending, actions) = self.apply_pending_model_window_size(
            reached_target,
            settled.gpu,
            settled.cpu,
        );
        if pending {
            return actions;
        }
        self.synchronize_render_dimensions(gpu_size_changed, viewport.gpu, viewport.cpu)
    }

    /// Takes note of what is painted in this drawing of the window.
    pub fn track_frame(&mut self) -> (actions: Vec<PetAction>)
        ensures
            *final(self) == (DesktopPetView {
                paint: old(self).paint.with_painted(old(self).painted_image()),
                ..*old(self)
            }),
            actions@ == old(self).paint.paint_actions(
                old(self).painted_image(),
                old(self).window.visible,
            ),
    {
        let image = match self.paint.frame {
            Some(frame) => frame.image,
            None => None,
        };
        let visible = self.window.visible;
        self.paint.track_rendered_image(image, visible)
    }

    /// Returns the frame that a click is held against: the painted one, or, where the
    /// native surface paints, the newest.
    pub fn hit_frame(&self, painted: FrameRef) -> (frame: Option<FrameRef>)
        ensures
            frame == (if painted.image is None {
                self.paint.frame
            } else {
                Some(painted)
            }),
    {
        if painted.image.is_none() {
            self.paint.frame
        } else {
            Some(painted)
        }
    }
}

} // verus!
