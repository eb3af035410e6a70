//! The pet window: model generations, rendering back ends, input and voice.

pub mod events;
pub mod frame_loop;
pub mod generation;
pub mod gpu_events;
pub mod gpu_lifecycle;
pub mod laws;
pub mod model_promises;
pub mod model_task;
pub mod outfit;
pub mod render;
pub mod shortcut;
pub mod state;
pub mod tracking;
pub mod visibility;
pub mod voice;
pub mod window;
pub mod window_chat;
pub mod window_promises;
