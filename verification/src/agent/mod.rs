//! The chat overlay: reply bubble, input bar, voice input and speech output.

pub mod chat;
pub mod configuration;
pub mod display;
pub mod laws;
pub mod message;
pub mod promises;
pub mod reply;
pub mod screenshot;
pub mod view;
pub mod voice;
