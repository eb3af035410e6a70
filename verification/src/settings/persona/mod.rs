//! The page on which personas are written and their memory is kept.

pub mod actions;
pub mod config;
pub mod context;
pub mod editing;
pub mod form;
pub mod laws;
pub mod memory;
pub mod message_promises;
pub mod options;
pub mod page_promises;
pub mod pane;
pub mod persistence;
pub mod promises;
pub mod render;
pub mod selection;
pub mod view;
