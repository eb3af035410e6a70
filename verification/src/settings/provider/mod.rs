//! The page on which models are set up.

pub mod options;
pub mod form;
pub mod view;
pub mod selection;
pub mod persistence;
pub mod promises;
pub mod render;
