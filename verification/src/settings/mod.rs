//! The settings pages: language model providers and personas.

pub mod llm;
pub mod persona;
pub mod promises;
pub mod provider;
