//! Decision core of a desktop companion: a Live2D pet window, the chat overlay
//! that speaks for it, and the settings pages that configure both.
//!
//! Every view is a plain state value. Its methods take what the surroundings
//! report (a finished task, a click, a settings change), move the state, and
//! return what the surroundings have to do next. Drawing, timers, channels and
//! windows live outside.

use vstd::prelude::*;

pub mod agent;
pub mod desktop_pet;
pub mod fresh_id;
pub mod id_set;
pub mod number_text;
pub mod path;
pub mod promises;
pub mod revision;
pub mod search;
pub mod settings;
pub mod text;

verus! {

} // verus!
