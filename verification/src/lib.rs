//! Verified core of a desktop dictation tool: hotkey handling, prompt and
//! script construction, transcript history and the decisions taken around
//! recording and pasting.
use vstd::prelude::*;

pub mod api;
pub mod apps;
pub mod bindings;
pub mod eventtap;
pub mod history;
pub mod hotkeys;
pub mod maclayout;
pub mod permissions;
pub mod pipeline;
pub mod prompts;
pub mod registry;
pub mod safety;
pub mod settings;
pub mod status;
pub mod text;

verus! {

} // verus!
