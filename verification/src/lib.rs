//! Core state machine of a terminal task tracker: task and profile model,
//! an in-memory store, navigation cursors, a form editor, a focus timer,
//! and the input router that ties them together.

pub mod app;
pub mod dates;
pub mod form;
pub mod glyphs;
pub mod nav;
pub mod router;
pub mod models;
pub mod store;
pub mod sys;
pub mod theme;
pub mod text;
pub mod timer;

use vstd::prelude::*;

verus! {

} // verus!
