//! A pausable, resumable countdown timer driven by a background interval
//! dispatcher, together with a deterministic model of its behaviour, and the
//! models behind a handful of small form widgets: a counter, a number field,
//! a flight booking date, a store of people, and an undo history.

pub mod clock;
pub mod decide;
pub mod model;
pub mod signal;
pub mod dispatcher;
pub mod timer;
pub mod crud;
pub mod number_text;
pub mod flight;
pub mod history;
pub mod counter;
