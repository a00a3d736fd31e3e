//! A dial that shows a counter advanced by a repeating timer, and the
//! greeting command of the shell that hosts it.
//!
//! The stopwatch decides; its host owns the one timer and does what each
//! decision asks of it.

pub mod greeting;
pub mod stopwatch;
pub mod theme;
