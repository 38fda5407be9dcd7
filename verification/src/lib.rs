//! Verified core of a terminal calendar: calendar date and time-of-day
//! arithmetic, half-open time-range resolution for the Year/Month/Week/Day
//! views, event-overlap classification, the selection/anchor model, the
//! event-form session, and the interaction state machine that turns input
//! symbols into state transitions and storage-effect descriptors.
//!
//! Everything here is pure with respect to the outside world: the state
//! machine returns effect descriptors instead of touching storage, and the
//! surrounding binary performs them.

pub mod app;
pub mod config;
pub mod date;
pub mod event;
pub mod form;
pub mod input;
pub mod range;
pub mod timeofday;
