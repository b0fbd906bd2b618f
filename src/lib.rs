//! Shift codes resolved to wall-clock time ranges, and the weekend days of a
//! month on which such shifts are scheduled.
pub mod calendar;
pub mod cli;
pub mod code;
pub mod config;
pub mod schedule;
pub mod search;
