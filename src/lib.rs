//! Deferred personal reminders: resolve a wait from a duration in minutes,
//! then deliver a notification followed by an audio alert.

pub mod schedule;
pub mod config;
pub mod delivery;
pub mod startup;
pub mod reminder;
