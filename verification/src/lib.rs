//! Replaying a scripted list of mouse and keyboard actions.
//!
//! The library decides what a run does: which effects each action has, in which order,
//! where relative coordinates end up and what text is typed. Performing the effects on a
//! real pointer and keyboard is left to the caller.

pub mod config;
pub mod content;
pub mod date;
pub mod decimal;
pub mod detect;
pub mod effect;
pub mod execute;
pub mod report;
pub mod snippet;
pub mod step;
pub mod utils;
