//! Core decisions of the WorkBuddy account switcher: daily check-in and the
//! growth-center task runner, over a plain JSON model.

pub mod json;
pub mod text;
pub mod reply;
pub mod variant;
pub mod checkin;
pub mod guard;
pub mod checkin_log;
pub mod growth;
pub mod events;
pub mod progress;
pub mod laws;
