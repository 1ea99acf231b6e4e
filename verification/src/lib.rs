//! Score-prediction polls for football matches: the bookkeeping behind a chat
//! bot that posts a poll card per match, collects one locked score prediction
//! per user before kickoff, and awards points once the final score is known.

pub mod text;
pub mod types;
pub mod interactions;
pub mod clock;
pub mod scoring;
pub mod commands;
pub mod laws;
