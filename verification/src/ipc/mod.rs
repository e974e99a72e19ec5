//! The commands of the capture orchestrator and what they share.

pub mod commands;
pub mod errors;
