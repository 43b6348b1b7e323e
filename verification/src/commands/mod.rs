//! The commands.

pub mod after;
pub mod aftermath;
pub mod close;
pub mod create;
pub mod furnish;
pub mod keeps_revisions;
pub mod outcomes;
pub mod plan;
pub mod protect;
pub mod stays_open;
pub mod switch;
pub mod sync;
pub mod transfer;
pub mod types;
pub mod verdicts;
