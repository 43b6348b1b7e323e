//! Shell integration.

pub mod checks;
pub mod detect;
pub mod env;
pub mod install;
pub mod lines;
pub mod markers;
pub mod read_only;
pub mod scan;
pub mod scripts;
pub mod status;
pub mod write;
