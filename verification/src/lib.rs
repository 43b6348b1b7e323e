//! Verified core of `ji`, a manager of Jujutsu workspaces.

pub mod action_history;
pub mod commands;
pub mod completion;
pub mod config;
pub mod content;
pub mod effects;
pub mod finder_xattrs;
pub mod graph;
pub mod hooks;
pub mod infallible;
pub mod jj_logs;
pub mod jj_parse;
pub mod jj_run;
pub mod jj_utils;
pub mod jujutsu;
pub mod listing;
pub mod operations;
pub mod order;
pub mod paths;
pub mod questions;
pub mod replay;
pub mod revisions;
pub mod run;
pub mod search;
pub mod seqs;
pub mod subprocess_log;
pub mod tape;
pub mod shell;
pub mod stale;
pub mod templates;
pub mod text;
pub mod text_map;
pub mod text_utils;
pub mod tidying;
pub mod workspaces;
