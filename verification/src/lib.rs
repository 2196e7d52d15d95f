//! Configuration, scheduling and bookkeeping logic of a restic backup manager.

pub mod backup;
pub mod cli;
pub mod cli_log;
pub mod config;
pub mod errors;
pub mod exclude;
pub mod json;
pub mod notifications;
pub mod names;
pub mod report;
pub mod repository;
pub mod restic;
pub mod restore;
pub mod scheduler;
pub mod secrets;
pub mod snapshot;
pub mod text;
pub mod tui;
