//! Loopsmith: the verified core of an auditable review, repair and verify loop.

pub mod hooks;
pub mod text;
pub mod util;
pub mod verify;
pub mod config;
pub mod codex_exec;
pub mod record;
pub mod run_state;
pub mod runner;
pub mod workspace;
pub mod report;
