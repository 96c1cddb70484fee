//! Orchestration rules of a filesystem-triggered build runner: which changes
//! are relevant, when the build's own output asks for another pass, and how
//! the dispatcher moves between waiting, building and settling.
pub mod dispatcher;
pub mod event;
pub mod extension;
pub mod outcome;
pub mod rerun;
pub mod signal;
