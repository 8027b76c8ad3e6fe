//! Verified core of a keyboard-modal command layer for a minimal browser:
//! key tokens and sequences, per-mode binding tables with a prefix-antichain
//! invariant, a stateful sequence matcher with an idle timeout, a modal input
//! engine, a navigation history stack, and the action/effect dispatch model.

pub mod action;
pub mod agent;
pub mod app;
pub mod args;
pub mod cookie;
pub mod engine;
pub mod hint;
pub mod history;
pub mod key;
pub mod matcher;
pub mod search;
pub mod state;
pub mod statusbar;
pub mod text;
pub mod url;
