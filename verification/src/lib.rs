//! Declarative workspace manager for a terminal-multiplexing host.
//!
//! A configuration names workspaces, each a list of windows with a working
//! directory and an optional startup command. The orchestrator reconciles
//! that description against the set of live sessions: it lists, attaches,
//! or plans the ordered host commands that materialize a workspace.

pub mod config;
pub mod host;
pub mod orchestrator;
