//! The logic of a terminal coding-agent workbench: panes and navigation,
//! the command palette, plan review, providers, configuration, context
//! compaction, diagram and diff parsing, and the headless JSON-RPC server.
use vstd::prelude::*;

pub mod agent;
pub mod cli;
pub mod config;
pub mod env;
pub mod headless;
pub mod keybindings;
pub mod session;
pub mod shutdown;
pub mod text;
pub mod ts_bridge;
pub mod tui;
pub mod workbench;

verus! {

} // verus!
