//! The core of a terminal dashboard that supervises a small, fixed set of
//! long-running child processes.
//!
//! The crate holds the rules of the dashboard as state machines over plain
//! values: which configurations are accepted, how a process session reacts to
//! start and stop commands, how a line of output is prepared for display, and
//! how the panes react to output and to key presses. Spawning, signalling,
//! channels and terminal drawing are left to the program around it, which
//! performs the actions that these functions return.

pub mod config;
pub mod layout;
pub mod process;
pub mod reader;
pub mod tui;
