//! An editor-triggered test runner: clients write trigger descriptors into a
//! named pipe; the server matches them against configured actions and runs
//! the resulting shell commands.
//!
//! The crate holds the routing and execution engine: parsing trigger
//! descriptors, matching them against the ordered action table, computing
//! variables (scanning file content where configured), substituting them
//! into command templates, the repeat slot, and the run loop's decision
//! core. The surrounding binary performs the I/O these decisions ask for:
//! the pipe, the config file on disk, child processes, and the terminal.

pub mod args;
pub mod config;
pub mod config_file;
pub mod dispatcher;
pub mod errors;
pub mod fifo;
pub mod globs;
pub mod regexes;
pub mod resolve;
pub mod scanner;
pub mod subshell;
pub mod template;
pub mod text;
pub mod trigger;
