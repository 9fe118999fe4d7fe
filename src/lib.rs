//! Run one operation across every repository of a working directory.
//!
//! The library holds the decisions of the tool: which directories are
//! worked on, how the output of `git` is read, how a pull-request draft is
//! rendered and addressed, and how many outcomes fold into one.  Spawning
//! processes, reading the terminal and talking to GitHub are left to the
//! program that links it.

pub mod text;
pub mod error;
pub mod config;
pub mod process;
pub mod git;
pub mod fanout;
pub mod pr;
pub mod github;
pub mod workflow;
pub mod commands;
