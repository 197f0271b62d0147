//! Verified core of pyanPM, a manager for Roblox Studio plugins.
//!
//! The library holds the rules of the tool: plugin-name and source validation,
//! the manifest and lockfile models, git checkout planning, the doctor report,
//! the diff/update/remove decisions and the records of each operation.  File
//! and process I/O is performed by the program that drives it.
use vstd::prelude::*;

pub mod text;
pub mod error;
pub mod paths;
pub mod order;
pub mod plugin;
pub mod config;
pub mod checksum;
pub mod ids;
pub mod git;
pub mod operations;
pub mod source;
pub mod audit;
pub mod activity;
pub mod cache;
pub mod install;
pub mod command;
pub mod diff;
pub mod update;
pub mod installation;
pub mod cli;
pub mod desktop;
pub mod report;

verus! {

} // verus!
