//! Core of a graphical front end for an interactive command-line debugger.
//!
//! The crate owns the rules of one debugger session: how commands are framed
//! and queued for the child, how the child's output is cut into lines and
//! handed to the caller, how signals are addressed, and in which order a
//! session is taken down. The program around it performs the process and
//! stream operations that these rules ask for.

use vstd::prelude::*;

pub mod channel;
pub mod cli;
pub mod gdb;
pub mod guarantees;
pub mod session;
pub mod signal;
pub mod tab_viewer;
pub mod tabs;
pub mod wire;

verus! {

/// Name of the application.
pub const NAME: &'static str = "gdbr";

} // verus!
