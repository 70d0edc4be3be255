//! Error-context decoration for path, process and environment operations.
//!
//! Every failure handed back carries context layers naming the resource involved.
//! The layers are modeled as `chain_of(e)`, outermost first.
use vstd::prelude::*;

pub mod chain;
pub mod describe;
pub mod annotate;
pub mod path;
pub mod readdir;
pub mod env;
pub mod process;
pub mod osstr;

pub use osstr::OsStrAnyhow;
