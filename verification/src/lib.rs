//! Release acquisition for rust-analyzer: version probing, staleness
//! decisions, release paging and the install sequence.
//!
//! Nothing here runs a command, talks to the network or touches a file. The
//! functions take what a command, a request or a file operation produced and
//! say what follows from it; doing those things is left to the caller, who
//! is told step by step what is due. Dates are read by the `time` crate.

pub mod commands;
pub mod date;
pub mod io;
pub mod rust_analyzer;
pub mod services;
pub mod text;
