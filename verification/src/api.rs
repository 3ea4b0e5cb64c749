//! The call boundary: checks on the arguments of every operation, and the
//! commands that checked arguments make.
//!
//! Reading the arguments out of the caller's memory is done outside. Each one
//! arrives here as an `Arg`, which says whether anything was passed, whether it
//! could be read, and whether the owner of its type accepted it. An operation
//! checks its arguments in order and reports the first that fails under its
//! own status code; if none fails it returns the command to enqueue.

pub mod args;
pub mod cache;
pub mod did;
pub mod json;
pub mod ledger;
