//! A build-pipeline executor for content packages.
//!
//! A profile is a named, ordered list of steps; a step runs a filter (an
//! external program) or another profile. This crate holds every decision of
//! such a run as verified functions on plain values: how a profile is
//! expanded, which command line a filter is started with, where the result is
//! exported to, and which error a failure becomes. Starting programs and
//! touching the file system is left to the caller, which is told what to do
//! and reports back what happened.

pub mod context;
pub mod error;
pub mod execution;
pub mod filter;
pub mod filter_deno;
pub mod filter_go;
pub mod filter_node;
pub mod json;
pub mod paths;
pub mod profile;
pub mod subprocess;
pub mod text;
pub mod theorems;
