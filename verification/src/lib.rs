//! A small verified library for a file-writing command-line tool.
//!
//! The library holds everything the tool decides or computes: parsing the
//! argument list into an [`args::Args`] configuration, choosing the file
//! contents that a run must leave behind, and building the exact strings the
//! tool prints. The thin unverified shell around it performs the actual file
//! and console I/O.

pub mod args;
pub mod errors;
pub mod writer;
