//! Decides which security advisories can affect a compiled binary, given the
//! binary's container format, and filters a vulnerability report accordingly.
//!
//! - [`binary_format`]: the container formats that a binary can have.
//! - [`platform`]: operating system identifiers, and sets of them.
//! - [`registry`]: what the platform registry lists, and the knowledge base
//!   that remembers which systems are Apple's.
//! - [`report`]: the report and the advisory data in it.
//! - [`filter`]: the test for one advisory, and the filter for a report.
//! - [`laws`]: what holds of the filter on every report.
//! - [`error`]: the error type.

pub mod binary_format;
pub mod error;
pub mod filter;
pub mod laws;
pub mod platform;
pub mod registry;
pub mod report;
