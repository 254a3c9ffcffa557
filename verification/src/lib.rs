//! A verified client library for a transformation-processing HTTP API.
//!
//! The library owns everything that can be decided from plain values:
//! routing an identifier to the right endpoint, assembling request URLs,
//! gathering reference identifiers from arguments and file contents,
//! classifying HTTP responses, and rendering output lines. The network,
//! the process environment and the file system stay with the caller, who
//! hands the library statuses, bodies and file contents as plain strings.

pub mod cli;
pub mod client;
pub mod config;
pub mod errors;
pub mod json;
pub mod laws;
pub mod refs;
pub mod strutil;
pub mod urls;
