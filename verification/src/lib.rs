//! Verified core of a minimal static-file HTTP responder.
//!
//! The library holds the request-servicing pipeline: incremental request-line
//! parsing from a byte buffer, request-path resolution with its cache and
//! directory-index fallback, response serialization, and the double-buffered
//! processor pair whose root directory and cache can be reset and swapped.
//! Connection handling, file opening and the listener loop are left to the
//! surrounding binary, which feeds their outcomes into the state machines
//! defined here.
pub mod handler;
pub mod parse;
pub mod processor;
pub mod resolve;
pub mod response;
pub mod text;
