//! Verified client-side logic for a remote document-compilation service.
//!
//! The library holds everything that can be decided without touching the
//! network: duration formatting, download-reference normalization, output
//! file naming, MIME mapping, envelope decoding, and the poll-loop state
//! machine.  An unverified front end performs the HTTP calls and hands the
//! decoded replies to these functions as plain values.

pub mod duration;
pub mod envelope;
pub mod errors;
pub mod naming;
pub mod poll;
pub mod status;
pub mod strutil;
pub mod url;
