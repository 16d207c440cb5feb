//! A local gateway library for relaying text-generation requests to a
//! line-delimited streaming JSON backend.
//!
//! The core is the streaming pipeline: framing a raw byte stream into
//! newline-delimited records, extracting the text fragment carried by each
//! record, and concatenating the fragments, in arrival order, into the final
//! answer.  Around it stand the request-building and response-projection
//! rules of the two backend endpoints.

pub mod aggregate;
pub mod catalog;
pub mod fragment;
pub mod framer;
pub mod laws;
pub mod prompt;
pub mod url;
