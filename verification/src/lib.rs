//! A safe, verified core for a thin HTTP client built on a platform
//! networking library.
//!
//! The crate models the three things such a client decides for itself:
//! how text is turned into the null-terminated UTF-16 buffers the platform
//! expects, how a session-opening and a fetch call are configured, and how
//! the response body is streamed byte by byte out of fixed-size chunks.
//! The platform calls themselves (opening handles, reading chunks, closing
//! handles) are performed by the embedding program, which feeds their
//! results back into the types defined here.

pub mod wide_string;
pub mod wininet;
