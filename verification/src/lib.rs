//! Request handling rules of a small JSON-over-HTTP service: a router over
//! three fixed pages and a total mapping from routing failures to error
//! replies. Everything here works on plain values; sockets and encoding are
//! left to the program that embeds the library.

pub mod envelope;
pub mod rejection;
pub mod router;
pub mod service;
pub mod text;
