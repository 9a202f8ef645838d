//! The decision core of a small chat bot that answers `!ping`.
//!
//! Nothing here performs I/O. The caller owns the gateway connection, the HTTP
//! client and the cache, and asks this crate what to do next.

pub mod concurrent;
pub mod dispatcher;
pub mod handler;
pub mod model;
pub mod text;
pub mod trace;
