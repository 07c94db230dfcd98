//! A smart-HTTP transport for a version-control engine: maps each transport
//! action to one HTTP exchange, builds that exchange's request, validates its
//! response and serves the response body as a byte stream.

pub mod action;
pub mod error;
pub mod exchange;
pub mod stream;
pub mod session;
