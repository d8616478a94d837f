//! A typed client library for a disposable-email web service.
//!
//! Each operation of the service maps to a fixed URL, one HTTP request and a
//! JSON response shape.  This crate holds the verified heart of the client:
//! address validation at construction, URL building for every endpoint, the
//! local short-circuits for empty resource ids, and the classification of
//! every response shape into either its payload or a domain error.  The
//! network transport itself lives outside the library.

pub mod client;
pub mod digits;
pub mod types;

pub use client::Client;
pub use types::Email;
pub use types::errors::EmailsError;
pub use types::health::{ServerHealth, ServerHealthStatus};
