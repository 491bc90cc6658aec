//! A typed client library for a remote text-generation service: validated
//! request configurations for completion and chat calls, the records that the
//! service answers with, and the rules by which an HTTP reply becomes either a
//! typed value or one uniform error.
pub mod api;
pub mod chat;
pub mod completion;
pub mod error;
pub mod records;
pub mod sampling;
pub mod transport;

pub use error::{Error, TransportFailure};
