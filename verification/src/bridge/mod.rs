//! The bridge to the embedded foreign runtime and, through it, to the backend
//! service.
//!
//! The bridge never performs the foreign call or the network transfer itself.
//! It decides what is sent, and what the host makes of whatever came back; the
//! caller carries the request across and reports the outcome.

pub mod json;
pub mod session;

pub use session::{BackendReply, BackendRequest, ForeignOutcome, Invocation, PythonBridge};
