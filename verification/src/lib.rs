//! PipeWire audio device facade with a verified synchronous-over-asynchronous
//! metadata bridge.
//!
//! The heart of the crate is the bridge that answers "what are the properties
//! of one server-side node?" over an event-driven protocol: a short-lived
//! session issues a sync barrier, watches registry announcements, and stops as
//! soon as the barrier is acknowledged. The decision logic of that session is
//! verified here; driving a live server connection is left to an unverified
//! adapter around this crate.

pub mod device;
pub mod error;
pub mod properties;
pub mod session;
