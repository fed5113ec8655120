//! Hand-off of large native byte buffers to a garbage-collected runtime.
//!
//! Buffers live in a [`Registry`] and are named by handles: small non-zero
//! integers that index the registry and are never reused. Each handle carries
//! an ownership state, so a finalizer or inspector that arrives with a stale
//! or unknown handle gets an error instead of touching freed memory.

pub mod registry;
pub mod laws;

pub use registry::{Delivery, HandleError, Ownership, Registration, Registry, GB, SENTINEL};
