//! Verified core of a collection-manager proxy.
//!
//! The library intercepts calls aimed at a downstream item registry,
//! reconciles caller-supplied funds against a configured mint price,
//! forwards the call with a correlation ticket, and decodes the
//! asynchronous completion payload.  Host plumbing (storage, message
//! delivery, wire serialization) stays outside; the library works on
//! plain modelled values and states exactly what each operation returns.

pub mod codec;
pub mod contract;
pub mod error;
pub mod msg;
pub mod reconcile;
pub mod response;
pub mod state;
