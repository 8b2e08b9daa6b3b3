//! Request admission and execution core for a single-model text-generation
//! service.
//!
//! One scheduler owns the only usable copy of the model. Arbitrarily many
//! producers enqueue [`request::InferenceRequest`] values; the scheduler
//! drains them one at a time, overlays each request's optional sampling
//! overrides onto the process-wide defaults, picks the starting generation
//! session (fresh, or restored from a validated snapshot), and streams each
//! produced token to the request's own output sink. Delivery is best-effort:
//! a closed sink never stops generation or the scheduler.

pub mod config;
pub mod params;
pub mod request;
pub mod scheduler;
pub mod session;
pub mod sink;
pub mod snapshot;
