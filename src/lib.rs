//! Verified core of a webhook update listener: the stop latch, the closable
//! update channel, the secret-token check, the per-request ingestion state
//! machine that feeds an ordered update queue, and the lifecycle decisions
//! around remote registration.

pub mod channel;
pub mod json;
pub mod lifecycle;
pub mod secret;
pub mod status;
pub mod stop;
pub mod webhook;
