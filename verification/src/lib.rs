//! Verified core of a small RPC server: a unary greeting, a single-shot
//! health check, and a paced, bounded, push-style health watch.
//!
//! Everything here is synchronous and free of I/O. Time enters as plain
//! millisecond readings of a monotonic clock, and the work that has to
//! suspend (sleeping until a deadline, waiting for room in the relay channel)
//! is left to the driver, which reports back what happened as an event.

pub mod status;
pub mod throttle;
pub mod producer;
pub mod relay;
pub mod session;
pub mod model;
pub mod service;
