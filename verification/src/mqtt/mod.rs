//! What arrives over the message bus.

pub mod telemetry;
