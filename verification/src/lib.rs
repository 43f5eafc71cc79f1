//! Concurrent vanity-address search core: match policies over encoded
//! address strings, configuration validation, dispatcher fan-out, worker
//! attempt loops and shared throughput telemetry.
pub mod config;
pub mod dispatch;
pub mod policy;
pub mod rate;
pub mod worker;
