//! Verified core of a Steam player-summary viewer: decoding the wire model
//! into typed domain values, humanizing an elapsed duration, and rendering
//! the final text summary.

pub mod config;
pub mod humanize;
pub mod model;
pub mod present;
