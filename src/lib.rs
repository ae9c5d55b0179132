//! Verified core of a small grow-box controller: relay lines with active-low
//! switching, sensor conversions in fixed point, a single-wire humidity and
//! temperature frame decoder, watering history with its rate limiter, and the
//! per-cycle policies of the control loops.
pub mod cli;
mod clock;
pub mod config;
pub mod data_logging;
pub mod dht11;
pub mod error;
pub mod history;
pub mod imaging;
pub mod light;
pub mod relay;
pub mod sensors;
pub mod state;
