//! A fixed-window rate limiter that admits at most a configured number of
//! operations per time window.
pub mod time;
pub mod throttle;
pub mod shared;
pub mod laws;
