//! Streaming technical-analysis indicators: the warm-up and composition
//! schedules that decide, call by call, how each smoothing stage treats its
//! input and which combination of stage values a composite publishes.
pub mod error;
pub mod smoother;
pub mod dema;
pub mod trix;
pub mod label;
pub mod laws;
