//! Traffic-shaping proxy engine: classification of inbound requests, the
//! per-chunk shaping policy, and the shared configuration and statistics
//! records, all free of I/O.

pub mod classify;
pub mod config;
pub mod control;
pub mod number;
pub mod pipe;
pub mod session;
pub mod shaping;
pub mod stats;
pub mod text;
