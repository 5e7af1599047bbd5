//! A typed application cache with per-key expiry, and the vocabulary of
//! background jobs that accompanies it.

pub mod jobs;
pub mod json;
pub mod key;
pub mod laws;
pub mod policy;
pub mod record;
pub mod service;
pub mod store;
pub mod time;
