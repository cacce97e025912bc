//! Health monitoring core: probe-result classification, a per-service check
//! scheduler, and a drop-oldest broadcast bus that fans results out to any
//! number of subscribers.

pub mod bus;
pub mod checker;
pub mod config;
pub mod event;
pub mod laws;
pub mod status;
pub mod stream;
pub mod text;
