//! The feature kinds the system monitors.

pub mod battery;
pub mod cpu_load;
pub mod network;
