//! A throughput benchmark for echo servers: the per-connection worker loop,
//! the shared stop signal, the driver that runs a pass and sums the counts,
//! and the resolution of the run's settings.
pub mod worker;
pub mod stop;
pub mod driver;
pub mod config;
pub mod report;
pub mod usage;
