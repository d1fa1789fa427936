//! A control-and-telemetry core for a simulated energy fleet whose behaviour
//! comes from a configuration script: typed extraction of the script's
//! records, per-generation stream descriptors, a drift-free streaming
//! cadence, and a safety-timeout interlock for battery inverters.

pub mod bridge;
pub mod config;
pub mod interlock;
pub mod model;
pub mod scheduler;
pub mod server;
pub mod telemetry;
pub mod value;
