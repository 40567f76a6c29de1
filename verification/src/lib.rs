//! Verified decision logic of a thermal control engine for dual-socket
//! workstations: night windows, alert rules, fan commands and telemetry parsing.

pub mod config;
pub mod control;
pub mod control_loop;
pub mod status;
pub mod dbus;
pub mod telemetry;
pub mod clock;
pub mod text;
pub mod sysfs;
pub mod notify;
pub mod ml_hazard;
