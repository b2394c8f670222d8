//! Typed keys for documented iRacing live telemetry variables.
//!
//! Availability still depends on the loaded car and session; use
//! `TelemetryFrame::get_optional` for variables that may not be published.

pub mod session;
pub mod player;
pub mod cars;
pub mod weather;
pub mod chassis;
pub mod pit;
pub mod camera;
pub mod radio;
