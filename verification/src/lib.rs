//! Verified core of the Chiaroscuro iRacing telemetry viewer.
use vstd::prelude::*;

pub mod actions;
pub mod text;
pub mod flags;
pub mod layout;
pub mod dashboard;
pub mod dashboard_layout;
pub mod dashboard_text;
pub mod irsdk;
pub mod i18n;
pub mod setup;
pub mod workspace;
pub mod navigation;
pub mod settings;
pub mod config;
pub mod live_telemetry;
pub mod dashboard_state;
pub mod comparison;
pub mod setup_value;
pub mod setup_corners;
pub mod car_setup_state;
pub mod vehicle;
pub mod session_metadata;
