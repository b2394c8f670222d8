//! In-process access to the variables published by the iRacing SDK: typed
//! telemetry frames, typed keys and the binary IBT header layout.

pub mod client;
pub mod frame;
pub mod ibt;
pub mod key;
pub mod sample;
pub mod variables;
