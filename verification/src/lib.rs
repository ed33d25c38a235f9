//! Adaptive-trigger feedback for Forza Horizon telemetry on the DualSense
//! controller: packet decoding, trigger effect encoding, the per-tick
//! effect chain and the HID output report layout.

pub mod controller;
pub mod gui;
pub mod hid;
pub mod hid_task;
pub mod logs;
pub mod settings;
pub mod state;
pub mod telemetry;
pub mod triggers;
pub mod update;
