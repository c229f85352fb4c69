//! Verified core of the MiControl hardware layer.
use vstd::prelude::*;

pub mod errors;
pub mod hid_path;
pub mod hotkeys;
pub mod iot_events;
pub mod iot_watchdog;
pub mod iotservice;
pub mod json;
pub mod kde_connect;
pub mod localsend;
pub mod nfc;
pub mod os_turbo;
pub mod osd;
pub mod performance;
pub mod phone_link;
pub mod power_listener;
pub mod scenario_rules;
pub mod scrcpy_bridge;
pub mod screen_cast;
pub mod security_scan;
pub mod startup;
pub mod syncthing;
pub mod taskmgr;
pub mod sys_opt;
pub mod text;
pub mod touchpad;
pub mod touchpad_settings;

verus! {
} // verus!
