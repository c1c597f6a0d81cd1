//! Per-keyboard layout switching: device matching, the per-device capture
//! state machine, the shared layout-switch coordinator, hot-plug decisions and
//! the capture-mode control surface.

pub mod text;
pub mod config;
pub mod matcher;
pub mod mode;
pub mod keys;
pub mod monitor;
pub mod coordinator;
pub mod hotplug;
pub mod virtual_device;
