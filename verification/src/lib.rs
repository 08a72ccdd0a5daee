//! Verified core of a small Windows launcher for the `sing-box` proxy.
use vstd::prelude::*;

pub mod app;
pub mod autostart;
pub mod clock;
pub mod elevation;
pub mod entry;
pub mod log_bus;
pub mod loopback;
pub mod overrides;
pub mod paths;
pub mod persist;
pub mod process;
pub mod settings;
pub mod shell;
pub mod sorting;
pub mod text;
pub mod theme;
pub mod tray;
pub mod ui;
pub mod updater;
pub mod win;

verus! {
} // verus!
