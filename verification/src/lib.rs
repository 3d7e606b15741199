//! Fan and performance control for TUXEDO Uniwill laptops.

pub mod config;
pub mod control;
pub mod curve;
pub mod device;
pub mod editor;
pub mod gui;
pub mod ioctl;
pub mod number;
pub mod perf;
pub mod prober;
pub mod profiles;
pub mod scale;
pub mod server;
pub mod shared;
pub mod sim;
pub mod startup;
pub mod sysfs;
pub mod text;
pub mod tui;
