//! Driver core for a pad-controller surface: decodes the device's binary
//! input reports into semantic events, keeps the light and display state,
//! and encodes that state back into the device's output reports.

pub mod config;
pub mod controls;
pub mod driver;
pub mod font;
pub mod lights;
pub mod screen;
