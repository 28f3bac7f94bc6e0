//! Decision logic of a Surface Dial daemon for Hyprland: mode cycling,
//! rotation filtering, Hyprland command construction and overlay timing.

pub mod text;
pub mod hypr_ipc;
pub mod config;
pub mod dial;
pub mod modes;
pub mod mode;
pub mod overlay;
