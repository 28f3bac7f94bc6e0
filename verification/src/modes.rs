//! The modes whose rotation handling is exact integer and text logic.
//! (Zoom works on floating-point zoom factors and stays with the caller.)

pub mod appscroll;
pub mod hass_media;
pub mod hyprscroll;
pub mod volume;
