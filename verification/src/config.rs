//! The daemon's settings and their defaults (every section of the
//! configuration file may be left out, and then takes these values).

use vstd::prelude::*;

verus! {

/// The `[general]` section.
#[derive(Debug, Clone)]
pub struct General {
    /// How long the overlay stays visible, in milliseconds.
    pub overlay_timeout_ms: u64,
    /// The modes that a click cycles through, by name, in order.
    pub mode_order: Vec<String>,
}

/// The `[hyprscroll]` section.
#[derive(Debug, Clone, Copy)]
pub struct HyprScroll {
    /// 0 (or less) moves whole columns; above 0, pixels moved per tick.
    pub pixels_per_tick: i32,
}

/// The `[volume]` section.
#[derive(Debug, Clone, Copy)]
pub struct Volume {
    /// Volume change per tick, in percent.
    pub step_percent: u32,
}

/// The `[appscroll]` section.
#[derive(Debug, Clone, Copy)]
pub struct AppScroll {
    /// Scroll notches per tick.
    pub speed_multiplier: i32,
}

/// The names of the modes in the default cycle order.
pub open spec fn default_mode_names() -> Seq<Seq<char>> {
    seq!["volume"@, "zoom"@, "appscroll"@, "hyprscroll"@]
}

/// The characters of each name in a list of strings.
pub open spec fn names_view(v: Seq<String>) -> Seq<Seq<char>> {
    v.map_values(|s: String| s@)
}

impl Default for General {
    /// 1500 ms of overlay, and the cycle volume, zoom, appscroll, hyprscroll.
    fn default() -> (g: Self)
        ensures
            g.overlay_timeout_ms == 1500,
            names_view(g.mode_order@) == default_mode_names(),
    {
        let mut mode_order: Vec<String> = Vec::new();
        mode_order.push(String::from_str("volume"));
        mode_order.push(String::from_str("zoom"));
        mode_order.push(String::from_str("appscroll"));
        mode_order.push(String::from_str("hyprscroll"));
        assert(names_view(mode_order@) =~= default_mode_names());
        General { overlay_timeout_ms: 1500, mode_order }
    }
}

impl Default for HyprScroll {
    /// Column mode.
    fn default() -> (h: Self)
        ensures
            h.pixels_per_tick == 0,
    {
        HyprScroll { pixels_per_tick: 0 }
    }
}

impl Default for Volume {
    /// 2 % per tick.
    fn default() -> (v: Self)
        ensures
            v.step_percent == 2,
    {
        Volume { step_percent: 2 }
    }
}

impl Default for AppScroll {
    /// One notch per tick.
    fn default() -> (a: Self)
        ensures
            a.speed_multiplier == 1,
    {
        AppScroll { speed_multiplier: 1 }
    }
}

} // verus!
