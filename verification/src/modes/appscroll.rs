//! Scrolling the focused application: each tick becomes a wheel event and
//! its high-resolution twin, emitted on a virtual scroll device.

use vstd::prelude::*;
use crate::dial::sign;

verus! {

/// Relative axis of the scroll wheel (`REL_WHEEL`).
pub const REL_WHEEL: u16 = 8;

/// Relative axis of the high-resolution scroll wheel (`REL_WHEEL_HI_RES`).
pub const REL_WHEEL_HI_RES: u16 = 11;

/// High-resolution units in one wheel notch.
pub const HI_RES_PER_NOTCH: i32 = 120;

/// One relative-axis event to emit.
#[derive(Debug, Clone, Copy, PartialEq, Eq, Structural)]
pub struct WheelEvent {
    /// The relative axis.
    pub axis: u16,
    /// The motion along it.
    pub value: i32,
}

/// The application-scroll mode.
pub struct AppScrollMode {
    /// Scroll notches per tick.
    pub speed_multiplier: i32,
}

/// The notches of one tick: the dial's direction (its magnitude is ignored)
/// times the speed.
pub open spec fn notches(speed_multiplier: i32, delta: i32) -> int {
    sign(delta as int) * (speed_multiplier as int)
}

/// Whether a tick by `delta` can be computed without overflow.
pub open spec fn scroll_fits(speed_multiplier: i32, delta: i32) -> bool {
    i32::MIN <= notches(speed_multiplier, delta) * HI_RES_PER_NOTCH <= i32::MAX
}

/// The name the overlay shows for the application-scroll mode.
pub open spec fn mode_name() -> Seq<char> {
    "App Scroll"@
}

/// The icon the overlay shows for the application-scroll mode.
pub open spec fn mode_icon() -> Seq<char> {
    "\u{f0dc}"@
}

/// The overlay's style class for the application-scroll mode.
pub open spec fn mode_css_class() -> Seq<char> {
    "mode-appscroll"@
}

impl AppScrollMode {
    /// An application-scroll mode with the given speed.
    pub fn new(speed_multiplier: i32) -> (m: Self)
        ensures
            m.speed_multiplier == speed_multiplier,
    {
        AppScrollMode { speed_multiplier }
    }

    /// Whether a tick by `delta` can be computed without overflow.
    pub fn fits(&self, delta: i32) -> (ok: bool)
        ensures
            ok == scroll_fits(self.speed_multiplier, delta),
    {
        let n: i64 = if delta > 0 {
            self.speed_multiplier as i64
        } else if delta < 0 {
            -(self.speed_multiplier as i64)
        } else {
            0
        };
        n * 120 >= i32::MIN as i64 && n * 120 <= i32::MAX as i64
    }

    /// A tick by `delta`: a wheel event by the notches, then a
    /// high-resolution wheel event by 120 units per notch.
    pub fn on_rotate(&self, delta: i32) -> (events: Vec<WheelEvent>)
        requires
            scroll_fits(self.speed_multiplier, delta),
        ensures
            events@ == seq![
                WheelEvent { axis: REL_WHEEL, value: notches(self.speed_multiplier, delta) as i32 },
                WheelEvent {
                    axis: REL_WHEEL_HI_RES,
                    value: (notches(self.speed_multiplier, delta) * HI_RES_PER_NOTCH) as i32,
                },
            ],
    {
        let s: i32 = if delta > 0 {
            1
        } else if delta < 0 {
            -1
        } else {
            0
        };
        assert(-i32::MAX <= notches(self.speed_multiplier, delta) * HI_RES_PER_NOTCH <= i32::MAX
            ==> i32::MIN <= notches(self.speed_multiplier, delta) <= i32::MAX);
        let direction: i32 = s * self.speed_multiplier;
        let hires_value: i32 = direction * HI_RES_PER_NOTCH;
        let mut events: Vec<WheelEvent> = Vec::new();
        events.push(WheelEvent { axis: REL_WHEEL, value: direction });
        events.push(WheelEvent { axis: REL_WHEEL_HI_RES, value: hires_value });
        assert(events@ =~= seq![
            WheelEvent { axis: REL_WHEEL, value: notches(self.speed_multiplier, delta) as i32 },
            WheelEvent {
                axis: REL_WHEEL_HI_RES,
                value: (notches(self.speed_multiplier, delta) * HI_RES_PER_NOTCH) as i32,
            },
        ]);
        events
    }

    /// The name shown in the overlay.
    pub fn name(&self) -> (n: &'static str)
        ensures
            n@ == mode_name(),
    {
        "App Scroll"
    }

    /// The icon shown in the overlay (up-down arrows).
    pub fn icon(&self) -> (i: &'static str)
        ensures
            i@ == mode_icon(),
    {
        "\u{f0dc}"
    }

    /// The overlay's style class for this mode.
    pub fn css_class(&self) -> (c: &'static str)
        ensures
            c@ == mode_css_class(),
    {
        "mode-appscroll"
    }
}

} // verus!
