//! Navigating Hyprland's scrolling layout: each tick moves by a column (or
//! by a number of pixels), at most one move per 350 ms so that Hyprland's
//! scroll animation can finish.

use vstd::prelude::*;
use crate::text::{push_signed_decimal, signed_decimal};

verus! {

/// The shortest time between two layout moves, in nanoseconds (350 ms).
pub const THROTTLE_NS: u64 = 350_000_000;

/// The scrolling-layout mode.
#[derive(Debug, Clone, Copy)]
pub struct HyprScrollMode {
    /// 0 (or less): move by whole columns; above 0: pixels per tick.
    pub pixels_per_tick: i32,
    /// When the last move was sent (nanoseconds on the daemon's monotonic
    /// clock), if one was.
    pub last_dispatch: Option<u64>,
}

/// The time from `earlier` to `now`, 0 when `now` is not later (as
/// `Instant::duration_since` saturates).
pub open spec fn elapsed(earlier: u64, now: u64) -> int {
    if now >= earlier {
        now - earlier
    } else {
        0
    }
}

/// Whether a tick at `now` comes too soon after the last move.
pub open spec fn throttled(last: Option<u64>, now: u64) -> bool {
    last matches Some(t) && elapsed(t, now) < THROTTLE_NS
}

/// The time of the last move after a tick at `now`: the tick's own time
/// when it sends a move, the earlier one when it is throttled.
pub open spec fn last_after(last: Option<u64>, now: u64) -> Option<u64> {
    if throttled(last, now) {
        last
    } else {
        Some(now)
    }
}

/// The time of the last move after ticks at `times`, one after the other,
/// starting from `last`.
pub open spec fn last_after_all(last: Option<u64>, times: Seq<u64>) -> Option<u64>
    decreases times.len(),
{
    if times.len() == 0 {
        last
    } else {
        last_after(last_after_all(last, times.drop_last()), times.last())
    }
}

/// Whether, in a fresh mode ticked at `times`, the tick at `times[i]` sends
/// a move.
pub open spec fn sends_move(times: Seq<u64>, i: int) -> bool {
    !throttled(last_after_all(None, times.take(i)), times[i])
}

/// The pixel offset of one tick in pixel mode (the layout moves against the
/// dial's direction).
pub open spec fn pixel_offset(pixels_per_tick: i32, delta: i32) -> int {
    -(delta as int) * (pixels_per_tick as int)
}

/// Whether a tick by `delta` can be computed without overflow.
pub open spec fn offset_fits(pixels_per_tick: i32, delta: i32) -> bool {
    pixels_per_tick > 0 ==> (delta != i32::MIN && i32::MIN <= pixel_offset(pixels_per_tick, delta)
        <= i32::MAX)
}

/// The `layoutmsg` argument for one tick: in column mode `move -col` for a
/// positive delta and `move +col` otherwise; in pixel mode `move` and the
/// offset, with a `+` before a positive one.
pub open spec fn layout_move(pixels_per_tick: i32, delta: i32) -> Seq<char> {
    if pixels_per_tick <= 0 {
        if delta > 0 {
            "move -col"@
        } else {
            "move +col"@
        }
    } else {
        let px = pixel_offset(pixels_per_tick, delta);
        "move "@ + (if px > 0 {
            "+"@
        } else {
            ""@
        }) + signed_decimal(px)
    }
}

/// The name the overlay shows for the scrolling-layout mode.
pub open spec fn mode_name() -> Seq<char> {
    "Scroll Layout"@
}

/// The icon the overlay shows for the scrolling-layout mode.
pub open spec fn mode_icon() -> Seq<char> {
    "\u{f07e}"@
}

/// The overlay's style class for the scrolling-layout mode.
pub open spec fn mode_css_class() -> Seq<char> {
    "mode-hyprscroll"@
}

impl HyprScrollMode {
    /// A mode that has not moved yet.
    pub fn new(pixels_per_tick: i32) -> (m: Self)
        ensures
            m.pixels_per_tick == pixels_per_tick,
            m.last_dispatch is None,
    {
        HyprScrollMode { pixels_per_tick, last_dispatch: None }
    }

    /// A tick by `delta` at time `now_ns`: `None` while throttled (nothing
    /// changes); otherwise the `layoutmsg` argument to send, and `now_ns`
    /// becomes the time of the last move.
    pub fn on_rotate(&mut self, delta: i32, now_ns: u64) -> (msg: Option<String>)
        requires
            !throttled(old(self).last_dispatch, now_ns) ==> offset_fits(
                old(self).pixels_per_tick,
                delta,
            ),
        ensures
            final(self).pixels_per_tick == old(self).pixels_per_tick,
            final(self).last_dispatch == last_after(old(self).last_dispatch, now_ns),
            (msg is Some) == !throttled(old(self).last_dispatch, now_ns),
            throttled(old(self).last_dispatch, now_ns) ==> msg is None && final(self).last_dispatch
                == old(self).last_dispatch,
            !throttled(old(self).last_dispatch, now_ns) ==> (msg matches Some(m) && m@
                == layout_move(old(self).pixels_per_tick, delta)) && final(self).last_dispatch
                == Some(now_ns),
    {
        if let Some(last) = self.last_dispatch {
            let since: u64 = if now_ns >= last {
                now_ns - last
            } else {
                0
            };
            if since < THROTTLE_NS {
                return None;
            }
        }
        self.last_dispatch = Some(now_ns);
        if self.pixels_per_tick <= 0 {
            if delta > 0 {
                Some(String::from_str("move -col"))
            } else {
                Some(String::from_str("move +col"))
            }
        } else {
            let pixels: i32 = -delta * self.pixels_per_tick;
            let mut args = String::from_str("move ");
            if pixels > 0 {
                args.append("+");
            } else {
                args.append("");
            }
            push_signed_decimal(&mut args, pixels);
            Some(args)
        }
    }

    /// The name shown in the overlay.
    pub fn name(&self) -> (n: &'static str)
        ensures
            n@ == mode_name(),
    {
        "Scroll Layout"
    }

    /// The icon shown in the overlay (a left-right arrow).
    pub fn icon(&self) -> (i: &'static str)
        ensures
            i@ == mode_icon(),
    {
        "\u{f07e}"
    }

    /// The overlay's style class for this mode.
    pub fn css_class(&self) -> (c: &'static str)
        ensures
            c@ == mode_css_class(),
    {
        "mode-hyprscroll"
    }
}

/// Moves are spaced: once a move is sent at `t`, no tick at a time from `t`
/// to `t` + 350 ms sends another.
pub proof fn moves_are_spaced(m: HyprScrollMode, t: u64, now: u64)
    requires
        m.last_dispatch == Some(t),
        t <= now,
        now - t < THROTTLE_NS,
    ensures
        throttled(m.last_dispatch, now),
{
}

/// A tick 350 ms or more after the last move (or when none was sent) is
/// never throttled.
pub proof fn late_ticks_pass(last: Option<u64>, now: u64)
    requires
        last matches Some(t) ==> t <= now && now - t >= THROTTLE_NS,
    ensures
        !throttled(last, now),
{
}

proof fn lemma_last_move_after(times: Seq<u64>, i: int, k: int)
    requires
        forall|a: int, b: int| 0 <= a <= b < times.len() ==> times[a] <= times[b],
        0 <= i < k <= times.len(),
        sends_move(times, i),
    ensures
        last_after_all(None, times.take(k)) matches Some(t) && times[i] <= t,
    decreases k - i,
{
    let p = times.take(k);
    assert(p.drop_last() =~= times.take(k - 1));
    assert(p.last() == times[k - 1]);
    if k > i + 1 {
        lemma_last_move_after(times, i, k - 1);
    }
}

/// Over any run of ticks at non-decreasing times on a fresh mode, the first
/// tick sends a move, and any two ticks that send moves are at least 350 ms
/// apart.
pub proof fn sent_moves_are_spaced(times: Seq<u64>, i: int, j: int)
    requires
        forall|a: int, b: int| 0 <= a <= b < times.len() ==> times[a] <= times[b],
        0 <= i < j < times.len(),
        sends_move(times, i),
        sends_move(times, j),
    ensures
        times[j] - times[i] >= THROTTLE_NS,
        sends_move(times, 0),
{
    lemma_last_move_after(times, i, j);
    assert(times.take(0) =~= Seq::<u64>::empty());
}

} // verus!
