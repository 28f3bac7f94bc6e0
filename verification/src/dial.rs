//! The Surface Dial as an input device: which device nodes are the dial,
//! which raw input events mean a click or a rotation, and the accumulator
//! that turns a burst of jittery rotation events into one direction.

use vstd::prelude::*;
use crate::text::{chars_of, same_text};

verus! {

/// Input event type of keys and buttons (`EV_KEY`).
pub const EV_KEY: u16 = 1;

/// Input event type of relative axes (`EV_REL`).
pub const EV_REL: u16 = 2;

/// The dial's rotation axis (`REL_DIAL`).
pub const REL_DIAL: u16 = 7;

/// The dial's button (`BTN_0`).
pub const BTN_0: u16 = 256;

/// What the dial reports.
#[derive(Debug, Clone, Copy, PartialEq, Eq, Structural)]
pub enum DialEvent {
    /// The button was pressed.
    Click,
    /// The dial turned by the given amount (its sign is the direction).
    Rotate(i32),
    /// The dial appeared.
    Connected,
    /// Reading the dial failed; it is gone until it reappears.
    Disconnected,
}

/// The dial event that a raw input event stands for: any `REL_DIAL` motion
/// is a rotation by its value, a press (value 1) of `BTN_0` is a click, and
/// everything else (releases, other axes and keys, sync events) is nothing.
pub open spec fn dial_event_of(ev_type: u16, code: u16, value: i32) -> Option<DialEvent> {
    if ev_type == EV_REL && code == REL_DIAL {
        Some(DialEvent::Rotate(value))
    } else if ev_type == EV_KEY && code == BTN_0 && value == 1 {
        Some(DialEvent::Click)
    } else {
        None
    }
}

/// Classifies a raw input event (type, code, value) read from the dial.
pub fn dial_event_from_input(ev_type: u16, code: u16, value: i32) -> (e: Option<DialEvent>)
    ensures
        e == dial_event_of(ev_type, code, value),
{
    if ev_type == EV_REL && code == REL_DIAL {
        Some(DialEvent::Rotate(value))
    } else if ev_type == EV_KEY && code == BTN_0 && value == 1 {
        Some(DialEvent::Click)
    } else {
        None
    }
}

/// Whether `p` occurs in `s` at some position.
pub open spec fn contains_text(s: Seq<char>, p: Seq<char>) -> bool {
    exists|i: int| 0 <= i && i + p.len() <= s.len() && #[trigger] s.subrange(i, i + p.len()) == p
}

/// Whether a device node path names an event device (it holds `/event`).
pub fn is_event_node(devnode: &str) -> (r: bool)
    ensures
        r == contains_text(devnode@, "/event"@),
{
    let s = chars_of(devnode);
    let p = chars_of("/event");
    if p.len() > s.len() {
        assert forall|i: int| 0 <= i && i + p@.len() <= s@.len() implies #[trigger] s@.subrange(
            i,
            i + p@.len(),
        ) != p@ by {}
        return false;
    }
    let mut i: usize = 0;
    while i <= s.len() - p.len()
        invariant
            s@ == devnode@,
            p@ == "/event"@,
            p.len() <= s.len(),
            i <= s.len() - p.len() + 1,
            forall|k: int| 0 <= k < i ==> #[trigger] s@.subrange(k, k + p@.len()) != p@,
        decreases s.len() - i,
    {
        let mut j: usize = 0;
        let mut same = true;
        while j < p.len()
            invariant
                i + p.len() <= s.len(),
                j <= p.len(),
                same == (forall|m: int| 0 <= m < j ==> s@[i + m] == p@[m]),
            decreases p.len() - j,
        {
            if s[i + j] != p[j] {
                same = false;
            }
            j = j + 1;
        }
        if same {
            assert(s@.subrange(i as int, i + p@.len()) =~= p@);
            return true;
        } else {
            let ghost m = choose|m: int| 0 <= m < p.len() && s@[i + m] != p@[m];
            assert(s@.subrange(i as int, i + p@.len())[m] != p@[m]);
        }
        i = i + 1;
    }
    false
}

/// Whether a device's name is that of the Surface Dial's input device.
pub fn is_surface_dial(name: Option<&str>) -> (r: bool)
    ensures
        r == (name matches Some(n) && n@ == "Surface Dial System Multi Axis"@),
{
    match name {
        Some(n) => same_text(n, "Surface Dial System Multi Axis"),
        None => false,
    }
}

/// The sign of `x`: -1, 0 or 1 (`i32::signum`).
pub open spec fn sign(x: int) -> int {
    if x > 0 {
        1
    } else if x < 0 {
        -1
    } else {
        0
    }
}

/// Rotation collected between two ticks. The dial reports rotation in
/// bursts of varying size with occasional opposite jitter, so each event
/// counts only by its direction, and a tick acts on the sign of the sum.
/// The dial's direction is inverted here: turning clockwise (positive
/// events) counts down.
pub struct RotationAccumulator {
    acc: i32,
}

impl View for RotationAccumulator {
    type V = int;

    closed spec fn view(&self) -> int {
        self.acc as int
    }
}

impl RotationAccumulator {
    /// Nothing collected.
    pub fn new() -> (a: Self)
        ensures
            a@ == 0,
    {
        RotationAccumulator { acc: 0 }
    }

    /// The amount collected so far.
    pub fn pending(&self) -> (p: i32)
        ensures
            p as int == self@,
    {
        self.acc
    }

    /// Whether recording a rotation by `delta` keeps the sum within `i32`.
    pub fn can_record(&self, delta: i32) -> (ok: bool)
        ensures
            ok == (i32::MIN <= self@ - sign(delta as int) <= i32::MAX),
    {
        if delta > 0 {
            self.acc > i32::MIN
        } else if delta < 0 {
            self.acc < i32::MAX
        } else {
            true
        }
    }

    /// Records a rotation event: its direction is subtracted from the sum.
    pub fn record(&mut self, delta: i32)
        requires
            i32::MIN <= old(self)@ - sign(delta as int) <= i32::MAX,
        ensures
            final(self)@ == old(self)@ - sign(delta as int),
    {
        if delta > 0 {
            self.acc = self.acc - 1;
        } else if delta < 0 {
            self.acc = self.acc + 1;
        }
    }

    /// At a tick: the direction that dominated since the last tick (the
    /// sign of the sum, 0 when nothing or equal amounts each way came), and
    /// the sum starts again from 0.
    pub fn take_direction(&mut self) -> (dir: i32)
        ensures
            dir as int == sign(old(self)@),
            final(self)@ == 0,
    {
        let a = self.acc;
        self.acc = 0;
        if a > 0 {
            1
        } else if a < 0 {
            -1
        } else {
            0
        }
    }
}

/// Jitter cancels: a rotation event followed by one in the opposite
/// direction leaves the collected sum as it was.
pub proof fn opposite_rotations_cancel(pending: int, delta: int)
    ensures
        (pending - sign(delta)) - sign(-delta) == pending,
{
}

/// A tick with nothing collected does nothing: the direction of an empty
/// sum is 0.
pub proof fn quiet_tick_does_nothing()
    ensures
        sign(0) == 0,
{
}

/// Only the direction of an event counts: two events in the same direction
/// move the sum equally, whatever their magnitudes.
pub proof fn magnitude_is_ignored(pending: int, d1: int, d2: int)
    requires
        sign(d1) == sign(d2),
    ensures
        pending - sign(d1) == pending - sign(d2),
{
}

} // verus!
