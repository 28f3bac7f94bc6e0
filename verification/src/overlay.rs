//! The overlay indicator's behaviour: what it shows for a mode, a
//! connection change or a volume level, and when it hides again. Drawing
//! the window is left to the caller, which reports the clock and a check
//! every 250 ms while a hide timer runs.

use vstd::prelude::*;

verus! {

/// How long the overlay stays up before the configuration says otherwise.
pub const DEFAULT_HIDE_TIMEOUT_MS: u64 = 1500;

/// The least time a volume display stays up.
pub const MIN_VOLUME_TIMEOUT_MS: u64 = 2500;

/// How often a running hide timer checks whether the overlay is due to hide.
pub const HIDE_CHECK_INTERVAL_MS: u64 = 250;

/// Nanoseconds in a millisecond.
pub const NS_PER_MS: u64 = 1_000_000;

/// The style classes the overlay may carry; all are removed before a new
/// one is set.
pub open spec fn overlay_classes() -> Seq<Seq<char>> {
    seq![
        "mode-hyprscroll"@,
        "mode-volume"@,
        "mode-appscroll"@,
        "mode-zoom"@,
        "mode-hass-media"@,
        "status-connected"@,
        "status-disconnected"@,
    ]
}

/// The style classes the overlay may carry.
pub fn all_css_classes() -> (v: Vec<&'static str>)
    ensures
        v@.map_values(|s: &'static str| s@) == overlay_classes(),
{
    let mut v: Vec<&'static str> = Vec::new();
    v.push("mode-hyprscroll");
    v.push("mode-volume");
    v.push("mode-appscroll");
    v.push("mode-zoom");
    v.push("mode-hass-media");
    v.push("status-connected");
    v.push("status-disconnected");
    assert(v@.map_values(|s: &'static str| s@) =~= overlay_classes());
    v
}

/// What the overlay shows when the dial connects or disconnects.
#[derive(Debug, Clone, Copy, PartialEq, Eq)]
pub struct StatusBadge {
    /// A filled circle when connected, a hollow one when not.
    pub icon: &'static str,
    /// `Connected` or `Disconnected`.
    pub name: &'static str,
    /// `status-connected` or `status-disconnected`.
    pub css_class: &'static str,
}

/// The badge for a connection change.
pub fn connection_badge(connected: bool) -> (b: StatusBadge)
    ensures
        connected ==> b.icon@ == "\u{2b24}"@ && b.name@ == "Connected"@ && b.css_class@
            == "status-connected"@,
        !connected ==> b.icon@ == "\u{25ef}"@ && b.name@ == "Disconnected"@ && b.css_class@
            == "status-disconnected"@,
{
    if connected {
        StatusBadge { icon: "\u{2b24}", name: "Connected", css_class: "status-connected" }
    } else {
        StatusBadge { icon: "\u{25ef}", name: "Disconnected", css_class: "status-disconnected" }
    }
}

/// Whole milliseconds from `earlier` to `now` (nanosecond clock readings),
/// 0 when `now` is not later (as `Instant::elapsed` never is negative).
pub open spec fn elapsed_ms(earlier: u64, now: u64) -> int {
    if now >= earlier {
        (now - earlier) / (NS_PER_MS as int)
    } else {
        0
    }
}

/// Whether the overlay is due to hide at `now`.
pub open spec fn due_to_hide(s: OverlayState, now: u64) -> bool {
    elapsed_ms(s.last_activity_ns, now) >= s.hide_timeout_ms
}

/// The overlay's state.
#[derive(Debug, Clone, Copy, PartialEq, Eq)]
pub struct OverlayState {
    /// Whether the window is shown.
    pub visible: bool,
    /// Whether the volume bar is shown.
    pub volume_visible: bool,
    /// When the overlay was last shown or updated (nanoseconds on the
    /// daemon's monotonic clock).
    pub last_activity_ns: u64,
    /// How long after the last update the overlay hides.
    pub hide_timeout_ms: u64,
    /// Whether a hide timer is running.
    pub timer_active: bool,
}

/// What the caller does after a volume update.
#[derive(Debug, Clone, Copy, PartialEq, Eq)]
pub struct VolumeShow {
    /// The window was hidden: set the mode's style, icon and name.
    pub restyle: bool,
    /// Start the hide timer (none is running).
    pub start_timer: bool,
}

impl OverlayState {
    /// A hidden overlay with the default timeout and no timer.
    pub fn new(now_ns: u64) -> (s: Self)
        ensures
            !s.visible,
            !s.volume_visible,
            s.last_activity_ns == now_ns,
            s.hide_timeout_ms == DEFAULT_HIDE_TIMEOUT_MS,
            !s.timer_active,
    {
        OverlayState {
            visible: false,
            volume_visible: false,
            last_activity_ns: now_ns,
            hide_timeout_ms: DEFAULT_HIDE_TIMEOUT_MS,
            timer_active: false,
        }
    }

    /// Notes activity at `now_ns`; the answer is whether a hide timer must
    /// be started (one is running from then on).
    fn touch(&mut self, now_ns: u64) -> (start_timer: bool)
        ensures
            final(self).last_activity_ns == now_ns,
            final(self).timer_active,
            start_timer == !old(self).timer_active,
            final(self).visible == old(self).visible,
            final(self).volume_visible == old(self).volume_visible,
            final(self).hide_timeout_ms == old(self).hide_timeout_ms,
    {
        self.last_activity_ns = now_ns;
        if self.timer_active {
            return false;
        }
        self.timer_active = true;
        true
    }

    /// Shows a mode or a connection status (`show_mode`, `show_status`):
    /// the window appears without the volume bar, and hides `timeout_ms`
    /// after this. The answer is whether to start the hide timer.
    pub fn show(&mut self, timeout_ms: u64, now_ns: u64) -> (start_timer: bool)
        ensures
            final(self).visible,
            !final(self).volume_visible,
            final(self).hide_timeout_ms == timeout_ms,
            final(self).last_activity_ns == now_ns,
            final(self).timer_active,
            start_timer == !old(self).timer_active,
    {
        self.volume_visible = false;
        self.hide_timeout_ms = timeout_ms;
        self.visible = true;
        self.touch(now_ns)
    }

    /// Shows a volume level: the volume bar appears (the window too, styled
    /// for the mode, if it was hidden), and the overlay stays at least
    /// 2500 ms.
    pub fn show_volume(&mut self, timeout_ms: u64, now_ns: u64) -> (r: VolumeShow)
        ensures
            r.restyle == !old(self).visible,
            final(self).visible,
            final(self).volume_visible,
            final(self).hide_timeout_ms == (if timeout_ms >= MIN_VOLUME_TIMEOUT_MS {
                timeout_ms
            } else {
                MIN_VOLUME_TIMEOUT_MS
            }),
            final(self).last_activity_ns == now_ns,
            final(self).timer_active,
            r.start_timer == !old(self).timer_active,
    {
        self.volume_visible = true;
        let restyle = !self.visible;
        if restyle {
            self.visible = true;
        }
        self.hide_timeout_ms = if timeout_ms >= MIN_VOLUME_TIMEOUT_MS {
            timeout_ms
        } else {
            MIN_VOLUME_TIMEOUT_MS
        };
        let start_timer = self.touch(now_ns);
        VolumeShow { restyle, start_timer }
    }

    /// A check of the running hide timer at `now_ns`: when the timeout has
    /// passed since the last activity, the overlay hides and the timer
    /// stops (`false`); otherwise nothing changes and the timer goes on
    /// (`true`).
    pub fn tick(&mut self, now_ns: u64) -> (keep_running: bool)
        ensures
            keep_running == !due_to_hide(*old(self), now_ns),
            due_to_hide(*old(self), now_ns) ==> !final(self).visible,
            due_to_hide(*old(self), now_ns) ==> !final(self).volume_visible,
            due_to_hide(*old(self), now_ns) ==> !final(self).timer_active,
            due_to_hide(*old(self), now_ns) ==> final(self).last_activity_ns
                == old(self).last_activity_ns,
            due_to_hide(*old(self), now_ns) ==> final(self).hide_timeout_ms
                == old(self).hide_timeout_ms,
            !due_to_hide(*old(self), now_ns) ==> *final(self) == *old(self),
    {
        let elapsed: u64 = if now_ns >= self.last_activity_ns {
            (now_ns - self.last_activity_ns) / NS_PER_MS
        } else {
            0
        };
        if elapsed >= self.hide_timeout_ms {
            self.visible = false;
            self.volume_visible = false;
            self.timer_active = false;
            false
        } else {
            true
        }
    }
}

/// The overlay hides exactly when its timeout has passed: after activity
/// at `t` with a timeout of `timeout_ms`, a check earlier than `t` plus the
/// timeout keeps it up, and a check at or after that hides it.
pub proof fn hides_exactly_after_timeout(s: OverlayState, now: u64)
    requires
        s.last_activity_ns <= now,
    ensures
        due_to_hide(s, now) <==> now - s.last_activity_ns >= s.hide_timeout_ms * NS_PER_MS,
{
    let d = (now - s.last_activity_ns) as int;
    let m = NS_PER_MS as int;
    let t = s.hide_timeout_ms as int;
    vstd::arithmetic::div_mod::lemma_fundamental_div_mod(d, m);
    assert(d / m >= t <==> d >= t * m) by (nonlinear_arith)
        requires
            d == m * (d / m) + d % m,
            0 <= d % m < m,
            m > 0,
            t >= 0,
    ;
}

} // verus!
