//! The mode manager: which mode the dial drives, how a click moves to the
//! next mode of the configured cycle, and what a rotation tick does in the
//! current mode.

use vstd::prelude::*;
use crate::config::{AppScroll, General, HyprScroll, Volume, default_mode_names, names_view};
use crate::modes::{appscroll, hyprscroll, volume};
use crate::overlay::overlay_classes;
use crate::modes::appscroll::{
    AppScrollMode, HI_RES_PER_NOTCH, REL_WHEEL, REL_WHEEL_HI_RES, WheelEvent, notches,
    scroll_fits,
};
use crate::modes::hyprscroll::{
    HyprScrollMode, THROTTLE_NS, layout_move, offset_fits, throttled,
};
use crate::modes::volume::{VolumeMode, wpctl_args};
use crate::text::same_text;

verus! {

/// The modes the dial can drive.
#[derive(Debug, Clone, Copy, PartialEq, Eq, Structural)]
pub enum ModeKind {
    /// Navigate Hyprland's scrolling layout.
    HyprScroll,
    /// System volume.
    Volume,
    /// Scroll the focused application.
    AppScroll,
    /// Hyprland cursor zoom.
    Zoom,
    /// A Home Assistant media player's volume.
    HassMedia,
}

/// The mode after `k`: scroll layout, volume and app scroll follow each
/// other round a cycle of three; zoom leads to Home Assistant media, which
/// leads into that cycle at the scroll layout.
pub open spec fn successor(k: ModeKind) -> ModeKind {
    match k {
        ModeKind::HyprScroll => ModeKind::Volume,
        ModeKind::Volume => ModeKind::AppScroll,
        ModeKind::AppScroll => ModeKind::HyprScroll,
        ModeKind::Zoom => ModeKind::HassMedia,
        ModeKind::HassMedia => ModeKind::HyprScroll,
    }
}

/// The name of each mode in the configuration's `mode_order`.
pub open spec fn config_name(k: ModeKind) -> Seq<char> {
    match k {
        ModeKind::HyprScroll => "hyprscroll"@,
        ModeKind::Volume => "volume"@,
        ModeKind::AppScroll => "appscroll"@,
        ModeKind::Zoom => "zoom"@,
        ModeKind::HassMedia => "hass_media"@,
    }
}

/// The mode that a configuration name stands for, if any.
pub open spec fn kind_named(n: Seq<char>) -> Option<ModeKind> {
    if n == "volume"@ {
        Some(ModeKind::Volume)
    } else if n == "zoom"@ {
        Some(ModeKind::Zoom)
    } else if n == "appscroll"@ {
        Some(ModeKind::AppScroll)
    } else if n == "hyprscroll"@ {
        Some(ModeKind::HyprScroll)
    } else if n == "hass_media"@ {
        Some(ModeKind::HassMedia)
    } else {
        None
    }
}

/// The name shown in the overlay for each mode.
pub open spec fn display_name(k: ModeKind) -> Seq<char> {
    match k {
        ModeKind::HyprScroll => "Scroll Layout"@,
        ModeKind::Volume => "Volume"@,
        ModeKind::AppScroll => "App Scroll"@,
        ModeKind::Zoom => "Zoom"@,
        ModeKind::HassMedia => "HA Media"@,
    }
}

/// The icon shown in the overlay for each mode.
pub open spec fn icon_of(k: ModeKind) -> Seq<char> {
    match k {
        ModeKind::HyprScroll => "\u{f07e}"@,
        ModeKind::Volume => "\u{f028}"@,
        ModeKind::AppScroll => "\u{f0dc}"@,
        ModeKind::Zoom => "\u{f00e}"@,
        ModeKind::HassMedia => "\u{f008}"@,
    }
}

/// The overlay's style class for each mode.
pub open spec fn css_class_of(k: ModeKind) -> Seq<char> {
    match k {
        ModeKind::HyprScroll => "mode-hyprscroll"@,
        ModeKind::Volume => "mode-volume"@,
        ModeKind::AppScroll => "mode-appscroll"@,
        ModeKind::Zoom => "mode-zoom"@,
        ModeKind::HassMedia => "mode-hass-media"@,
    }
}

impl ModeKind {
    /// The mode after this one: scroll layout, volume, app scroll and round
    /// again; zoom and Home Assistant media lead into that cycle.
    pub fn next(self) -> (n: Self)
        ensures
            n == successor(self),
    {
        match self {
            ModeKind::HyprScroll => ModeKind::Volume,
            ModeKind::Volume => ModeKind::AppScroll,
            ModeKind::AppScroll => ModeKind::HyprScroll,
            ModeKind::Zoom => ModeKind::HassMedia,
            ModeKind::HassMedia => ModeKind::HyprScroll,
        }
    }

    /// The mode that a `mode_order` entry names, if any.
    pub fn from_name(name: &str) -> (k: Option<Self>)
        ensures
            k == kind_named(name@),
    {
        if same_text(name, "volume") {
            Some(ModeKind::Volume)
        } else if same_text(name, "zoom") {
            Some(ModeKind::Zoom)
        } else if same_text(name, "appscroll") {
            Some(ModeKind::AppScroll)
        } else if same_text(name, "hyprscroll") {
            Some(ModeKind::HyprScroll)
        } else if same_text(name, "hass_media") {
            Some(ModeKind::HassMedia)
        } else {
            None
        }
    }

    /// The name shown in the overlay.
    pub fn name(self) -> (n: &'static str)
        ensures
            n@ == display_name(self),
    {
        match self {
            ModeKind::HyprScroll => "Scroll Layout",
            ModeKind::Volume => "Volume",
            ModeKind::AppScroll => "App Scroll",
            ModeKind::Zoom => "Zoom",
            ModeKind::HassMedia => "HA Media",
        }
    }

    /// The icon shown in the overlay.
    pub fn icon(self) -> (i: &'static str)
        ensures
            i@ == icon_of(self),
    {
        match self {
            ModeKind::HyprScroll => "\u{f07e}",
            ModeKind::Volume => "\u{f028}",
            ModeKind::AppScroll => "\u{f0dc}",
            ModeKind::Zoom => "\u{f00e}",
            ModeKind::HassMedia => "\u{f008}",
        }
    }

    /// The overlay's style class.
    pub fn css_class(self) -> (c: &'static str)
        ensures
            c@ == css_class_of(self),
    {
        match self {
            ModeKind::HyprScroll => "mode-hyprscroll",
            ModeKind::Volume => "mode-volume",
            ModeKind::AppScroll => "mode-appscroll",
            ModeKind::Zoom => "mode-zoom",
            ModeKind::HassMedia => "mode-hass-media",
        }
    }
}

/// The modes that a list of names stands for, in order; names of no mode
/// are skipped.
pub open spec fn kinds_named(names: Seq<Seq<char>>) -> Seq<ModeKind>
    decreases names.len(),
{
    if names.len() == 0 {
        Seq::empty()
    } else {
        let rest = kinds_named(names.drop_last());
        match kind_named(names.last()) {
            Some(k) => rest.push(k),
            None => rest,
        }
    }
}

/// The default cycle: volume, zoom, app scroll, scroll layout.
pub open spec fn default_modes() -> Seq<ModeKind> {
    seq![ModeKind::Volume, ModeKind::Zoom, ModeKind::AppScroll, ModeKind::HyprScroll]
}

/// The cycle that a `mode_order` gives: the modes it names, in its order;
/// the default cycle when it names none.
pub open spec fn cycle_order(names: Seq<Seq<char>>) -> Seq<ModeKind> {
    if kinds_named(names).len() == 0 {
        default_modes()
    } else {
        kinds_named(names)
    }
}

/// What a rotation tick asks of the caller, by the current mode.
#[derive(Debug, PartialEq, Eq)]
pub enum RotateAction {
    /// Send this `layoutmsg` argument to Hyprland (`None`: throttled).
    Layout(Option<String>),
    /// Run `wpctl` with these arguments.
    Volume(Vec<String>),
    /// Emit these events on the virtual scroll device.
    Scroll(Vec<WheelEvent>),
    /// Change the cursor zoom in this direction.
    Zoom(i32),
    /// Change the Home Assistant player's volume in this direction.
    HassMedia(i32),
}

/// The modes and the one that is current.
pub struct ModeManager {
    order: Vec<ModeKind>,
    index: usize,
    hyprscroll: HyprScrollMode,
    volume: VolumeMode,
    appscroll: AppScrollMode,
}

impl ModeManager {
    #[verifier::type_invariant]
    spec fn well_formed(self) -> bool {
        0 < self.order.len() && self.index < self.order.len()
    }

    /// The configured cycle of modes.
    pub closed spec fn modes(&self) -> Seq<ModeKind> {
        self.order@
    }

    /// The place of the current mode in the cycle.
    pub closed spec fn position(&self) -> int {
        self.index as int
    }

    /// The current mode.
    pub open spec fn current_kind(&self) -> ModeKind {
        self.modes()[self.position()]
    }

    /// The state of the scrolling-layout mode.
    pub closed spec fn hyprscroll_mode(&self) -> HyprScrollMode {
        self.hyprscroll
    }

    /// The state of the volume mode.
    pub closed spec fn volume_mode(&self) -> VolumeMode {
        self.volume
    }

    /// The state of the application-scroll mode.
    pub closed spec fn appscroll_mode(&self) -> AppScrollMode {
        self.appscroll
    }

    fn kinds_from_names(names: &Vec<String>) -> (kinds: Vec<ModeKind>)
        ensures
            kinds@ == kinds_named(names_view(names@)),
    {
        let mut kinds: Vec<ModeKind> = Vec::new();
        let mut i: usize = 0;
        while i < names.len()
            invariant
                i <= names.len(),
                kinds@ == kinds_named(names_view(names@.take(i as int))),
            decreases names.len() - i,
        {
            let k = ModeKind::from_name(names[i].as_str());
            proof {
                let t = names_view(names@.take(i + 1));
                assert(t.drop_last() =~= names_view(names@.take(i as int)));
                assert(t.last() == names@[i as int]@);
            }
            match k {
                Some(kind) => kinds.push(kind),
                None => {},
            }
            i = i + 1;
        }
        assert(names@.take(names.len() as int) =~= names@);
        kinds
    }

    /// The modes of `general.mode_order` in that order (unknown names are
    /// skipped; the default cycle when no name is known), the first of them
    /// current; each mode set up from its section.
    pub fn new(general: &General, hyprscroll: &HyprScroll, volume: &Volume, appscroll: &AppScroll) -> (m: Self)
        ensures
            m.modes() == cycle_order(names_view(general.mode_order@)),
            m.position() == 0,
            m.hyprscroll_mode().pixels_per_tick == hyprscroll.pixels_per_tick,
            m.hyprscroll_mode().last_dispatch is None,
            m.volume_mode().step_percent == volume.step_percent,
            m.appscroll_mode().speed_multiplier == appscroll.speed_multiplier,
    {
        let mut order = Self::kinds_from_names(&general.mode_order);
        if order.len() == 0 {
            order.push(ModeKind::Volume);
            order.push(ModeKind::Zoom);
            order.push(ModeKind::AppScroll);
            order.push(ModeKind::HyprScroll);
            assert(order@ =~= default_modes());
        }
        ModeManager {
            order,
            index: 0,
            hyprscroll: HyprScrollMode::new(hyprscroll.pixels_per_tick),
            volume: VolumeMode::new(volume.step_percent),
            appscroll: AppScrollMode::new(appscroll.speed_multiplier),
        }
    }

    /// The place of the current mode in the cycle.
    pub fn current_position(&self) -> (p: usize)
        ensures
            p == self.position(),
            p < self.modes().len(),
    {
        proof {
            use_type_invariant(self);
        }
        self.index
    }

    /// The number of modes in the cycle (at least one).
    pub fn len(&self) -> (n: usize)
        ensures
            n == self.modes().len(),
            n > 0,
    {
        proof {
            use_type_invariant(self);
        }
        self.order.len()
    }

    /// The current mode.
    pub fn current(&self) -> (k: ModeKind)
        ensures
            k == self.current_kind(),
    {
        proof {
            use_type_invariant(self);
        }
        self.order[self.index]
    }

    /// A click: the next mode of the cycle becomes current (after the last
    /// comes the first), and is returned.
    pub fn cycle(&mut self) -> (k: ModeKind)
        ensures
            final(self).modes() == old(self).modes(),
            final(self).position() == (old(self).position() + 1) % (old(self).modes().len() as int),
            k == final(self).current_kind(),
            final(self).hyprscroll_mode() == old(self).hyprscroll_mode(),
            final(self).volume_mode() == old(self).volume_mode(),
            final(self).appscroll_mode() == old(self).appscroll_mode(),
    {
        proof {
            use_type_invariant(&*self);
        }
        let next = if self.index + 1 < self.order.len() {
            self.index + 1
        } else {
            0
        };
        proof {
            let n = self.order@.len();
            if self.index + 1 < n {
                vstd::arithmetic::div_mod::lemma_small_mod((self.index + 1) as nat, n as nat);
            } else {
                vstd::arithmetic::div_mod::lemma_mod_self_0(n as int);
            }
        }
        self.index = next;
        self.order[self.index]
    }

    /// Whether a rotation tick by `delta` at `now_ns` can be handled without
    /// overflow in the current mode (a pixel offset or a scroll amount that
    /// does not fit in an `i32`).
    pub fn can_rotate(&self, delta: i32, now_ns: u64) -> (ok: bool)
        ensures
            ok == ((self.current_kind() == ModeKind::HyprScroll && !throttled(
                self.hyprscroll_mode().last_dispatch,
                now_ns,
            ) ==> offset_fits(self.hyprscroll_mode().pixels_per_tick, delta)) && (
            self.current_kind() == ModeKind::AppScroll ==> scroll_fits(
                self.appscroll_mode().speed_multiplier,
                delta,
            ))),
    {
        match self.current() {
            ModeKind::HyprScroll => {
                let h = &self.hyprscroll;
                let waiting = match h.last_dispatch {
                    Some(last) => {
                        let since: u64 = if now_ns >= last {
                            now_ns - last
                        } else {
                            0
                        };
                        since < THROTTLE_NS
                    },
                    None => false,
                };
                if waiting || h.pixels_per_tick <= 0 {
                    true
                } else {
                    let d: i64 = -(delta as i64);
                    let q: i64 = h.pixels_per_tick as i64;
                    assert(-0x8000_0000_0000_0000 < d * q < 0x8000_0000_0000_0000) by (nonlinear_arith)
                        requires
                            -0x8000_0000 <= d <= 0x8000_0000,
                            -0x8000_0000 <= q <= 0x8000_0000,
                    ;
                    let px: i64 = d * q;
                    delta != i32::MIN && px >= i32::MIN as i64 && px <= i32::MAX as i64
                }
            },
            ModeKind::AppScroll => self.appscroll.fits(delta),
            _ => true,
        }
    }

    /// A rotation tick by `delta` (its sign is the direction) at `now_ns`
    /// (nanoseconds on the daemon's monotonic clock), handled by the
    /// current mode.
    pub fn on_rotate(&mut self, delta: i32, now_ns: u64) -> (a: RotateAction)
        requires
            old(self).current_kind() == ModeKind::HyprScroll && !throttled(
                old(self).hyprscroll_mode().last_dispatch,
                now_ns,
            ) ==> offset_fits(old(self).hyprscroll_mode().pixels_per_tick, delta),
            old(self).current_kind() == ModeKind::AppScroll ==> scroll_fits(
                old(self).appscroll_mode().speed_multiplier,
                delta,
            ),
        ensures
            final(self).modes() == old(self).modes(),
            final(self).position() == old(self).position(),
            final(self).volume_mode() == old(self).volume_mode(),
            final(self).appscroll_mode() == old(self).appscroll_mode(),
            final(self).hyprscroll_mode().pixels_per_tick == old(
                self,
            ).hyprscroll_mode().pixels_per_tick,
            old(self).current_kind() != ModeKind::HyprScroll ==> final(self).hyprscroll_mode()
                == old(self).hyprscroll_mode(),
            old(self).current_kind() == ModeKind::HyprScroll ==> (a matches RotateAction::Layout(
                msg,
            ) && (throttled(old(self).hyprscroll_mode().last_dispatch, now_ns) ==> msg is None
                && final(self).hyprscroll_mode().last_dispatch == old(
                self,
            ).hyprscroll_mode().last_dispatch) && (!throttled(
                old(self).hyprscroll_mode().last_dispatch,
                now_ns,
            ) ==> (msg matches Some(m) && m@ == layout_move(
                old(self).hyprscroll_mode().pixels_per_tick,
                delta,
            )) && final(self).hyprscroll_mode().last_dispatch == Some(now_ns))),
            old(self).current_kind() == ModeKind::Volume ==> (a matches RotateAction::Volume(args)
                && args@.map_values(|s: String| s@) == wpctl_args(
                old(self).volume_mode().step_percent,
                delta,
            )),
            old(self).current_kind() == ModeKind::AppScroll ==> (a matches RotateAction::Scroll(ev)
                && ev@ == seq![
                WheelEvent {
                    axis: REL_WHEEL,
                    value: notches(old(self).appscroll_mode().speed_multiplier, delta) as i32,
                },
                WheelEvent {
                    axis: REL_WHEEL_HI_RES,
                    value: (notches(old(self).appscroll_mode().speed_multiplier, delta)
                        * HI_RES_PER_NOTCH) as i32,
                },
            ]),
            old(self).current_kind() == ModeKind::Zoom ==> (a matches RotateAction::Zoom(d) && d
                == delta),
            old(self).current_kind() == ModeKind::HassMedia ==> (a matches RotateAction::HassMedia(
                d,
            ) && d == delta),
    {
        proof {
            use_type_invariant(&*self);
        }
        match self.order[self.index] {
            ModeKind::HyprScroll => {
                let mut h = self.hyprscroll;
                let msg = h.on_rotate(delta, now_ns);
                self.hyprscroll = h;
                RotateAction::Layout(msg)
            },
            ModeKind::Volume => RotateAction::Volume(self.volume.on_rotate(delta)),
            ModeKind::AppScroll => RotateAction::Scroll(self.appscroll.on_rotate(delta)),
            ModeKind::Zoom => RotateAction::Zoom(delta),
            ModeKind::HassMedia => RotateAction::HassMedia(delta),
        }
    }

    /// The current mode's name.
    pub fn name(&self) -> (n: &'static str)
        ensures
            n@ == display_name(self.current_kind()),
    {
        self.current().name()
    }

    /// The current mode's icon.
    pub fn icon(&self) -> (i: &'static str)
        ensures
            i@ == icon_of(self.current_kind()),
    {
        self.current().icon()
    }

    /// The current mode's style class.
    pub fn css_class(&self) -> (c: &'static str)
        ensures
            c@ == css_class_of(self.current_kind()),
    {
        self.current().css_class()
    }
}

/// The position after `clicks` clicks from position `p` in a cycle of `n`
/// modes, one click at a time.
pub open spec fn after_clicks(p: int, n: int, clicks: nat) -> int
    decreases clicks,
{
    if clicks == 0 {
        p
    } else {
        (after_clicks(p, n, (clicks - 1) as nat) + 1) % n
    }
}

proof fn lemma_after_clicks(p: int, n: int, clicks: nat)
    requires
        0 <= p < n,
    ensures
        after_clicks(p, n, clicks) == (p + clicks) % n,
    decreases clicks,
{
    if clicks == 0 {
        vstd::arithmetic::div_mod::lemma_small_mod(p as nat, n as nat);
    } else {
        lemma_after_clicks(p, n, (clicks - 1) as nat);
        vstd::arithmetic::div_mod::lemma_add_mod_noop_right(1, p + clicks - 1, n);
    }
}

/// Clicking goes round the configured cycle: from any mode, the next
/// clicks visit the modes in their configured order, each mode of the
/// cycle is reached within one round, and a whole round (as many clicks as
/// there are modes) comes back to the mode it started from.
pub proof fn clicks_go_round_the_cycle(p: int, n: int)
    requires
        0 <= p < n,
    ensures
        after_clicks(p, n, n as nat) == p,
        forall|k: nat| #[trigger] after_clicks(p, n, k) == (p + k) % n,
        forall|q: int| 0 <= q < n ==> #[trigger] after_clicks(p, n, ((q - p + n) % n) as nat) == q,
{
    assert forall|k: nat| #[trigger] after_clicks(p, n, k) == (p + k) % n by {
        lemma_after_clicks(p, n, k);
    }
    vstd::arithmetic::div_mod::lemma_mod_add_multiples_vanish(p, n);
    vstd::arithmetic::div_mod::lemma_small_mod(p as nat, n as nat);
    assert(after_clicks(p, n, n as nat) == (p + n) % n);
    assert forall|q: int| 0 <= q < n implies #[trigger] after_clicks(p, n, ((q - p + n) % n) as nat)
        == q by {
        let k = (q - p + n) % n;
        vstd::arithmetic::div_mod::lemma_mod_bound(q - p + n, n);
        lemma_after_clicks(p, n, k as nat);
        vstd::arithmetic::div_mod::lemma_add_mod_noop_right(p, q - p + n, n);
        vstd::arithmetic::div_mod::lemma_mod_add_multiples_vanish(q, n);
        vstd::arithmetic::div_mod::lemma_small_mod(q as nat, n as nat);
        assert(p + (q - p + n) == n + q);
    }
}

/// `next` goes round scroll layout, volume and app scroll: from each of
/// them, three steps return to it and one or two never do; from zoom or Home
/// Assistant media, `next` reaches that cycle within two steps.
pub proof fn next_cycles_through_three_modes(k: ModeKind)
    ensures
        k == ModeKind::HyprScroll || k == ModeKind::Volume || k == ModeKind::AppScroll ==> {
            &&& successor(successor(successor(k))) == k
            &&& successor(k) != k
            &&& successor(successor(k)) != k
        },
        successor(k) != k,
        successor(successor(k)) == ModeKind::HyprScroll || successor(successor(k))
            == ModeKind::Volume || successor(successor(k)) == ModeKind::AppScroll,
{
}

/// Each mode is found again under its configuration name.
pub proof fn config_names_name_their_modes(k: ModeKind)
    ensures
        kind_named(config_name(k)) == Some(k),
{
    reveal_strlit("volume");
    reveal_strlit("zoom");
    reveal_strlit("appscroll");
    reveal_strlit("hyprscroll");
    reveal_strlit("hass_media");
    let v = "volume"@;
    let z = "zoom"@;
    let a = "appscroll"@;
    let h = "hyprscroll"@;
    let m = "hass_media"@;
    assert(z.len() != v.len());
    assert(a.len() != v.len() && a.len() != z.len());
    assert(h.len() != v.len() && h.len() != z.len() && h.len() != a.len());
    assert(m.len() != v.len() && m.len() != z.len() && m.len() != a.len());
    assert(m[1] != h[1]);
    assert(z != v && a != v && a != z && h != v && h != z && h != a);
    assert(m != v && m != z && m != a && m != h);
}

/// Different modes are told apart in the overlay: their names, and their
/// style classes, differ.
pub proof fn modes_look_different(a: ModeKind, b: ModeKind)
    requires
        a != b,
    ensures
        display_name(a) != display_name(b),
        css_class_of(a) != css_class_of(b),
{
    reveal_strlit("Scroll Layout");
    reveal_strlit("Volume");
    reveal_strlit("App Scroll");
    reveal_strlit("Zoom");
    reveal_strlit("HA Media");
    reveal_strlit("mode-hyprscroll");
    reveal_strlit("mode-volume");
    reveal_strlit("mode-appscroll");
    reveal_strlit("mode-zoom");
    reveal_strlit("mode-hass-media");
    if display_name(a) == display_name(b) {
        assert(display_name(a).len() == display_name(b).len());
        assert(display_name(a)[0] == display_name(b)[0]);
    }
    if css_class_of(a) == css_class_of(b) {
        assert(css_class_of(a).len() == css_class_of(b).len());
        assert(css_class_of(a)[6] == css_class_of(b)[6]);
    }
}

/// With no known name in `mode_order`, the cycle is the one that the
/// default `mode_order` (volume, zoom, appscroll, hyprscroll) names.
pub proof fn fallback_cycle_is_the_default_order()
    ensures
        default_modes() == kinds_named(default_mode_names()),
        cycle_order(Seq::empty()) == kinds_named(default_mode_names()),
{
    config_names_name_their_modes(ModeKind::Volume);
    config_names_name_their_modes(ModeKind::Zoom);
    config_names_name_their_modes(ModeKind::AppScroll);
    config_names_name_their_modes(ModeKind::HyprScroll);
    let n = default_mode_names();
    assert(n.drop_last().drop_last().drop_last().drop_last() =~= Seq::<Seq<char>>::empty());
    assert(n.drop_last().drop_last().drop_last() =~= seq!["volume"@]);
    assert(n.drop_last().drop_last() =~= seq!["volume"@, "zoom"@]);
    assert(n.drop_last() =~= seq!["volume"@, "zoom"@, "appscroll"@]);
    let n1 = n.drop_last().drop_last().drop_last();
    assert(n1.drop_last() =~= Seq::<Seq<char>>::empty());
    assert(n1.last() == "volume"@);
    assert(kind_named("volume"@) == Some(ModeKind::Volume));
    assert(kinds_named(Seq::<Seq<char>>::empty()) == Seq::<ModeKind>::empty());
    assert(kinds_named(n1) =~= seq![ModeKind::Volume]);
    let n2 = n.drop_last().drop_last();
    assert(n2.drop_last() == n1);
    assert(n2.last() == "zoom"@);
    let n3 = n.drop_last();
    assert(n3.drop_last() == n2);
    assert(n3.last() == "appscroll"@);
    assert(n.last() == "hyprscroll"@);
    assert(kinds_named(n.drop_last().drop_last()) =~= seq![ModeKind::Volume, ModeKind::Zoom]);
    assert(kinds_named(n.drop_last()) =~= seq![
        ModeKind::Volume,
        ModeKind::Zoom,
        ModeKind::AppScroll,
    ]);
    assert(kinds_named(n) =~= default_modes());
    assert(kinds_named(Seq::<Seq<char>>::empty()).len() == 0);
}

/// What the overlay shows for a mode is what that mode gives: the name,
/// icon and style class of the scrolling-layout, volume and
/// application-scroll modes are their own; zoom and Home Assistant media
/// show `Zoom` with a magnifier and `HA Media` with a film strip; and the
/// style classes are, in order of the modes, the first five of the classes
/// the overlay may carry.
pub proof fn labels_come_from_the_modes()
    ensures
        display_name(ModeKind::HyprScroll) == hyprscroll::mode_name(),
        icon_of(ModeKind::HyprScroll) == hyprscroll::mode_icon(),
        css_class_of(ModeKind::HyprScroll) == hyprscroll::mode_css_class(),
        display_name(ModeKind::Volume) == volume::mode_name(),
        icon_of(ModeKind::Volume) == volume::mode_icon(),
        css_class_of(ModeKind::Volume) == volume::mode_css_class(),
        display_name(ModeKind::AppScroll) == appscroll::mode_name(),
        icon_of(ModeKind::AppScroll) == appscroll::mode_icon(),
        css_class_of(ModeKind::AppScroll) == appscroll::mode_css_class(),
        display_name(ModeKind::Zoom) == "Zoom"@,
        icon_of(ModeKind::Zoom) == "\u{f00e}"@,
        display_name(ModeKind::HassMedia) == "HA Media"@,
        icon_of(ModeKind::HassMedia) == "\u{f008}"@,
        css_class_of(ModeKind::HyprScroll) == overlay_classes()[0],
        css_class_of(ModeKind::Volume) == overlay_classes()[1],
        css_class_of(ModeKind::AppScroll) == overlay_classes()[2],
        css_class_of(ModeKind::Zoom) == overlay_classes()[3],
        css_class_of(ModeKind::HassMedia) == overlay_classes()[4],
{
}

} // verus!
