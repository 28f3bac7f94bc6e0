//! System volume through WirePlumber: each tick raises or lowers the
//! default sink's volume by a fixed step with `wpctl set-volume`.

use vstd::prelude::*;
use crate::text::{decimal, push_decimal};

verus! {

/// The volume mode.
pub struct VolumeMode {
    /// Volume change per tick, in percent.
    pub step_percent: u32,
}

/// The `wpctl` volume argument for one tick: `<step>%+` for a positive
/// delta, `<step>%-` otherwise.
pub open spec fn volume_change(step_percent: u32, delta: i32) -> Seq<char> {
    decimal(step_percent as nat) + if delta > 0 {
        "%+"@
    } else {
        "%-"@
    }
}

/// The arguments of the `wpctl` call for one tick.
pub open spec fn wpctl_args(step_percent: u32, delta: i32) -> Seq<Seq<char>> {
    seq!["set-volume"@, "@DEFAULT_AUDIO_SINK@"@, volume_change(step_percent, delta)]
}

/// The name the overlay shows for the volume mode.
pub open spec fn mode_name() -> Seq<char> {
    "Volume"@
}

/// The icon the overlay shows for the volume mode.
pub open spec fn mode_icon() -> Seq<char> {
    "\u{f028}"@
}

/// The overlay's style class for the volume mode.
pub open spec fn mode_css_class() -> Seq<char> {
    "mode-volume"@
}

impl VolumeMode {
    /// A volume mode with the given step.
    pub fn new(step_percent: u32) -> (m: Self)
        ensures
            m.step_percent == step_percent,
    {
        VolumeMode { step_percent }
    }

    /// A tick by `delta`: the arguments to run `wpctl` with.
    pub fn on_rotate(&self, delta: i32) -> (args: Vec<String>)
        ensures
            args@.map_values(|s: String| s@) == wpctl_args(self.step_percent, delta),
    {
        let mut change = String::new();
        push_decimal(&mut change, self.step_percent as u64);
        if delta > 0 {
            change.append("%+");
        } else {
            change.append("%-");
        }
        let mut args: Vec<String> = Vec::new();
        args.push(String::from_str("set-volume"));
        args.push(String::from_str("@DEFAULT_AUDIO_SINK@"));
        args.push(change);
        assert(args@.map_values(|s: String| s@) =~= wpctl_args(self.step_percent, delta));
        args
    }

    /// The name shown in the overlay.
    pub fn name(&self) -> (n: &'static str)
        ensures
            n@ == mode_name(),
    {
        "Volume"
    }

    /// The icon shown in the overlay (a loudspeaker).
    pub fn icon(&self) -> (i: &'static str)
        ensures
            i@ == mode_icon(),
    {
        "\u{f028}"
    }

    /// The overlay's style class for this mode.
    pub fn css_class(&self) -> (c: &'static str)
        ensures
            c@ == mode_css_class(),
    {
        "mode-volume"
    }
}

} // verus!
