use evdev::{EventType, Key, RelativeAxisType};
use surface_dial::dial::{BTN_0, EV_KEY, EV_REL, REL_DIAL};
use surface_dial::modes::appscroll::{REL_WHEEL, REL_WHEEL_HI_RES};
use surface_dial::modes::hyprscroll::HyprScrollMode;

#[test]
fn event_codes_match_evdev() {
    assert_eq!(EV_KEY, EventType::KEY.0);
    assert_eq!(EV_REL, EventType::RELATIVE.0);
    assert_eq!(REL_DIAL, RelativeAxisType::REL_DIAL.0);
    assert_eq!(BTN_0, Key::BTN_0.code());
    assert_eq!(REL_WHEEL, RelativeAxisType::REL_WHEEL.0);
    assert_eq!(REL_WHEEL_HI_RES, RelativeAxisType::REL_WHEEL_HI_RES.0);
}

#[test]
fn hyprscroll_spacing_over_a_run() {
    const MS: u64 = 1_000_000;
    let mut m = HyprScrollMode::new(0);
    let times = [0, 100, 349, 350, 351, 699, 700, 2000, 2001];
    let sent: Vec<u64> = times
        .iter()
        .filter_map(|t| m.on_rotate(1, t * MS).map(|_| *t))
        .collect();
    assert_eq!(sent, vec![0, 350, 700, 2000]);
    for w in sent.windows(2) {
        assert!(w[1] - w[0] >= 350);
    }
}
