use surface_dial::modes::appscroll::{AppScrollMode, WheelEvent, REL_WHEEL, REL_WHEEL_HI_RES};
use surface_dial::modes::hass_media::HassApi;
use surface_dial::modes::hyprscroll::HyprScrollMode;
use surface_dial::modes::volume::VolumeMode;

const MS: u64 = 1_000_000;

#[test]
fn hyprscroll_columns() {
    let mut m = HyprScrollMode::new(0);
    assert_eq!(m.on_rotate(1, 0), Some("move -col".to_string()));
    assert_eq!(m.last_dispatch, Some(0));
    assert_eq!(m.on_rotate(-1, 350 * MS), Some("move +col".to_string()));
    assert_eq!(m.on_rotate(0, 700 * MS), Some("move +col".to_string()));
}

#[test]
fn hyprscroll_throttle() {
    let mut m = HyprScrollMode::new(0);
    assert_eq!(m.on_rotate(1, 1000 * MS), Some("move -col".to_string()));
    assert_eq!(m.on_rotate(1, 1100 * MS), None);
    assert_eq!(m.on_rotate(1, 1350 * MS - 1), None);
    assert_eq!(m.last_dispatch, Some(1000 * MS));
    assert_eq!(m.on_rotate(1, 1350 * MS), Some("move -col".to_string()));
    assert_eq!(m.last_dispatch, Some(1350 * MS));
}

#[test]
fn hyprscroll_clock_behind_counts_as_no_time() {
    let mut m = HyprScrollMode::new(0);
    m.last_dispatch = Some(5000 * MS);
    assert_eq!(m.on_rotate(1, 10 * MS), None);
}

#[test]
fn hyprscroll_pixels() {
    let mut m = HyprScrollMode::new(40);
    assert_eq!(m.on_rotate(1, 0), Some("move -40".to_string()));
    assert_eq!(m.on_rotate(-1, 400 * MS), Some("move +40".to_string()));
    assert_eq!(m.on_rotate(0, 800 * MS), Some("move 0".to_string()));
    assert_eq!(m.on_rotate(-3, 1200 * MS), Some("move +120".to_string()));
    assert_eq!(m.on_rotate(i32::MAX / 40, 1600 * MS), Some(format!("move {}", -(i32::MAX / 40) * 40)));
}

#[test]
fn hyprscroll_labels() {
    let m = HyprScrollMode::new(0);
    assert_eq!(m.name(), "Scroll Layout");
    assert_eq!(m.icon(), "\u{f07e}");
    assert_eq!(m.css_class(), "mode-hyprscroll");
}

#[test]
fn volume_args() {
    let v = VolumeMode::new(2);
    assert_eq!(v.on_rotate(1), vec!["set-volume", "@DEFAULT_AUDIO_SINK@", "2%+"]);
    assert_eq!(v.on_rotate(-1), vec!["set-volume", "@DEFAULT_AUDIO_SINK@", "2%-"]);
    assert_eq!(v.on_rotate(0), vec!["set-volume", "@DEFAULT_AUDIO_SINK@", "2%-"]);
    assert_eq!(VolumeMode::new(15).on_rotate(9)[2], "15%+");
    assert_eq!(VolumeMode::new(0).on_rotate(1)[2], "0%+");
    assert_eq!(VolumeMode::new(u32::MAX).on_rotate(-1)[2], "4294967295%-");
}

#[test]
fn volume_labels() {
    let v = VolumeMode::new(2);
    assert_eq!(v.name(), "Volume");
    assert_eq!(v.icon(), "\u{f028}");
    assert_eq!(v.css_class(), "mode-volume");
}

#[test]
fn appscroll_events() {
    let a = AppScrollMode::new(1);
    assert_eq!(
        a.on_rotate(5),
        vec![WheelEvent { axis: REL_WHEEL, value: 1 }, WheelEvent { axis: REL_WHEEL_HI_RES, value: 120 }]
    );
    let b = AppScrollMode::new(3);
    assert_eq!(
        b.on_rotate(-2),
        vec![WheelEvent { axis: 8, value: -3 }, WheelEvent { axis: 11, value: -360 }]
    );
    assert_eq!(b.on_rotate(0), vec![WheelEvent { axis: 8, value: 0 }, WheelEvent { axis: 11, value: 0 }]);
}

#[test]
fn appscroll_fits() {
    assert!(AppScrollMode::new(1).fits(1));
    assert!(!AppScrollMode::new(i32::MAX).fits(1));
    assert!(AppScrollMode::new(i32::MAX).fits(0));
    assert!(!AppScrollMode::new(i32::MIN).fits(-1));
}

#[test]
fn appscroll_labels() {
    let a = AppScrollMode::new(1);
    assert_eq!(a.name(), "App Scroll");
    assert_eq!(a.icon(), "\u{f0dc}");
    assert_eq!(a.css_class(), "mode-appscroll");
}

#[test]
fn hass_endpoints() {
    let h = HassApi::new(
        "http://homeassistant.local:8123".to_string(),
        "tok".to_string(),
        "media_player.living_room".to_string(),
    );
    assert_eq!(h.state_url(), "http://homeassistant.local:8123/api/states/media_player.living_room");
    assert_eq!(h.volume_set_url(), "http://homeassistant.local:8123/api/services/media_player/volume_set");
    assert_eq!(h.authorization(), "Bearer tok");
}
