use surface_dial::overlay::{all_css_classes, connection_badge, OverlayState, VolumeShow};

const MS: u64 = 1_000_000;

#[test]
fn starts_hidden() {
    let s = OverlayState::new(7);
    assert!(!s.visible && !s.volume_visible && !s.timer_active);
    assert_eq!(s.hide_timeout_ms, 1500);
    assert_eq!(s.last_activity_ns, 7);
}

#[test]
fn show_starts_one_timer() {
    let mut s = OverlayState::new(0);
    assert!(s.show(1500, 0));
    assert!(s.visible && s.timer_active && !s.volume_visible);
    assert!(!s.show(1000, 10 * MS));
    assert_eq!(s.hide_timeout_ms, 1000);
    assert_eq!(s.last_activity_ns, 10 * MS);
}

#[test]
fn hides_when_timeout_passed() {
    let mut s = OverlayState::new(0);
    s.show(1500, 100 * MS);
    assert!(s.tick(350 * MS));
    assert!(s.tick(1600 * MS - 1));
    assert!(s.visible);
    assert!(!s.tick(1600 * MS));
    assert!(!s.visible && !s.timer_active);
    // the next show starts a fresh timer
    assert!(s.show(1500, 2000 * MS));
}

#[test]
fn activity_postpones_hiding() {
    let mut s = OverlayState::new(0);
    s.show(1500, 0);
    s.show(1500, 1000 * MS);
    assert!(s.tick(2000 * MS));
    assert!(!s.tick(2500 * MS));
}

#[test]
fn volume_display() {
    let mut s = OverlayState::new(0);
    assert_eq!(s.show_volume(1500, 0), VolumeShow { restyle: true, start_timer: true });
    assert!(s.visible && s.volume_visible);
    assert_eq!(s.hide_timeout_ms, 2500);
    assert_eq!(s.show_volume(4000, 10 * MS), VolumeShow { restyle: false, start_timer: false });
    assert_eq!(s.hide_timeout_ms, 4000);
    assert!(s.tick(4000 * MS));
    assert!(!s.tick(4010 * MS));
    assert!(!s.volume_visible);
}

#[test]
fn mode_display_hides_volume_bar() {
    let mut s = OverlayState::new(0);
    s.show_volume(1500, 0);
    s.show(1500, MS);
    assert!(!s.volume_visible);
}

#[test]
fn badges() {
    let c = connection_badge(true);
    assert_eq!((c.icon, c.name, c.css_class), ("\u{2b24}", "Connected", "status-connected"));
    let d = connection_badge(false);
    assert_eq!((d.icon, d.name, d.css_class), ("\u{25ef}", "Disconnected", "status-disconnected"));
}

#[test]
fn classes() {
    assert_eq!(
        all_css_classes(),
        vec!["mode-hyprscroll", "mode-volume", "mode-appscroll", "mode-zoom", "mode-hass-media", "status-connected", "status-disconnected"]
    );
}
