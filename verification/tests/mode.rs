use surface_dial::config::{AppScroll, General, HyprScroll, Volume};
use surface_dial::mode::{ModeKind, ModeManager, RotateAction};
use surface_dial::modes::appscroll::WheelEvent;

fn manager(order: &[&str]) -> ModeManager {
    let general = General { overlay_timeout_ms: 1500, mode_order: order.iter().map(|s| s.to_string()).collect() };
    ModeManager::new(&general, &HyprScroll::default(), &Volume::default(), &AppScroll::default())
}

#[test]
fn next_cycles_the_three_original_modes() {
    assert_eq!(ModeKind::HyprScroll.next(), ModeKind::Volume);
    assert_eq!(ModeKind::Volume.next(), ModeKind::AppScroll);
    assert_eq!(ModeKind::AppScroll.next(), ModeKind::HyprScroll);
    for k in [ModeKind::HyprScroll, ModeKind::Volume, ModeKind::AppScroll] {
        assert_ne!(k.next(), k);
        assert_ne!(k.next().next(), k);
        assert_eq!(k.next().next().next(), k);
    }
}

#[test]
fn next_leads_zoom_and_hass_media_into_the_cycle() {
    assert_eq!(ModeKind::Zoom.next(), ModeKind::HassMedia);
    assert_eq!(ModeKind::HassMedia.next(), ModeKind::HyprScroll);
}

#[test]
fn names_of_modes() {
    assert_eq!(ModeKind::from_name("volume"), Some(ModeKind::Volume));
    assert_eq!(ModeKind::from_name("zoom"), Some(ModeKind::Zoom));
    assert_eq!(ModeKind::from_name("appscroll"), Some(ModeKind::AppScroll));
    assert_eq!(ModeKind::from_name("hyprscroll"), Some(ModeKind::HyprScroll));
    assert_eq!(ModeKind::from_name("hass_media"), Some(ModeKind::HassMedia));
    assert_eq!(ModeKind::from_name("Volume"), None);
    assert_eq!(ModeKind::from_name(""), None);
}

#[test]
fn labels_of_modes() {
    assert_eq!(ModeKind::Zoom.name(), "Zoom");
    assert_eq!(ModeKind::Zoom.icon(), "\u{f00e}");
    assert_eq!(ModeKind::Zoom.css_class(), "mode-zoom");
    assert_eq!(ModeKind::HassMedia.name(), "HA Media");
    assert_eq!(ModeKind::HassMedia.icon(), "\u{f008}");
    assert_eq!(ModeKind::HassMedia.css_class(), "mode-hass-media");
}

#[test]
fn default_cycle() {
    let general = General::default();
    let mut m = ModeManager::new(&general, &HyprScroll::default(), &Volume::default(), &AppScroll::default());
    assert_eq!(m.len(), 4);
    assert_eq!(m.current(), ModeKind::Volume);
    assert_eq!(m.name(), "Volume");
    assert_eq!(m.cycle(), ModeKind::Zoom);
    assert_eq!(m.cycle(), ModeKind::AppScroll);
    assert_eq!(m.cycle(), ModeKind::HyprScroll);
    assert_eq!(m.css_class(), "mode-hyprscroll");
    assert_eq!(m.cycle(), ModeKind::Volume);
    assert_eq!(m.current_position(), 0);
}

#[test]
fn configured_cycle_skips_unknown_names() {
    let mut m = manager(&["hyprscroll", "bogus", "volume"]);
    assert_eq!(m.len(), 2);
    assert_eq!(m.current(), ModeKind::HyprScroll);
    assert_eq!(m.cycle(), ModeKind::Volume);
    assert_eq!(m.cycle(), ModeKind::HyprScroll);
}

#[test]
fn single_mode_cycle_stays() {
    let mut m = manager(&["hass_media"]);
    assert_eq!(m.cycle(), ModeKind::HassMedia);
    assert_eq!(m.icon(), "\u{f008}");
}

#[test]
fn no_known_mode_falls_back_to_default() {
    let m = manager(&[]);
    assert_eq!(m.len(), 4);
    assert_eq!(m.current(), ModeKind::Volume);
    let m = manager(&["nothing"]);
    assert_eq!(m.len(), 4);
}

#[test]
fn rotation_in_each_mode() {
    let mut m = manager(&["hyprscroll", "volume", "appscroll", "zoom", "hass_media"]);
    assert_eq!(m.on_rotate(1, 0), RotateAction::Layout(Some("move -col".to_string())));
    assert_eq!(m.on_rotate(1, 1), RotateAction::Layout(None));
    m.cycle();
    assert_eq!(
        m.on_rotate(-1, 2),
        RotateAction::Volume(vec!["set-volume".to_string(), "@DEFAULT_AUDIO_SINK@".to_string(), "2%-".to_string()])
    );
    m.cycle();
    assert_eq!(
        m.on_rotate(1, 3),
        RotateAction::Scroll(vec![WheelEvent { axis: 8, value: 1 }, WheelEvent { axis: 11, value: 120 }])
    );
    m.cycle();
    assert_eq!(m.on_rotate(-1, 4), RotateAction::Zoom(-1));
    m.cycle();
    assert_eq!(m.on_rotate(1, 5), RotateAction::HassMedia(1));
    m.cycle();
    // the layout mode kept its throttle while other modes were current
    assert_eq!(m.on_rotate(1, 6), RotateAction::Layout(None));
    assert_eq!(m.on_rotate(1, 350_000_000), RotateAction::Layout(Some("move -col".to_string())));
}
