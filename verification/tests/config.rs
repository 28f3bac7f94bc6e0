use surface_dial::config::{AppScroll, General, HyprScroll, Volume};

#[test]
fn defaults() {
    let g = General::default();
    assert_eq!(g.overlay_timeout_ms, 1500);
    assert_eq!(g.mode_order, vec!["volume", "zoom", "appscroll", "hyprscroll"]);
    assert_eq!(HyprScroll::default().pixels_per_tick, 0);
    assert_eq!(Volume::default().step_percent, 2);
    assert_eq!(AppScroll::default().speed_multiplier, 1);
}
