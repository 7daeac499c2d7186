use notch_overlay::geometry::{center_x, get_notch_info, ScreenGeometry};
use notch_overlay::layout::{
    fit_to_notch, fixed_window_frame, hover_window_frame, position_at_notch, update_window_settings,
};
use notch_overlay::settings::{get_window_settings, settings_or_default, update_ui_bounds, UiBounds, WindowSettings};

fn notched(screen_width: u32, notch_width: u32) -> ScreenGeometry {
    ScreenGeometry { screen_width, screen_height: 900, notch_height: 38, notch_width }
}

#[test]
fn target_width_with_notch() {
    let g = notched(1512, 220);
    let s = WindowSettings { extra_width: 400, extra_height: 200, non_notch_mode: false };
    let f = fixed_window_frame(&g, &s);
    assert_eq!(f.width, 780);
    assert_eq!(f.height, 238);
    assert_eq!(f.x, (1512 - 780) / 2);
    assert_eq!(f.y, 0);
}

#[test]
fn frame_formula_over_a_grid() {
    for notch in [0u32, 180, 220, 260] {
        for extra in [0u32, 1, 400, 1000] {
            for mode in [false, true] {
                let g = notched(1728, notch);
                let s = WindowSettings { extra_width: extra, extra_height: 10, non_notch_mode: mode };
                let f = fixed_window_frame(&g, &s);
                let eff = if mode { 0 } else { notch as i64 };
                let w = eff + 160 + extra as i64;
                assert_eq!(f.width, w);
                assert_eq!(f.x, (1728 - w).div_euclid(2));
            }
        }
    }
}

#[test]
fn non_notch_mode_drops_notch_width() {
    let g = notched(1512, 220);
    let s = WindowSettings { extra_width: 400, extra_height: 0, non_notch_mode: true };
    assert_eq!(fixed_window_frame(&g, &s).width, 560);
}

#[test]
fn window_wider_than_screen_is_placed_left_of_origin() {
    let g = notched(500, 220);
    let s = WindowSettings { extra_width: 400, extra_height: 0, non_notch_mode: false };
    let f = fixed_window_frame(&g, &s);
    assert_eq!(f.width, 780);
    assert_eq!(f.x, -140);
    assert_eq!(center_x(0, 3), -2);
}

#[test]
fn zeroed_geometry_gives_small_frame_not_crash() {
    let g = ScreenGeometry::zeroed();
    let s = WindowSettings::default();
    let f = fixed_window_frame(&g, &s);
    assert_eq!(f.width, 560);
    assert_eq!(f.height, 800);
    assert_eq!(f.x, -280);
}

#[test]
fn default_settings_values() {
    let s = WindowSettings::default();
    assert_eq!(s, WindowSettings { extra_width: 400, extra_height: 800, non_notch_mode: false });
    assert_eq!(settings_or_default(None), s);
    let stored = WindowSettings { extra_width: 1, extra_height: 2, non_notch_mode: true };
    assert_eq!(settings_or_default(Some(stored)), stored);
}

#[test]
fn update_then_get_round_trip() {
    let g = notched(1512, 220);
    let mut store = WindowSettings::default();
    let frame = update_window_settings(&mut store, &g, 123, 45, true);
    assert_eq!(get_window_settings(&store), WindowSettings { extra_width: 123, extra_height: 45, non_notch_mode: true });
    assert_eq!(frame.width, 283);
    assert_eq!(frame.height, 83);
    let mut other = WindowSettings { extra_width: 9, extra_height: 9, non_notch_mode: true };
    other.update(0, 0, false);
    assert_eq!(get_window_settings(&other), WindowSettings { extra_width: 0, extra_height: 0, non_notch_mode: false });
}

#[test]
fn ui_bounds_last_write_wins() {
    let mut store: Option<UiBounds> = None;
    update_ui_bounds(&mut store, 1, 2, 3, 4);
    update_ui_bounds(&mut store, 10, 20, 30, 40);
    assert_eq!(store, Some(UiBounds { x: 10, y: 20, width: 30, height: 40 }));
}

#[test]
fn geometry_heuristics() {
    let g = ScreenGeometry::from_display(1512, 982, 32);
    assert_eq!(g.notch_height, 98u32.clamp(38, 52));
    assert_eq!(g.notch_width, 200);
    let g = ScreenGeometry::from_display(3000, 300, 32);
    assert_eq!(g.notch_height, 38);
    assert_eq!(g.notch_width, 260);
    let g = ScreenGeometry::from_display(2300, 450, 5);
    assert_eq!(g.notch_height, 45);
    assert_eq!(g.notch_width, 230);
    let g = ScreenGeometry::from_display(1920, 1080, 0);
    assert_eq!(g.notch_height, 38);
    assert_eq!(g.notch_width, 180);
    assert!(g.has_notch());
    let d = ScreenGeometry::default_display();
    assert_eq!((d.screen_width, d.screen_height, d.notch_height, d.notch_width), (1920, 1080, 0, 0));
    assert!(!d.has_notch());
    assert_eq!(ScreenGeometry::without_notch(800, 600).notch_width, 0);
}

#[test]
fn notch_info_snapshot() {
    let info = get_notch_info(&ScreenGeometry { screen_width: 1512, screen_height: 982, notch_height: 52, notch_width: 200 });
    assert!(info.has_notch);
    assert_eq!(info.visible_height, 930);
    assert_eq!(info.screen_width, 1512);
    let flat = get_notch_info(&ScreenGeometry::without_notch(1920, 1080));
    assert!(!flat.has_notch);
    assert_eq!(flat.visible_height, 1080);
}

#[test]
fn positioning_primitives() {
    let g = notched(1512, 220);
    let p = position_at_notch(&g, 999);
    assert_eq!((p.x, p.y), (646, 0));
    let p = position_at_notch(&ScreenGeometry::without_notch(1000, 800), 300);
    assert_eq!((p.x, p.y), (350, 0));
    let f = fit_to_notch(&g, 412, 60);
    assert_eq!((f.width, f.height, f.x, f.y), (412, 60, 550, 0));
    let h = hover_window_frame(&g, true);
    assert_eq!((h.width, h.height, h.x), (620, 78, 446));
    let i = hover_window_frame(&g, false);
    assert_eq!((i.width, i.height, i.x), (340, 38, 586));
}
