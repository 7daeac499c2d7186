use notch_overlay::controller::{effects_of, HoverNotification, WindowController};
use notch_overlay::geometry::ScreenGeometry;
use notch_overlay::hover::{
    hover_tick, hover_zone, normalize_cursor, CursorOrigin, CursorPoint, HoverAction, HoverConfig,
    HoverDetector, HoverState, HoverZone,
};
use notch_overlay::settings::{UiBounds, WindowSettings};

fn tight_config() -> HoverConfig {
    HoverConfig::new(3, 8, 300, 250, 60, 50).unwrap()
}

fn zone_at_500() -> HoverZone {
    HoverZone {
        window_x: 500,
        fallback_x_start: 500,
        fallback_x_end: 600,
        fallback_y_end: 38,
        broad_padding_x: 300,
        broad_limit_y: 250,
    }
}

fn bounds() -> Option<UiBounds> {
    Some(UiBounds { x: 0, y: 0, width: 100, height: 40 })
}

#[test]
fn enters_over_ui_bounds() {
    let r = hover_tick(&tight_config(), &zone_at_500(), &bounds(), HoverState::Outside, &CursorPoint { x: 550, y: 10 });
    assert_eq!(r.state, HoverState::Inside);
    assert_eq!(r.action, HoverAction::Enter);
    let e = effects_of(r.action);
    assert_eq!(e.click_through, Some(false));
    assert!(e.activate);
    assert_eq!(e.notify, Some(HoverNotification::Entered));
}

#[test]
fn stays_inside_within_exit_padding() {
    let r = hover_tick(&tight_config(), &zone_at_500(), &bounds(), HoverState::Inside, &CursorPoint { x: 500 - 5, y: 10 });
    assert_eq!(r.state, HoverState::Inside);
    assert_eq!(r.action, HoverAction::Stay);
    assert_eq!(effects_of(r.action).click_through, None);
}

#[test]
fn exits_beyond_exit_padding() {
    let r = hover_tick(&tight_config(), &zone_at_500(), &bounds(), HoverState::Inside, &CursorPoint { x: 500 - 9, y: 10 });
    assert_eq!(r.state, HoverState::Outside);
    assert_eq!(r.action, HoverAction::Exit);
    let mut c = WindowController { click_through: false };
    let e = c.apply_hover_action(r.action);
    assert_eq!(e.click_through, Some(true));
    assert_eq!(e.notify, Some(HoverNotification::Exited));
    assert!(c.click_through);
}

#[test]
fn same_point_does_not_enter_with_enter_padding() {
    // 5px outside: inside the exit padding but not the enter padding.
    let r = hover_tick(&tight_config(), &zone_at_500(), &bounds(), HoverState::Outside, &CursorPoint { x: 495, y: 10 });
    assert_eq!(r.state, HoverState::Outside);
    assert_eq!(r.action, HoverAction::Stay);
}

#[test]
fn non_notch_mode_collapses_fallback() {
    let g = ScreenGeometry { screen_width: 1512, screen_height: 982, notch_height: 38, notch_width: 220 };
    let s = WindowSettings { extra_width: 400, extra_height: 200, non_notch_mode: true };
    let z = hover_zone(&g, &s, &HoverConfig::default());
    assert_eq!(z.fallback_x_start, 756);
    assert_eq!(z.fallback_x_end, z.fallback_x_start);
    assert_eq!(z.fallback_y_end, 1);
    assert_eq!(z.broad_padding_x, 60);
    assert_eq!(z.broad_limit_y, 50);
    let with_notch = hover_zone(&g, &WindowSettings { non_notch_mode: false, ..s }, &HoverConfig::default());
    assert_eq!(with_notch.fallback_y_end, 38);
    assert_eq!((with_notch.fallback_x_start, with_notch.fallback_x_end), (646, 866));
    assert_eq!(with_notch.window_x, (1512 - 780) / 2);
    assert_eq!(with_notch.broad_padding_x, 300);
}

#[test]
fn fallback_zone_used_without_bounds() {
    let cfg = tight_config();
    let z = zone_at_500();
    let hit = hover_tick(&cfg, &z, &None, HoverState::Outside, &CursorPoint { x: 603, y: 41 });
    assert_eq!(hit.state, HoverState::Inside);
    let miss = hover_tick(&cfg, &z, &None, HoverState::Outside, &CursorPoint { x: 604, y: 10 });
    assert_eq!(miss.state, HoverState::Outside);
    let above = hover_tick(&cfg, &z, &None, HoverState::Outside, &CursorPoint { x: 550, y: -3 });
    assert_eq!(above.state, HoverState::Inside);
}

#[test]
fn prefilter_skips_far_cursor_only_when_outside() {
    let cfg = HoverConfig::new(3, 8, 10, 20, 10, 20).unwrap();
    let z = HoverZone { broad_padding_x: 10, broad_limit_y: 20, ..zone_at_500() };
    let wide = Some(UiBounds { x: -400, y: 0, width: 1000, height: 400 });
    let far = CursorPoint { x: 150, y: 300 };
    let out = hover_tick(&cfg, &z, &wide, HoverState::Outside, &far);
    assert_eq!(out.state, HoverState::Outside);
    let inside = hover_tick(&cfg, &z, &wide, HoverState::Inside, &far);
    assert_eq!(inside.state, HoverState::Inside);
}

#[test]
fn trajectory_through_gap_does_not_flicker() {
    let cfg = tight_config();
    let z = zone_at_500();
    let path = [510, 498, 495, 493, 497, 492, 496, 499, 494];
    let mut state = HoverState::Outside;
    let mut enters = 0;
    let mut exits = 0;
    for x in path {
        let r = hover_tick(&cfg, &z, &bounds(), state, &CursorPoint { x, y: 10 });
        match r.action {
            HoverAction::Enter => enters += 1,
            HoverAction::Exit => exits += 1,
            HoverAction::Stay => {}
        }
        state = r.state;
    }
    assert_eq!((enters, exits), (1, 0));
    let r = hover_tick(&cfg, &z, &bounds(), state, &CursorPoint { x: 480, y: 10 });
    assert_eq!(r.action, HoverAction::Exit);
}

#[test]
fn config_requires_enter_below_exit() {
    assert!(HoverConfig::new(8, 8, 0, 0, 0, 0).is_none());
    assert!(HoverConfig::new(9, 8, 0, 0, 0, 0).is_none());
    let c = HoverConfig::new(3, 8, 1, 2, 3, 4).unwrap();
    assert_eq!((c.enter_padding, c.exit_padding, c.compact_broad_limit_y), (3, 8, 4));
    let d = HoverConfig::default();
    assert_eq!((d.enter_padding, d.exit_padding, d.broad_padding_x, d.broad_limit_y), (20, 30, 300, 250));
    assert_eq!((d.padding(HoverState::Outside), d.padding(HoverState::Inside)), (20, 30));
}

#[test]
fn cursor_normalization() {
    let p = normalize_cursor(CursorOrigin::BottomLeft, 982, 700, 975);
    assert_eq!((p.x, p.y), (700, 7));
    let q = normalize_cursor(CursorOrigin::TopLeft, 982, 700, 975);
    assert_eq!((q.x, q.y), (700, 975));
}

#[test]
fn detector_samples_and_refresh_counter() {
    let mut d = HoverDetector::new(982);
    assert_eq!(d.state, HoverState::Outside);
    let mut refreshes = 0;
    for _ in 0..1000 {
        if d.advance_refresh_counter() {
            refreshes += 1;
        }
    }
    assert_eq!(refreshes, 2);
    d.refresh_counter = u16::MAX;
    assert!(d.advance_refresh_counter());
    assert_eq!(d.refresh_counter, 0);
    let cfg = tight_config();
    let z = zone_at_500();
    let a = d.sample(&cfg, &z, &bounds(), CursorOrigin::BottomLeft, 550, 972);
    assert_eq!(a, HoverAction::Enter);
    assert_eq!(d.state, HoverState::Inside);
    d.set_screen_height(2000);
    assert_eq!(d.screen_height, 2000);
    let b = d.sample(&cfg, &z, &bounds(), CursorOrigin::BottomLeft, 550, 972);
    assert_eq!(b, HoverAction::Exit);
}

#[test]
fn click_through_is_idempotent() {
    let mut c = WindowController::new();
    assert!(c.click_through);
    assert!(c.set_click_through(false));
    let once = c;
    assert!(!c.set_click_through(false));
    assert_eq!(c, once);
    assert!(!c.click_through);
    let mut d = WindowController::new();
    let e = d.apply_hover_action(HoverAction::Stay);
    assert_eq!(e.click_through, None);
    assert!(d.click_through);
    let e = d.apply_hover_action(HoverAction::Enter);
    assert_eq!(e.click_through, Some(false));
    assert!(!d.click_through);
}
