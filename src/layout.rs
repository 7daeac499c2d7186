//! Where the overlay window goes: its fixed size derived from the display and
//! the user's settings, and the direct positioning primitives.

use crate::geometry::{center_x, centered_x, ScreenGeometry, WindowFrame, WindowPosition, SIDE_PANELS_WIDTH};
use crate::settings::WindowSettings;
use vstd::prelude::*;

verus! {

/// Width added on each side of the notch while the overlay is hovered.
pub const HOVER_EXTRA_WIDTH: u32 = 400;

/// Height added below the notch while the overlay is hovered.
pub const HOVER_EXTRA_HEIGHT: u32 = 40;

/// Width of the media content shown beside the notch while not hovered.
pub const IDLE_EXTRA_WIDTH: u32 = 120;

/// Notch width that the sizing takes into account: none in non-notch mode.
pub open spec fn effective_notch_width(geometry: ScreenGeometry, settings: WindowSettings) -> int {
    if settings.non_notch_mode {
        0
    } else {
        geometry.notch_width as int
    }
}

/// Width of the overlay window: notch, side panels and the user's extra width.
pub open spec fn target_width(geometry: ScreenGeometry, settings: WindowSettings) -> int {
    effective_notch_width(geometry, settings) + SIDE_PANELS_WIDTH + settings.extra_width
}

/// Height of the overlay window: notch and the user's extra height.
pub open spec fn target_height(geometry: ScreenGeometry, settings: WindowSettings) -> int {
    geometry.notch_height + settings.extra_height
}

/// The frame that the overlay must have for a display and settings.
pub open spec fn fixed_frame(geometry: ScreenGeometry, settings: WindowSettings) -> WindowFrame {
    WindowFrame {
        width: target_width(geometry, settings) as i64,
        height: target_height(geometry, settings) as i64,
        x: centered_x(geometry.screen_width as int, target_width(geometry, settings)) as i64,
        y: 0,
    }
}

/// Exec form of `effective_notch_width`.
pub fn effective_notch_width_of(geometry: &ScreenGeometry, settings: &WindowSettings) -> (r: u32)
    ensures
        r == effective_notch_width(*geometry, *settings),
{
    if settings.non_notch_mode {
        0
    } else {
        geometry.notch_width
    }
}

/// Size and position of the overlay: as wide as the notch (when counted),
/// the side panels and the extra width, as tall as the notch and the extra
/// height, centered at the top edge of the screen.
pub fn fixed_window_frame(geometry: &ScreenGeometry, settings: &WindowSettings) -> (r: WindowFrame)
    ensures
        r.width == target_width(*geometry, *settings),
        r.height == target_height(*geometry, *settings),
        r.x == centered_x(geometry.screen_width as int, r.width as int),
        r.y == 0,
        r == fixed_frame(*geometry, *settings),
{
    let notch = effective_notch_width_of(geometry, settings);
    let width: i64 = notch as i64 + SIDE_PANELS_WIDTH as i64 + settings.extra_width as i64;
    let height: i64 = geometry.notch_height as i64 + settings.extra_height as i64;
    let x = center_x(geometry.screen_width, width);
    WindowFrame { width, height, x, y: 0 }
}

/// Applies new settings and returns the frame that the overlay must take
/// right away.
pub fn update_window_settings(
    settings: &mut WindowSettings,
    geometry: &ScreenGeometry,
    extra_width: u32,
    extra_height: u32,
    non_notch_mode: bool,
) -> (r: WindowFrame)
    ensures
        *final(settings) == old(settings).updated(extra_width, extra_height, non_notch_mode),
        r == fixed_frame(*geometry, *final(settings)),
{
    settings.update(extra_width, extra_height, non_notch_mode);
    fixed_window_frame(geometry, settings)
}

/// Position that centers a window over the notch: the notch width is used
/// when known, else the window's current width.
pub fn position_at_notch(geometry: &ScreenGeometry, current_width: u32) -> (r: WindowPosition)
    ensures
        geometry.notch_width > 0 ==> r.x == centered_x(
            geometry.screen_width as int,
            geometry.notch_width as int,
        ),
        geometry.notch_width == 0 ==> r.x == centered_x(
            geometry.screen_width as int,
            current_width as int,
        ),
        r.y == 0,
{
    let width: u32 = if geometry.notch_width > 0 {
        geometry.notch_width
    } else {
        current_width
    };
    WindowPosition { x: center_x(geometry.screen_width, width as i64), y: 0 }
}

/// Frame of the given size, centered at the top edge of the screen.
pub fn fit_to_notch(geometry: &ScreenGeometry, width: u32, height: u32) -> (r: WindowFrame)
    ensures
        r.width == width,
        r.height == height,
        r.x == centered_x(geometry.screen_width as int, width as int),
        r.y == 0,
{
    WindowFrame {
        width: width as i64,
        height: height as i64,
        x: center_x(geometry.screen_width, width as i64),
        y: 0,
    }
}

/// Frame of the overlay in its hovered or idle size: hovered it is wider by
/// the hover width and taller by the hover height; idle it is only as wide
/// as the media content beside the notch and as tall as the notch.
pub fn hover_window_frame(geometry: &ScreenGeometry, hovered: bool) -> (r: WindowFrame)
    ensures
        hovered ==> r.width == geometry.notch_width + HOVER_EXTRA_WIDTH,
        hovered ==> r.height == geometry.notch_height + HOVER_EXTRA_HEIGHT,
        !hovered ==> r.width == geometry.notch_width + IDLE_EXTRA_WIDTH,
        !hovered ==> r.height == geometry.notch_height,
        r.x == centered_x(geometry.screen_width as int, r.width as int),
        r.y == 0,
{
    let (width, height): (i64, i64) = if hovered {
        (
            geometry.notch_width as i64 + HOVER_EXTRA_WIDTH as i64,
            geometry.notch_height as i64 + HOVER_EXTRA_HEIGHT as i64,
        )
    } else {
        (geometry.notch_width as i64 + IDLE_EXTRA_WIDTH as i64, geometry.notch_height as i64)
    };
    WindowFrame { width, height, x: center_x(geometry.screen_width, width), y: 0 }
}

} // verus!
