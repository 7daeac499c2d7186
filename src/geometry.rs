//! Screen geometry and the placement of the overlay window.
//!
//! All lengths are logical pixels. The window is anchored to the top edge of
//! the screen and centered horizontally.

use vstd::prelude::*;

verus! {

/// Width reserved beside the notch for the overlay's side panels.
pub const SIDE_PANELS_WIDTH: u32 = 160;

/// Band in which the approximated notch height is kept.
pub const NOTCH_MIN_HEIGHT: u32 = 38;
pub const NOTCH_MAX_HEIGHT: u32 = 52;

/// Band in which the approximated notch width is kept.
pub const NOTCH_MIN_WIDTH: u32 = 200;
pub const NOTCH_MAX_WIDTH: u32 = 260;

/// Notch footprint used when the display reports no top inset, so that a
/// stable default hit zone remains.
pub const NO_INSET_NOTCH_WIDTH: u32 = 180;
pub const NO_INSET_NOTCH_HEIGHT: u32 = 38;

/// Display assumed when nothing better is known.
pub const DEFAULT_SCREEN_WIDTH: u32 = 1920;
pub const DEFAULT_SCREEN_HEIGHT: u32 = 1080;

/// Normalized description of the primary display.
#[derive(Clone, Copy, Debug, PartialEq, Eq, Structural)]
pub struct ScreenGeometry {
    pub screen_width: u32,
    pub screen_height: u32,
    pub notch_height: u32,
    pub notch_width: u32,
}

/// `v` kept inside `[lo, hi]`.
pub open spec fn clamp(v: int, lo: int, hi: int) -> int {
    if v < lo {
        lo
    } else if v > hi {
        hi
    } else {
        v
    }
}

/// Approximated notch height: a tenth of the screen height, kept in its band.
pub open spec fn approx_notch_height(screen_height: int) -> int {
    clamp(screen_height / 10, NOTCH_MIN_HEIGHT as int, NOTCH_MAX_HEIGHT as int)
}

/// Approximated notch width: a tenth of the screen width, kept in its band.
pub open spec fn approx_notch_width(screen_width: int) -> int {
    clamp(screen_width / 10, NOTCH_MIN_WIDTH as int, NOTCH_MAX_WIDTH as int)
}

fn clamp_u32(v: u32, lo: u32, hi: u32) -> (r: u32)
    requires
        lo <= hi,
    ensures
        r == clamp(v as int, lo as int, hi as int),
{
    if v < lo {
        lo
    } else if v > hi {
        hi
    } else {
        v
    }
}

impl ScreenGeometry {
    pub open spec fn has_notch_spec(&self) -> bool {
        self.notch_height > 0
    }

    /// A display has a notch exactly when its notch height is positive.
    pub fn has_notch(&self) -> (r: bool)
        ensures
            r == self.has_notch_spec(),
    {
        self.notch_height > 0
    }

    /// Geometry reported when the display subsystem cannot be reached.
    pub fn zeroed() -> (r: ScreenGeometry)
        ensures
            r.screen_width == 0,
            r.screen_height == 0,
            r.notch_height == 0,
            r.notch_width == 0,
    {
        ScreenGeometry { screen_width: 0, screen_height: 0, notch_height: 0, notch_width: 0 }
    }

    /// A display known to have no notch.
    pub fn without_notch(screen_width: u32, screen_height: u32) -> (r: ScreenGeometry)
        ensures
            r.screen_width == screen_width,
            r.screen_height == screen_height,
            r.notch_height == 0,
            r.notch_width == 0,
    {
        ScreenGeometry { screen_width, screen_height, notch_height: 0, notch_width: 0 }
    }

    /// The documented default display: full HD without an inset.
    pub fn default_display() -> (r: ScreenGeometry)
        ensures
            r.screen_width == DEFAULT_SCREEN_WIDTH,
            r.screen_height == DEFAULT_SCREEN_HEIGHT,
            r.notch_height == 0,
            r.notch_width == 0,
    {
        Self::without_notch(DEFAULT_SCREEN_WIDTH, DEFAULT_SCREEN_HEIGHT)
    }

    /// Geometry of a display that reports its size and the height of the
    /// unusable inset at its top edge. The notch footprint is approximated
    /// from the screen size; with no inset a fixed footprint is used.
    pub fn from_display(screen_width: u32, screen_height: u32, inset_top: u32) -> (r:
        ScreenGeometry)
        ensures
            r.screen_width == screen_width,
            r.screen_height == screen_height,
            inset_top > 0 ==> r.notch_height == approx_notch_height(screen_height as int),
            inset_top > 0 ==> r.notch_width == approx_notch_width(screen_width as int),
            inset_top == 0 ==> r.notch_height == NO_INSET_NOTCH_HEIGHT,
            inset_top == 0 ==> r.notch_width == NO_INSET_NOTCH_WIDTH,
    {
        if inset_top > 0 {
            let notch_height = clamp_u32(screen_height / 10, NOTCH_MIN_HEIGHT, NOTCH_MAX_HEIGHT);
            let notch_width = clamp_u32(screen_width / 10, NOTCH_MIN_WIDTH, NOTCH_MAX_WIDTH);
            ScreenGeometry { screen_width, screen_height, notch_height, notch_width }
        } else {
            ScreenGeometry {
                screen_width,
                screen_height,
                notch_height: NO_INSET_NOTCH_HEIGHT,
                notch_width: NO_INSET_NOTCH_WIDTH,
            }
        }
    }
}

/// Snapshot of the display handed to the UI layer.
#[derive(Clone, Copy, Debug, PartialEq, Eq, Structural)]
pub struct NotchInfo {
    pub has_notch: bool,
    pub notch_height: u32,
    pub notch_width: u32,
    pub screen_width: u32,
    pub screen_height: u32,
    /// Height of the screen below the notch.
    pub visible_height: i64,
}

/// Describes `geometry` for the UI layer.
pub fn get_notch_info(geometry: &ScreenGeometry) -> (r: NotchInfo)
    ensures
        r.has_notch == (geometry.notch_height > 0),
        r.notch_height == geometry.notch_height,
        r.notch_width == geometry.notch_width,
        r.screen_width == geometry.screen_width,
        r.screen_height == geometry.screen_height,
        r.visible_height == geometry.screen_height - geometry.notch_height,
{
    NotchInfo {
        has_notch: geometry.has_notch(),
        notch_height: geometry.notch_height,
        notch_width: geometry.notch_width,
        screen_width: geometry.screen_width,
        screen_height: geometry.screen_height,
        visible_height: geometry.screen_height as i64 - geometry.notch_height as i64,
    }
}

/// Size and top-left position of a window, in screen coordinates.
#[derive(Clone, Copy, Debug, PartialEq, Eq, Structural)]
pub struct WindowFrame {
    pub width: i64,
    pub height: i64,
    pub x: i64,
    pub y: i64,
}

/// Top-left position of a window.
#[derive(Clone, Copy, Debug, PartialEq, Eq, Structural)]
pub struct WindowPosition {
    pub x: i64,
    pub y: i64,
}

/// Left edge of a window of width `width` centered on a screen of width
/// `screen_width` (rounded down when the slack is odd).
pub open spec fn centered_x(screen_width: int, width: int) -> int {
    (screen_width - width) / 2
}

/// Exec form of `centered_x`.
pub fn center_x(screen_width: u32, width: i64) -> (r: i64)
    requires
        -0x1_0000_0000_0000 <= width <= 0x1_0000_0000_0000,
    ensures
        r == centered_x(screen_width as int, width as int),
{
    let slack: i64 = screen_width as i64 - width;
    if slack >= 0 {
        slack / 2
    } else {
        -((-slack + 1) / 2)
    }
}

} // verus!
