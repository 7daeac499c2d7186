//! User-adjustable sizing of the overlay and the UI layer's last reported
//! footprint. The process keeps one value of each behind a lock; this module
//! defines the values and the operations that read and replace them.

use vstd::prelude::*;

verus! {

/// Default extra width around the notch footprint.
pub const DEFAULT_EXTRA_WIDTH: u32 = 400;

/// Default extra height below the notch.
pub const DEFAULT_EXTRA_HEIGHT: u32 = 800;

/// Sizing configuration chosen by the user.
#[derive(Clone, Copy, Debug, PartialEq, Eq, Structural)]
pub struct WindowSettings {
    /// Width added to the notch footprint and side panels.
    pub extra_width: u32,
    /// Height added below the notch.
    pub extra_height: u32,
    /// Ignore the notch: no notch width in the window, and a hit zone that
    /// collapses to the top pixel row.
    pub non_notch_mode: bool,
}

impl WindowSettings {
    pub open spec fn with_values(extra_width: u32, extra_height: u32, non_notch_mode: bool) -> WindowSettings {
        WindowSettings { extra_width, extra_height, non_notch_mode }
    }

    /// The settings after an update with the given values.
    pub open spec fn updated(self, extra_width: u32, extra_height: u32, non_notch_mode: bool) -> WindowSettings {
        WindowSettings { extra_width, extra_height, non_notch_mode }
    }

    /// Replaces every field; this is the one way the settings change.
    pub fn update(&mut self, extra_width: u32, extra_height: u32, non_notch_mode: bool)
        ensures
            *final(self) == old(self).updated(extra_width, extra_height, non_notch_mode),
    {
        self.extra_width = extra_width;
        self.extra_height = extra_height;
        self.non_notch_mode = non_notch_mode;
    }
}

impl Default for WindowSettings {
    fn default() -> (r: WindowSettings)
        ensures
            r == WindowSettings::with_values(DEFAULT_EXTRA_WIDTH, DEFAULT_EXTRA_HEIGHT, false),
    {
        WindowSettings {
            extra_width: DEFAULT_EXTRA_WIDTH,
            extra_height: DEFAULT_EXTRA_HEIGHT,
            non_notch_mode: false,
        }
    }
}

/// Copy of the settings held by a store.
pub fn get_window_settings(store: &WindowSettings) -> (r: WindowSettings)
    ensures
        r == *store,
{
    *store
}

/// Settings read back from persistence, or the defaults where nothing
/// usable was stored.
pub fn settings_or_default(stored: Option<WindowSettings>) -> (r: WindowSettings)
    ensures
        stored is Some ==> r == stored->0,
        stored is None ==> r == WindowSettings::with_values(
            DEFAULT_EXTRA_WIDTH,
            DEFAULT_EXTRA_HEIGHT,
            false,
        ),
{
    match stored {
        Some(s) => s,
        None => WindowSettings::default(),
    }
}

/// Reading the settings right after an update gives back exactly the values
/// that were written, whatever the settings were before.
pub proof fn lemma_update_then_get(
    before: WindowSettings,
    extra_width: u32,
    extra_height: u32,
    non_notch_mode: bool,
)
    ensures
        before.updated(extra_width, extra_height, non_notch_mode) == WindowSettings::with_values(
            extra_width,
            extra_height,
            non_notch_mode,
        ),
        before.updated(extra_width, extra_height, non_notch_mode).extra_width == extra_width,
        before.updated(extra_width, extra_height, non_notch_mode).extra_height == extra_height,
        before.updated(extra_width, extra_height, non_notch_mode).non_notch_mode == non_notch_mode,
{
}

/// Bounding box of the interactive UI, in window-local coordinates.
#[derive(Clone, Copy, Debug, PartialEq, Eq, Structural)]
pub struct UiBounds {
    pub x: i32,
    pub y: i32,
    pub width: u32,
    pub height: u32,
}

/// Records the footprint that the UI layer reported last.
pub fn update_ui_bounds(store: &mut Option<UiBounds>, x: i32, y: i32, width: u32, height: u32)
    ensures
        *final(store) == Some(UiBounds { x, y, width, height }),
{
    *store = Some(UiBounds { x, y, width, height });
}

} // verus!
