//! Hover detection: decides, one cursor sample at a time, whether the cursor
//! is over the overlay's interactive area. Two paddings give hysteresis: a
//! tight one to enter and a looser one to leave, so a cursor resting on an
//! edge does not make the overlay flicker.

use crate::geometry::{center_x, centered_x, ScreenGeometry};
use crate::layout::{effective_notch_width, effective_notch_width_of, fixed_frame, fixed_window_frame};
use crate::settings::{UiBounds, WindowSettings};
use vstd::prelude::*;

verus! {

/// Padding around the hit zone while the cursor is outside.
pub const ENTER_PADDING: u32 = 20;

/// Padding around the hit zone while the cursor is inside.
pub const EXIT_PADDING: u32 = 30;

/// Horizontal and vertical reach of the cheap pre-filter around the notch.
pub const BROAD_PADDING_X: u32 = 300;
pub const BROAD_LIMIT_Y: u32 = 250;

/// The same reach in non-notch mode, kept small to avoid accidental triggers.
pub const COMPACT_BROAD_PADDING_X: u32 = 60;
pub const COMPACT_BROAD_LIMIT_Y: u32 = 50;

/// Height of the fallback zone in non-notch mode: the top pixel row.
pub const NON_NOTCH_ZONE_HEIGHT: u32 = 1;

/// Time between two cursor samples.
pub const POLL_INTERVAL_MS: u64 = 20;

/// Number of samples between two refreshes of the cached screen height.
pub const SCREEN_REFRESH_TICKS: u16 = 500;

/// Largest magnitude of a zone coordinate.
pub const ZONE_LIMIT: i64 = 0x1_0000_0000_0000;

/// Whether the cursor is over the interactive area.
#[derive(Clone, Copy, Debug, PartialEq, Eq, Structural)]
pub enum HoverState {
    Outside,
    Inside,
}

/// What a sample changed.
#[derive(Clone, Copy, Debug, PartialEq, Eq, Structural)]
pub enum HoverAction {
    /// No transition: nothing to do.
    Stay,
    /// The cursor came in: stop click-through, activate the window, and
    /// announce the entry.
    Enter,
    /// The cursor left: restore click-through and announce the exit.
    Exit,
}

/// Tunable constants of the detector. A usable configuration has its enter
/// padding below its exit padding (`wf`).
#[derive(Clone, Copy, Debug, PartialEq, Eq, Structural)]
pub struct HoverConfig {
    pub enter_padding: u32,
    pub exit_padding: u32,
    pub broad_padding_x: u32,
    pub broad_limit_y: u32,
    pub compact_broad_padding_x: u32,
    pub compact_broad_limit_y: u32,
}

impl HoverConfig {
    pub open spec fn wf(self) -> bool {
        self.enter_padding < self.exit_padding
    }

    /// A configuration, or `None` when the enter padding is not below the
    /// exit padding.
    pub fn new(
        enter_padding: u32,
        exit_padding: u32,
        broad_padding_x: u32,
        broad_limit_y: u32,
        compact_broad_padding_x: u32,
        compact_broad_limit_y: u32,
    ) -> (r: Option<HoverConfig>)
        ensures
            r is Some <==> enter_padding < exit_padding,
            r matches Some(c) ==> c.wf() && c == (HoverConfig {
                enter_padding,
                exit_padding,
                broad_padding_x,
                broad_limit_y,
                compact_broad_padding_x,
                compact_broad_limit_y,
            }),
    {
        if enter_padding < exit_padding {
            Some(
                HoverConfig {
                    enter_padding,
                    exit_padding,
                    broad_padding_x,
                    broad_limit_y,
                    compact_broad_padding_x,
                    compact_broad_limit_y,
                },
            )
        } else {
            None
        }
    }

    /// Padding in force in a state: the enter padding outside, the exit
    /// padding inside.
    pub open spec fn padding_for(self, state: HoverState) -> int {
        match state {
            HoverState::Outside => self.enter_padding as int,
            HoverState::Inside => self.exit_padding as int,
        }
    }

    pub fn padding(&self, state: HoverState) -> (r: u32)
        ensures
            r == self.padding_for(state),
    {
        match state {
            HoverState::Outside => self.enter_padding,
            HoverState::Inside => self.exit_padding,
        }
    }
}

impl Default for HoverConfig {
    fn default() -> (r: HoverConfig)
        ensures
            r.wf(),
            r == (HoverConfig {
                enter_padding: ENTER_PADDING,
                exit_padding: EXIT_PADDING,
                broad_padding_x: BROAD_PADDING_X,
                broad_limit_y: BROAD_LIMIT_Y,
                compact_broad_padding_x: COMPACT_BROAD_PADDING_X,
                compact_broad_limit_y: COMPACT_BROAD_LIMIT_Y,
            }),
    {
        HoverConfig {
            enter_padding: ENTER_PADDING,
            exit_padding: EXIT_PADDING,
            broad_padding_x: BROAD_PADDING_X,
            broad_limit_y: BROAD_LIMIT_Y,
            compact_broad_padding_x: COMPACT_BROAD_PADDING_X,
            compact_broad_limit_y: COMPACT_BROAD_LIMIT_Y,
        }
    }
}

/// Cursor position in screen coordinates, `y` measured down from the top
/// edge of the screen.
#[derive(Clone, Copy, Debug, PartialEq, Eq, Structural)]
pub struct CursorPoint {
    pub x: i64,
    pub y: i64,
}

/// Where the platform puts the origin of its cursor coordinates.
#[derive(Clone, Copy, Debug, PartialEq, Eq, Structural)]
pub enum CursorOrigin {
    TopLeft,
    BottomLeft,
}

/// A native cursor position expressed as a distance from the top edge.
pub open spec fn normalized_cursor(origin: CursorOrigin, screen_height: int, x: int, y: int) -> CursorPoint {
    match origin {
        CursorOrigin::TopLeft => CursorPoint { x: x as i64, y: y as i64 },
        CursorOrigin::BottomLeft => CursorPoint { x: x as i64, y: (screen_height - y) as i64 },
    }
}

/// Exec form of `normalized_cursor`.
pub fn normalize_cursor(origin: CursorOrigin, screen_height: u32, x: i32, y: i32) -> (r: CursorPoint)
    ensures
        r.x == x,
        origin == CursorOrigin::TopLeft ==> r.y == y,
        origin == CursorOrigin::BottomLeft ==> r.y == screen_height - y,
        r == normalized_cursor(origin, screen_height as int, x as int, y as int),
{
    match origin {
        CursorOrigin::TopLeft => CursorPoint { x: x as i64, y: y as i64 },
        CursorOrigin::BottomLeft => CursorPoint { x: x as i64, y: screen_height as i64 - y as i64 },
    }
}

/// The regions a sample is tested against, derived from the display, the
/// settings and the configuration.
#[derive(Clone, Copy, Debug, PartialEq, Eq, Structural)]
pub struct HoverZone {
    /// Left edge of the overlay window on screen.
    pub window_x: i64,
    /// Horizontal extent of the fallback zone under the notch.
    pub fallback_x_start: i64,
    pub fallback_x_end: i64,
    /// Lower edge of the fallback zone.
    pub fallback_y_end: i64,
    /// Reach of the pre-filter beside and below the fallback zone.
    pub broad_padding_x: i64,
    pub broad_limit_y: i64,
}

impl HoverZone {
    pub open spec fn wf(self) -> bool {
        &&& -ZONE_LIMIT <= self.window_x <= ZONE_LIMIT
        &&& -ZONE_LIMIT <= self.fallback_x_start <= ZONE_LIMIT
        &&& -ZONE_LIMIT <= self.fallback_x_end <= ZONE_LIMIT
        &&& -ZONE_LIMIT <= self.fallback_y_end <= ZONE_LIMIT
        &&& -ZONE_LIMIT <= self.broad_padding_x <= ZONE_LIMIT
        &&& -ZONE_LIMIT <= self.broad_limit_y <= ZONE_LIMIT
    }
}

/// Builds the zones for a display, settings and configuration. The window's
/// left edge is the one that the fixed window frame has; the fallback zone is
/// the notch, centered under the window, and collapses to the top pixel row
/// in non-notch mode.
pub fn hover_zone(geometry: &ScreenGeometry, settings: &WindowSettings, config: &HoverConfig) -> (z:
    HoverZone)
    ensures
        z.wf(),
        z.window_x == fixed_frame(*geometry, *settings).x,
        z.fallback_x_start == centered_x(
            geometry.screen_width as int,
            effective_notch_width(*geometry, *settings),
        ),
        z.fallback_x_end == z.fallback_x_start + effective_notch_width(*geometry, *settings),
        settings.non_notch_mode ==> z.fallback_y_end == NON_NOTCH_ZONE_HEIGHT,
        !settings.non_notch_mode ==> z.fallback_y_end == geometry.notch_height,
        settings.non_notch_mode ==> z.broad_padding_x == config.compact_broad_padding_x,
        settings.non_notch_mode ==> z.broad_limit_y == config.compact_broad_limit_y,
        !settings.non_notch_mode ==> z.broad_padding_x == config.broad_padding_x,
        !settings.non_notch_mode ==> z.broad_limit_y == config.broad_limit_y,
{
    let frame = fixed_window_frame(geometry, settings);
    let notch = effective_notch_width_of(geometry, settings);
    let x_start = center_x(geometry.screen_width, notch as i64);
    let (y_end, broad_x, broad_y): (u32, u32, u32) = if settings.non_notch_mode {
        (NON_NOTCH_ZONE_HEIGHT, config.compact_broad_padding_x, config.compact_broad_limit_y)
    } else {
        (geometry.notch_height, config.broad_padding_x, config.broad_limit_y)
    };
    HoverZone {
        window_x: frame.x,
        fallback_x_start: x_start,
        fallback_x_end: x_start + notch as i64,
        fallback_y_end: y_end as i64,
        broad_padding_x: broad_x as i64,
        broad_limit_y: broad_y as i64,
    }
}

/// The cursor lies in the fallback zone grown by `pad` on every side.
pub open spec fn in_fallback_zone(z: HoverZone, pad: int, c: CursorPoint) -> bool {
    &&& z.fallback_x_start - pad <= c.x <= z.fallback_x_end + pad
    &&& -pad <= c.y <= z.fallback_y_end + pad
}

/// The cursor lies in the UI bounds, moved onto the screen by the window's
/// left edge and grown by `pad` on every side.
pub open spec fn in_ui_zone(z: HoverZone, b: UiBounds, pad: int, c: CursorPoint) -> bool {
    let sx = z.window_x + b.x;
    &&& sx - pad <= c.x <= sx + b.width + pad
    &&& b.y - pad <= c.y <= b.y + b.height + pad
}

/// The hit test: against the UI bounds when they are known, else against the
/// fallback zone.
pub open spec fn in_hit_zone(z: HoverZone, bounds: Option<UiBounds>, pad: int, c: CursorPoint) -> bool {
    match bounds {
        Some(b) => in_ui_zone(z, b, pad, c),
        None => in_fallback_zone(z, pad, c),
    }
}

/// The cheap pre-filter: near the notch horizontally and high enough.
pub open spec fn in_broad_region(z: HoverZone, c: CursorPoint) -> bool {
    &&& z.fallback_x_start - z.broad_padding_x <= c.x <= z.fallback_x_end + z.broad_padding_x
    &&& c.y <= z.broad_limit_y
}

/// State after one sample. Outside and far away, the sample is skipped;
/// otherwise the hit test with the padding of the current state decides.
pub open spec fn next_state(
    config: HoverConfig,
    z: HoverZone,
    bounds: Option<UiBounds>,
    state: HoverState,
    c: CursorPoint,
) -> HoverState {
    if state == HoverState::Outside && !in_broad_region(z, c) {
        HoverState::Outside
    } else if in_hit_zone(z, bounds, config.padding_for(state), c) {
        HoverState::Inside
    } else {
        HoverState::Outside
    }
}

/// The action that a change of state calls for.
pub open spec fn action_between(from: HoverState, to: HoverState) -> HoverAction {
    if from == HoverState::Outside && to == HoverState::Inside {
        HoverAction::Enter
    } else if from == HoverState::Inside && to == HoverState::Outside {
        HoverAction::Exit
    } else {
        HoverAction::Stay
    }
}

/// Exec form of `in_broad_region`.
pub fn broad_region_contains(z: &HoverZone, c: &CursorPoint) -> (r: bool)
    requires
        z.wf(),
    ensures
        r == in_broad_region(*z, *c),
{
    c.x >= z.fallback_x_start - z.broad_padding_x && c.x <= z.fallback_x_end + z.broad_padding_x
        && c.y <= z.broad_limit_y
}

/// Exec form of `in_hit_zone`.
pub fn hit_zone_contains(z: &HoverZone, bounds: &Option<UiBounds>, pad: u32, c: &CursorPoint) -> (r:
    bool)
    requires
        z.wf(),
    ensures
        r == in_hit_zone(*z, *bounds, pad as int, *c),
{
    let p = pad as i64;
    match bounds {
        Some(b) => {
            let sx = z.window_x + b.x as i64;
            c.x >= sx - p && c.x <= sx + b.width as i64 + p && c.y >= b.y as i64 - p && c.y
                <= b.y as i64 + b.height as i64 + p
        },
        None => {
            c.x >= z.fallback_x_start - p && c.x <= z.fallback_x_end + p && c.y >= -p && c.y
                <= z.fallback_y_end + p
        },
    }
}

/// Result of one sample.
#[derive(Clone, Copy, Debug, PartialEq, Eq, Structural)]
pub struct HoverStep {
    pub state: HoverState,
    pub action: HoverAction,
}

/// Evaluates one cursor sample. `bounds` is the UI footprint when it could be
/// read, `None` when it is unknown or its lock was busy.
pub fn hover_tick(
    config: &HoverConfig,
    z: &HoverZone,
    bounds: &Option<UiBounds>,
    state: HoverState,
    c: &CursorPoint,
) -> (r: HoverStep)
    requires
        config.wf(),
        z.wf(),
    ensures
        r.state == next_state(*config, *z, *bounds, state, *c),
        r.action == action_between(state, r.state),
{
    if state == HoverState::Outside && !broad_region_contains(z, c) {
        return HoverStep { state: HoverState::Outside, action: HoverAction::Stay };
    }
    let pad = config.padding(state);
    let inside = hit_zone_contains(z, bounds, pad, c);
    match (state, inside) {
        (HoverState::Outside, true) => HoverStep { state: HoverState::Inside, action: HoverAction::Enter },
        (HoverState::Inside, false) => HoverStep { state: HoverState::Outside, action: HoverAction::Exit },
        (HoverState::Outside, false) => HoverStep { state: HoverState::Outside, action: HoverAction::Stay },
        (HoverState::Inside, true) => HoverStep { state: HoverState::Inside, action: HoverAction::Stay },
    }
}

/// State that the polling loop carries from one sample to the next.
#[derive(Clone, Copy, Debug, PartialEq, Eq, Structural)]
pub struct HoverDetector {
    pub state: HoverState,
    /// Samples taken since the screen height was last refreshed, wrapping.
    pub refresh_counter: u16,
    /// Screen height used to flip bottom-left cursor coordinates.
    pub screen_height: u32,
}

impl HoverDetector {
    /// A detector that starts outside, with a freshly read screen height.
    pub fn new(screen_height: u32) -> (r: HoverDetector)
        ensures
            r.state == HoverState::Outside,
            r.refresh_counter == 0,
            r.screen_height == screen_height,
    {
        HoverDetector { state: HoverState::Outside, refresh_counter: 0, screen_height }
    }

    /// Counts one sample; true when the cached screen height is due for a
    /// refresh.
    pub fn advance_refresh_counter(&mut self) -> (refresh: bool)
        ensures
            final(self).refresh_counter == (old(self).refresh_counter + 1) % 0x1_0000,
            refresh == (final(self).refresh_counter % SCREEN_REFRESH_TICKS == 0),
            final(self).state == old(self).state,
            final(self).screen_height == old(self).screen_height,
    {
        if self.refresh_counter == u16::MAX {
            self.refresh_counter = 0;
        } else {
            self.refresh_counter = self.refresh_counter + 1;
        }
        self.refresh_counter % SCREEN_REFRESH_TICKS == 0
    }

    /// Replaces the cached screen height.
    pub fn set_screen_height(&mut self, screen_height: u32)
        ensures
            *final(self) == (HoverDetector { screen_height, ..*old(self) }),
    {
        self.screen_height = screen_height;
    }

    /// Takes one native cursor sample: normalizes it with the cached screen
    /// height, moves to the next state and returns the action to perform.
    pub fn sample(
        &mut self,
        config: &HoverConfig,
        z: &HoverZone,
        bounds: &Option<UiBounds>,
        origin: CursorOrigin,
        x: i32,
        y: i32,
    ) -> (r: HoverAction)
        requires
            config.wf(),
            z.wf(),
        ensures
            final(self).state == next_state(
                *config,
                *z,
                *bounds,
                old(self).state,
                normalized_cursor(origin, old(self).screen_height as int, x as int, y as int),
            ),
            r == action_between(old(self).state, final(self).state),
            final(self).refresh_counter == old(self).refresh_counter,
            final(self).screen_height == old(self).screen_height,
    {
        let c = normalize_cursor(origin, self.screen_height, x, y);
        let step = hover_tick(config, z, bounds, self.state, &c);
        self.state = step.state;
        step.action
    }
}

/// Growing the padding only grows the hit zone: a cursor that passes the
/// test with the enter padding passes it with the exit padding too.
pub proof fn lemma_hit_zone_grows(
    z: HoverZone,
    bounds: Option<UiBounds>,
    small: int,
    large: int,
    c: CursorPoint,
)
    requires
        small <= large,
        in_hit_zone(z, bounds, small, c),
    ensures
        in_hit_zone(z, bounds, large, c),
{
}

/// Actions produced by feeding the samples of `path` one after the other,
/// starting in `state`.
pub open spec fn trace(
    config: HoverConfig,
    z: HoverZone,
    bounds: Option<UiBounds>,
    state: HoverState,
    path: Seq<CursorPoint>,
) -> Seq<HoverAction>
    decreases path.len(),
{
    if path.len() == 0 {
        Seq::empty()
    } else {
        let next = next_state(config, z, bounds, state, path[0]);
        seq![action_between(state, next)] + trace(config, z, bounds, next, path.drop_first())
    }
}

/// Number of times `a` occurs in `actions`.
pub open spec fn count_action(actions: Seq<HoverAction>, a: HoverAction) -> nat
    decreases actions.len(),
{
    if actions.len() == 0 {
        0
    } else {
        (if actions[0] == a {
            1nat
        } else {
            0nat
        }) + count_action(actions.drop_first(), a)
    }
}

proof fn lemma_count_after_first(x: HoverAction, rest: Seq<HoverAction>, a: HoverAction)
    ensures
        count_action(seq![x] + rest, a) == (if x == a {
            1nat
        } else {
            0nat
        }) + count_action(rest, a),
{
    assert((seq![x] + rest).drop_first() =~= rest);
}

proof fn lemma_inside_stays_quiet(
    config: HoverConfig,
    z: HoverZone,
    bounds: Option<UiBounds>,
    path: Seq<CursorPoint>,
)
    requires
        config.wf(),
        forall|i: int| 0 <= i < path.len() ==> in_hit_zone(z, bounds, config.exit_padding as int, #[trigger] path[i]),
    ensures
        count_action(trace(config, z, bounds, HoverState::Inside, path), HoverAction::Enter) == 0,
        count_action(trace(config, z, bounds, HoverState::Inside, path), HoverAction::Exit) == 0,
    decreases path.len(),
{
    if path.len() > 0 {
        let rest = path.drop_first();
        assert forall|i: int| 0 <= i < rest.len() implies in_hit_zone(z, bounds, config.exit_padding as int, #[trigger] rest[i]) by {
            assert(rest[i] == path[i + 1]);
        }
        lemma_inside_stays_quiet(config, z, bounds, rest);
        let tail = trace(config, z, bounds, HoverState::Inside, rest);
        assert(next_state(config, z, bounds, HoverState::Inside, path[0]) == HoverState::Inside);
        lemma_count_after_first(HoverAction::Stay, tail, HoverAction::Enter);
        lemma_count_after_first(HoverAction::Stay, tail, HoverAction::Exit);
    }
}

/// No flicker: while the cursor wanders anywhere within the exit-padded zone
/// (crossing the enter boundary back and forth through the gap between the
/// two paddings), the detector announces at most one entry and no exit.
pub proof fn lemma_no_flicker(
    config: HoverConfig,
    z: HoverZone,
    bounds: Option<UiBounds>,
    state: HoverState,
    path: Seq<CursorPoint>,
)
    requires
        config.wf(),
        forall|i: int| 0 <= i < path.len() ==> in_hit_zone(z, bounds, config.exit_padding as int, #[trigger] path[i]),
    ensures
        count_action(trace(config, z, bounds, state, path), HoverAction::Enter) <= 1,
        count_action(trace(config, z, bounds, state, path), HoverAction::Exit) == 0,
    decreases path.len(),
{
    if state == HoverState::Inside {
        lemma_inside_stays_quiet(config, z, bounds, path);
    } else if path.len() > 0 {
        let rest = path.drop_first();
        assert forall|i: int| 0 <= i < rest.len() implies in_hit_zone(z, bounds, config.exit_padding as int, #[trigger] rest[i]) by {
            assert(rest[i] == path[i + 1]);
        }
        let next = next_state(config, z, bounds, state, path[0]);
        let tail = trace(config, z, bounds, next, rest);
        lemma_count_after_first(action_between(state, next), tail, HoverAction::Enter);
        lemma_count_after_first(action_between(state, next), tail, HoverAction::Exit);
        if next == HoverState::Inside {
            lemma_inside_stays_quiet(config, z, bounds, rest);
        } else {
            lemma_no_flicker(config, z, bounds, next, rest);
        }
    }
}

/// Entry and exit notifications alternate: starting outside, every exit is
/// preceded by its own entry and at most one entry is pending; starting
/// inside, the same holds with the roles swapped.
pub proof fn lemma_notifications_alternate(
    config: HoverConfig,
    z: HoverZone,
    bounds: Option<UiBounds>,
    state: HoverState,
    path: Seq<CursorPoint>,
)
    ensures
        ({
            let actions = trace(config, z, bounds, state, path);
            let enters = count_action(actions, HoverAction::Enter);
            let exits = count_action(actions, HoverAction::Exit);
            &&& state == HoverState::Outside ==> exits <= enters <= exits + 1
            &&& state == HoverState::Inside ==> enters <= exits <= enters + 1
        }),
    decreases path.len(),
{
    if path.len() > 0 {
        let rest = path.drop_first();
        let next = next_state(config, z, bounds, state, path[0]);
        let tail = trace(config, z, bounds, next, rest);
        lemma_count_after_first(action_between(state, next), tail, HoverAction::Enter);
        lemma_count_after_first(action_between(state, next), tail, HoverAction::Exit);
        lemma_notifications_alternate(config, z, bounds, next, rest);
    }
}

} // verus!
