//! Effects on the overlay window: click-through, activation and the
//! notifications sent to the UI layer.

use crate::hover::HoverAction;
use vstd::prelude::*;

verus! {

/// Notification sent to the UI layer on a transition.
#[derive(Clone, Copy, Debug, PartialEq, Eq, Structural)]
pub enum HoverNotification {
    Entered,
    Exited,
}

/// What the window must undergo after a hover action.
#[derive(Clone, Copy, Debug, PartialEq, Eq, Structural)]
pub struct WindowEffects {
    /// New click-through setting, if it changes.
    pub click_through: Option<bool>,
    /// Bring the application and window to the foreground.
    pub activate: bool,
    pub notify: Option<HoverNotification>,
}

/// Effects of a hover action: entering stops click-through, activates the
/// window and announces the entry; leaving restores click-through and
/// announces the exit; no transition has no effect.
pub open spec fn effects_spec(action: HoverAction) -> WindowEffects {
    match action {
        HoverAction::Enter => WindowEffects {
            click_through: Some(false),
            activate: true,
            notify: Some(HoverNotification::Entered),
        },
        HoverAction::Exit => WindowEffects {
            click_through: Some(true),
            activate: false,
            notify: Some(HoverNotification::Exited),
        },
        HoverAction::Stay => WindowEffects { click_through: None, activate: false, notify: None },
    }
}

/// Exec form of `effects_spec`.
pub fn effects_of(action: HoverAction) -> (r: WindowEffects)
    ensures
        r == effects_spec(action),
{
    match action {
        HoverAction::Enter => WindowEffects {
            click_through: Some(false),
            activate: true,
            notify: Some(HoverNotification::Entered),
        },
        HoverAction::Exit => WindowEffects {
            click_through: Some(true),
            activate: false,
            notify: Some(HoverNotification::Exited),
        },
        HoverAction::Stay => WindowEffects { click_through: None, activate: false, notify: None },
    }
}

/// The click-through setting that the window currently has.
#[derive(Clone, Copy, Debug, PartialEq, Eq, Structural)]
pub struct WindowController {
    /// Pointer events pass through the window to what lies beneath.
    pub click_through: bool,
}

impl WindowController {
    /// The overlay starts click-through: nothing is shown yet.
    pub fn new() -> (r: WindowController)
        ensures
            r.click_through,
    {
        WindowController { click_through: true }
    }

    /// The controller after asking for click-through `ignore`.
    pub open spec fn with_click_through(self, ignore: bool) -> WindowController {
        WindowController { click_through: ignore }
    }

    /// Sets click-through; true when this changed the window's setting, so
    /// a call that repeats the current setting has nothing to apply.
    pub fn set_click_through(&mut self, ignore: bool) -> (changed: bool)
        ensures
            *final(self) == old(self).with_click_through(ignore),
            changed == (old(self).click_through != ignore),
    {
        let changed = self.click_through != ignore;
        self.click_through = ignore;
        changed
    }

    /// Performs a hover action on the controller and returns its effects.
    pub fn apply_hover_action(&mut self, action: HoverAction) -> (r: WindowEffects)
        ensures
            r == effects_spec(action),
            r.click_through matches Some(v) ==> *final(self) == old(self).with_click_through(v),
            r.click_through is None ==> *final(self) == *old(self),
    {
        let effects = effects_of(action);
        if let Some(ignore) = effects.click_through {
            let _ = self.set_click_through(ignore);
        }
        effects
    }
}

/// Setting click-through twice to the same value leaves the window as one
/// call does, and the second call has nothing to apply.
pub proof fn lemma_click_through_idempotent(controller: WindowController, ignore: bool)
    ensures
        controller.with_click_through(ignore).with_click_through(ignore)
            == controller.with_click_through(ignore),
        controller.with_click_through(ignore).click_through == ignore,
{
}

} // verus!
