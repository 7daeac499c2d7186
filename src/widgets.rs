//! Which widgets the user turned on.

use std::collections::HashMap;
use vstd::prelude::*;

verus! {

/// Enabled flag of each widget, by widget id.
#[derive(Clone, Debug)]
pub struct WidgetState {
    pub enabled: HashMap<String, bool>,
}

impl WidgetState {
    /// No widget recorded.
    pub fn new() -> (r: WidgetState)
        ensures
            r.enabled@ == Map::<String, bool>::empty(),
    {
        WidgetState { enabled: HashMap::new() }
    }
}

impl Default for WidgetState {
    fn default() -> (r: WidgetState)
        ensures
            r.enabled@ == Map::<String, bool>::empty(),
    {
        WidgetState::new()
    }
}

} // verus!
