//! Records of the file tray: files the user dropped onto the overlay.

use vstd::prelude::*;

verus! {

/// One file held in the tray.
#[derive(Clone, Debug)]
pub struct FileTrayItem {
    pub name: String,
    pub size: u64,
    pub path: String,
    pub mime_type: String,
    /// Milliseconds since the Unix epoch.
    pub last_modified: u64,
}

} // verus!
