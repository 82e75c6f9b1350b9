//! What capturing and releasing the cursor means for the platform cursor.

use vstd::prelude::*;

verus! {

/// The two settings of the platform cursor.
#[derive(Clone, Copy, Debug, PartialEq, Eq, Structural)]
pub struct CursorSettings {
    /// Whether the cursor is drawn.
    pub visible: bool,
    /// Whether the cursor is confined to the window.
    pub locked: bool,
}

/// The settings of a captured cursor (hidden and locked) or of a free one
/// (visible and unlocked).
pub fn toggle_cursor(captured: bool) -> (settings: CursorSettings)
    ensures
        settings.visible == !captured,
        settings.locked == captured,
{
    CursorSettings { visible: !captured, locked: captured }
}

} // verus!
