//! Helpers for the menu UI.
use vstd::prelude::*;

verus! {

/// Helpers on an immediate-mode UI context.
pub trait EguiContextExt {
    /// Clear the UI focus.
    fn clear_focus(self);
}

} // verus!
