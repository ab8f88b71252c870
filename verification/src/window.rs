//! The overlay window's input-transparency state.
//!
//! The overlay either consumes pointer input or passes it through to
//! whatever lies beneath. The model owns the intended flag; the shell
//! forwards it to the window manager, and an OS-side failure there is
//! logged and swallowed, never propagated.

use vstd::prelude::*;

verus! {

/// The overlay window's intended click-through flag.
#[derive(Clone, Copy, Debug, PartialEq, Eq)]
pub struct OverlayWindowState {
    pub click_through: bool,
}

impl OverlayWindowState {
    /// At startup the overlay consumes pointer input.
    pub fn new() -> (r: OverlayWindowState)
        ensures
            !r.click_through,
    {
        OverlayWindowState { click_through: false }
    }

    /// Sets whether pointer events pass through the overlay. Idempotent:
    /// the new state depends on `ignore` alone.
    pub fn set_click_through(&mut self, ignore: bool)
        ensures
            final(self).click_through == ignore,
    {
        self.click_through = ignore;
    }
}

} // verus!
