//! Editor window state.
//!
//! The UI-side scale factor and the atomic cells that share this state
//! between the host and the editor live outside this library; what is
//! modelled here is the state itself: the reported window size and whether
//! the editor window is currently open. The audio thread reads the open flag
//! to skip meter work while the window is closed.

use vstd::prelude::*;

verus! {

/// Window size reported when no size was persisted.
pub fn empty_size_fn() -> (r: (u32, u32))
    ensures
        r == (0u32, 0u32),
{
    (0, 0)
}

/// State of the editor window: the size it reports to the host and whether
/// it is currently open.
pub struct ViziaState {
    /// Reported window width in logical pixels.
    pub width: u32,
    /// Reported window height in logical pixels.
    pub height: u32,
    /// Whether the editor window is currently open.
    pub open: bool,
}

impl ViziaState {
    /// A state that reports the given window size; the editor starts closed.
    pub fn new(width: u32, height: u32) -> (r: ViziaState)
        ensures
            r.width == width,
            r.height == height,
            !r.open,
    {
        ViziaState { width, height, open: false }
    }

    /// The window size this state reports.
    pub fn size(&self) -> (r: (u32, u32))
        ensures
            r == (self.width, self.height),
    {
        (self.width, self.height)
    }

    /// Whether the editor window is currently open.
    pub fn is_open(&self) -> (r: bool)
        ensures
            r == self.open,
    {
        self.open
    }

    /// Records that the editor window opened or closed; the reported size is
    /// untouched.
    pub fn set_open(&mut self, open: bool)
        ensures
            final(self).open == open,
            final(self).width == old(self).width,
            final(self).height == old(self).height,
    {
        self.open = open;
    }
}

/// The state the editor starts from: a 400 by 150 window, closed.
pub fn default_state() -> (r: ViziaState)
    ensures
        r.width == 400,
        r.height == 150,
        !r.open,
{
    ViziaState::new(400, 150)
}

} // verus!
