//! The state of the debug overlay.

use vstd::prelude::*;

verus! {

/// The state of the overlay: a menu bar whose one entry opens a window.
pub struct Gui {
    window_open: bool,
}

impl Gui {
    /// Whether the window is shown.
    pub closed spec fn spec_window_open(&self) -> bool {
        self.window_open
    }

    /// An overlay whose window is closed.
    pub fn new() -> (gui: Gui)
        ensures
            !gui.spec_window_open(),
    {
        Gui { window_open: false }
    }

    /// Whether the window is shown.
    #[verifier::when_used_as_spec(spec_window_open)]
    pub fn window_open(&self) -> (open: bool)
        ensures
            open == self.spec_window_open(),
    {
        self.window_open
    }

    /// The menu entry was clicked: the window is shown from now on.
    pub fn open_window(&mut self)
        ensures
            final(self).spec_window_open(),
    {
        self.window_open = true;
    }

    /// The window was drawn and reports whether it is still open.
    pub fn set_window_open(&mut self, open: bool)
        ensures
            final(self).spec_window_open() == open,
    {
        self.window_open = open;
    }
}

} // verus!
