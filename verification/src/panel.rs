//! The panels the application docks into its window layout.

use vstd::prelude::*;

verus! {

/// A dockable panel: something with an open flag the window layout
/// reads and writes. Drawing a panel's contents is the host's concern.
pub trait Panel {
    /// Whether the panel is open, as a specification-level view.
    spec fn open_spec(&self) -> bool;

    /// True if the panel is open.
    fn is_open(&self) -> (r: bool)
        ensures
            r == self.open_spec(),
    ;

    /// Sets whether the panel is open.
    fn set_open(&mut self, new_open: bool)
        ensures
            final(self).open_spec() == new_open,
    ;
}

/// The sprite-inspector panel.
#[derive(Clone, Copy, PartialEq, Eq, Structural, Debug)]
pub struct InspectorPanel {
    pub window_open: bool,
}

impl Panel for InspectorPanel {
    open spec fn open_spec(&self) -> bool {
        self.window_open
    }

    fn is_open(&self) -> (r: bool)
        ensures
            r == self.open_spec(),
    {
        self.window_open
    }

    fn set_open(&mut self, new_open: bool)
        ensures
            final(self).open_spec() == new_open,
    {
        self.window_open = new_open;
    }
}

} // verus!
