use vstd::prelude::*;

verus! {

/// Display state of one native window, as the bootstrap sequence observes and
/// mutates it: whether the OS draws decorations (title bar, borders) and
/// whether the window is visible.
#[derive(Clone, Copy, Debug, PartialEq, Eq)]
pub struct WindowState {
    pub decorations: bool,
    pub visible: bool,
}

/// The window after its decorations have been force-disabled. The override is
/// unconditional: whatever decoration state the platform or persisted
/// configuration chose, the flag ends up cleared.
pub open spec fn with_decorations_disabled(w: WindowState) -> WindowState {
    WindowState { decorations: false, visible: w.visible }
}

/// The window after it has been made visible.
pub open spec fn shown(w: WindowState) -> WindowState {
    WindowState { decorations: w.decorations, visible: true }
}

impl WindowState {
    /// Force-disable the window's decorations, leaving visibility untouched.
    pub fn disable_decorations(&mut self)
        ensures
            *final(self) == with_decorations_disabled(*old(self)),
    {
        self.decorations = false;
    }

    /// Make the window visible, leaving the decoration flag untouched.
    pub fn show(&mut self)
        ensures
            *final(self) == shown(*old(self)),
    {
        self.visible = true;
    }
}

} // verus!
