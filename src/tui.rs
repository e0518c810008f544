//! The run state of a full-screen panel.
use vstd::prelude::*;

verus! {

/// Whether the panel loop should stop.
#[derive(Debug, Clone, Copy, PartialEq, Eq, Structural)]
pub struct TUI {
    exit: bool,
}

impl TUI {
    pub closed spec fn exiting(&self) -> bool {
        self.exit
    }

    /// A panel loop that has not been asked to stop.
    pub fn new() -> (r: TUI)
        ensures
            !r.exiting(),
    {
        TUI { exit: false }
    }

    pub fn should_exit(&self) -> (r: bool)
        ensures
            r == self.exiting(),
    {
        self.exit
    }

    pub fn set_exit(&mut self, exit: bool)
        ensures
            final(self).exiting() == exit,
    {
        self.exit = exit;
    }
}

} // verus!
