//! The panel for the breakpoints that are set.

use crate::tabs::TabImpl;
use vstd::prelude::*;

verus! {

/// The panel for the breakpoints that are set.
#[derive(Debug, Clone, Copy, PartialEq, Eq, Structural)]
pub struct BreakpointsTab;

impl BreakpointsTab {
    /// The panel.
    pub fn new() -> (tab: BreakpointsTab)
        ensures
            tab == BreakpointsTab,
    {
        BreakpointsTab
    }
}

impl TabImpl for BreakpointsTab {
    open spec fn title_text(&self) -> Seq<char> {
        "Breakpoints"@
    }

    fn title(&self) -> (title: &'static str) {
        "Breakpoints"
    }
}

} // verus!
