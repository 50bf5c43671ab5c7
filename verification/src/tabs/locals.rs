//! The panel for the local variables of the current frame.

use crate::tabs::TabImpl;
use vstd::prelude::*;

verus! {

/// The panel for the local variables of the current frame.
#[derive(Debug, Clone, Copy, PartialEq, Eq, Structural)]
pub struct LocalsTab;

impl LocalsTab {
    /// The panel.
    pub fn new() -> (tab: LocalsTab)
        ensures
            tab == LocalsTab,
    {
        LocalsTab
    }
}

impl TabImpl for LocalsTab {
    open spec fn title_text(&self) -> Seq<char> {
        "Locals"@
    }

    fn title(&self) -> (title: &'static str) {
        "Locals"
    }
}

} // verus!
