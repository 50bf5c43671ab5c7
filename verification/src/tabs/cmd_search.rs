//! The panel for the search through the debugger's commands.

use crate::tabs::TabImpl;
use vstd::prelude::*;

verus! {

/// The panel for the search through the debugger's commands.
#[derive(Debug, Clone, Copy, PartialEq, Eq, Structural)]
pub struct CmdSearchTab;

impl CmdSearchTab {
    /// The panel.
    pub fn new() -> (tab: CmdSearchTab)
        ensures
            tab == CmdSearchTab,
    {
        CmdSearchTab
    }
}

impl TabImpl for CmdSearchTab {
    open spec fn title_text(&self) -> Seq<char> {
        "CmdSearch"@
    }

    fn title(&self) -> (title: &'static str) {
        "CmdSearch"
    }
}

} // verus!
