//! The panel for the executable that is debugged.

use crate::tabs::TabImpl;
use vstd::prelude::*;

verus! {

/// The panel for the executable that is debugged.
#[derive(Debug, Clone, Copy, PartialEq, Eq, Structural)]
pub struct ExeTab;

impl ExeTab {
    /// The panel.
    pub fn new() -> (tab: ExeTab)
        ensures
            tab == ExeTab,
    {
        ExeTab
    }
}

impl TabImpl for ExeTab {
    open spec fn title_text(&self) -> Seq<char> {
        "Exe"@
    }

    fn title(&self) -> (title: &'static str) {
        "Exe"
    }
}

} // verus!
