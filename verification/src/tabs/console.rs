//! The panel for the console with its log and command line.

use crate::tabs::TabImpl;
use vstd::prelude::*;

verus! {

/// The panel for the console with its log and command line.
#[derive(Debug, Clone, Copy, PartialEq, Eq, Structural)]
pub struct ConsoleTab;

impl ConsoleTab {
    /// The panel.
    pub fn new() -> (tab: ConsoleTab)
        ensures
            tab == ConsoleTab,
    {
        ConsoleTab
    }
}

impl TabImpl for ConsoleTab {
    open spec fn title_text(&self) -> Seq<char> {
        "Console"@
    }

    fn title(&self) -> (title: &'static str) {
        "Console"
    }
}

} // verus!
