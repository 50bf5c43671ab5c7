//! The panel for the threads of the program.

use crate::tabs::TabImpl;
use vstd::prelude::*;

verus! {

/// The panel for the threads of the program.
#[derive(Debug, Clone, Copy, PartialEq, Eq, Structural)]
pub struct ThreadTab;

impl ThreadTab {
    /// The panel.
    pub fn new() -> (tab: ThreadTab)
        ensures
            tab == ThreadTab,
    {
        ThreadTab
    }
}

impl TabImpl for ThreadTab {
    open spec fn title_text(&self) -> Seq<char> {
        "Thread"@
    }

    fn title(&self) -> (title: &'static str) {
        "Thread"
    }
}

} // verus!
