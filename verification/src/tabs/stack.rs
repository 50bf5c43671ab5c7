//! The panel for the call stack.

use crate::tabs::TabImpl;
use vstd::prelude::*;

verus! {

/// The panel for the call stack.
#[derive(Debug, Clone, Copy, PartialEq, Eq, Structural)]
pub struct StackTab;

impl StackTab {
    /// The panel.
    pub fn new() -> (tab: StackTab)
        ensures
            tab == StackTab,
    {
        StackTab
    }
}

impl TabImpl for StackTab {
    open spec fn title_text(&self) -> Seq<char> {
        "Stack"@
    }

    fn title(&self) -> (title: &'static str) {
        "Stack"
    }
}

} // verus!
