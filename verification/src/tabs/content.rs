//! The panel for the content of the file that is open.

use crate::tabs::TabImpl;
use vstd::prelude::*;

verus! {

/// The panel for the content of the file that is open.
#[derive(Debug, Clone, Copy, PartialEq, Eq, Structural)]
pub struct ContentTab;

impl ContentTab {
    /// The panel.
    pub fn new() -> (tab: ContentTab)
        ensures
            tab == ContentTab,
    {
        ContentTab
    }
}

impl TabImpl for ContentTab {
    open spec fn title_text(&self) -> Seq<char> {
        "Content"@
    }

    fn title(&self) -> (title: &'static str) {
        "Content"
    }
}

} // verus!
