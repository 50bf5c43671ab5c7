//! The panel for the watched expressions.

use crate::tabs::TabImpl;
use vstd::prelude::*;

verus! {

/// The panel for the watched expressions.
#[derive(Debug, Clone, Copy, PartialEq, Eq, Structural)]
pub struct WatchTab;

impl WatchTab {
    /// The panel.
    pub fn new() -> (tab: WatchTab)
        ensures
            tab == WatchTab,
    {
        WatchTab
    }
}

impl TabImpl for WatchTab {
    open spec fn title_text(&self) -> Seq<char> {
        "Watch"@
    }

    fn title(&self) -> (title: &'static str) {
        "Watch"
    }
}

} // verus!
