//! The panel for the layout of a structure.

use crate::tabs::TabImpl;
use vstd::prelude::*;

verus! {

/// The panel for the layout of a structure.
#[derive(Debug, Clone, Copy, PartialEq, Eq, Structural)]
pub struct StructTab;

impl StructTab {
    /// The panel.
    pub fn new() -> (tab: StructTab)
        ensures
            tab == StructTab,
    {
        StructTab
    }
}

impl TabImpl for StructTab {
    open spec fn title_text(&self) -> Seq<char> {
        "Struct"@
    }

    fn title(&self) -> (title: &'static str) {
        "Struct"
    }
}

} // verus!
