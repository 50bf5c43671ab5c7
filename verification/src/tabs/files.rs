//! The panel for the files of the program.

use crate::tabs::TabImpl;
use vstd::prelude::*;

verus! {

/// The panel for the files of the program.
#[derive(Debug, Clone, Copy, PartialEq, Eq, Structural)]
pub struct FilesTab;

impl FilesTab {
    /// The panel.
    pub fn new() -> (tab: FilesTab)
        ensures
            tab == FilesTab,
    {
        FilesTab
    }
}

impl TabImpl for FilesTab {
    open spec fn title_text(&self) -> Seq<char> {
        "Files"@
    }

    fn title(&self) -> (title: &'static str) {
        "Files"
    }
}

} // verus!
