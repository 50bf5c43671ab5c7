//! The panel for the commands of the debugger.

use crate::tabs::TabImpl;
use vstd::prelude::*;

verus! {

/// The panel for the commands of the debugger.
#[derive(Debug, Clone, Copy, PartialEq, Eq, Structural)]
pub struct CommandsTab;

impl CommandsTab {
    /// The panel.
    pub fn new() -> (tab: CommandsTab)
        ensures
            tab == CommandsTab,
    {
        CommandsTab
    }
}

impl TabImpl for CommandsTab {
    open spec fn title_text(&self) -> Seq<char> {
        "Commands"@
    }

    fn title(&self) -> (title: &'static str) {
        "Commands"
    }
}

} // verus!
