//! The panel for the registers of the processor.

use crate::tabs::TabImpl;
use vstd::prelude::*;

verus! {

/// The panel for the registers of the processor.
#[derive(Debug, Clone, Copy, PartialEq, Eq, Structural)]
pub struct RegistersTab;

impl RegistersTab {
    /// The panel.
    pub fn new() -> (tab: RegistersTab)
        ensures
            tab == RegistersTab,
    {
        RegistersTab
    }
}

impl TabImpl for RegistersTab {
    open spec fn title_text(&self) -> Seq<char> {
        "Registers"@
    }

    fn title(&self) -> (title: &'static str) {
        "Registers"
    }
}

} // verus!
