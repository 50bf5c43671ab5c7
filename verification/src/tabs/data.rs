//! The panel for the data of the program.

use crate::tabs::TabImpl;
use vstd::prelude::*;

verus! {

/// The panel for the data of the program.
#[derive(Debug, Clone, Copy, PartialEq, Eq, Structural)]
pub struct DataTab;

impl DataTab {
    /// The panel.
    pub fn new() -> (tab: DataTab)
        ensures
            tab == DataTab,
    {
        DataTab
    }
}

impl TabImpl for DataTab {
    open spec fn title_text(&self) -> Seq<char> {
        "Data"@
    }

    fn title(&self) -> (title: &'static str) {
        "Data"
    }
}

} // verus!
