//! A plain dock whose panels are named by strings.

use vstd::prelude::*;
use vstd::string::*;

verus! {

/// The viewer of a dock whose panels are named by strings. It remembers
/// whether the layout has been changed.
#[derive(Debug)]
pub struct TabViewer {
    modified: bool,
}

impl View for TabViewer {
    type V = bool;

    closed spec fn view(&self) -> bool {
        self.modified
    }
}

/// What a panel named `tab` shows.
pub open spec fn content_of(tab: Seq<char>) -> Seq<char> {
    "Content of "@ + tab
}

impl Default for TabViewer {
    fn default() -> (viewer: TabViewer)
        ensures
            !viewer@,
    {
        TabViewer { modified: false }
    }
}

impl TabViewer {
    /// The title of the panel `tab`: its name.
    pub fn title(&mut self, tab: &String) -> (title: String)
        ensures
            title@ == tab@,
            final(self)@ == old(self)@,
    {
        tab.clone()
    }

    /// The text that the panel `tab` shows.
    pub fn ui(&mut self, tab: &String) -> (label: String)
        ensures
            label@ == content_of(tab@),
            final(self)@ == old(self)@,
    {
        let mut label = String::from_str("Content of ");
        label.append(tab.as_str());
        label
    }

    /// Takes note that a panel has been moved or resized.
    pub fn on_rect_changed(&mut self)
        ensures
            final(self)@,
    {
        self.modified = true;
    }

    /// Whether a panel has been moved or resized.
    pub fn is_modified(&self) -> (modified: bool)
        ensures
            modified == self@,
    {
        self.modified
    }
}

} // verus!
