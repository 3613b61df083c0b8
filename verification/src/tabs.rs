use vstd::prelude::*;

verus! {

/// The top-level tab the interface shows.
#[derive(Debug, Clone, Copy, PartialEq, Eq, Structural)]
pub enum SelectedTab {
    KeySpace,
    Info,
}

impl Default for SelectedTab {
    /// The keyspace tab is shown first.
    fn default() -> (r: Self)
        ensures
            r == SelectedTab::KeySpace,
    {
        SelectedTab::KeySpace
    }
}

impl SelectedTab {
    /// Switches to the given tab.
    pub fn select(&mut self, selected_tab: SelectedTab)
        ensures
            *final(self) == selected_tab,
    {
        *self = selected_tab;
    }
}

} // verus!
