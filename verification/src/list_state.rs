use vstd::prelude::*;

verus! {

/// The state of a scrollable list: the first item shown and the selected
/// item, as `ratatui::widgets::ListState` keeps them.
#[derive(Clone, Copy, Debug, PartialEq, Eq, Structural)]
pub struct ListState {
    pub offset: usize,
    pub selected: Option<usize>,
}

impl ListState {
    /// No item selected, the list shown from its first item.
    pub fn default() -> (s: ListState)
        ensures
            s == (ListState { offset: 0, selected: None }),
    {
        ListState { offset: 0, selected: None }
    }

    /// The index of the first item shown.
    pub fn offset(&self) -> (r: usize)
        ensures
            r == self.offset,
    {
        self.offset
    }

    /// The selected item.
    pub fn selected(&self) -> (r: Option<usize>)
        ensures
            r == self.selected,
    {
        self.selected
    }

    /// Selects an item; selecting none also scrolls back to the first item.
    pub fn select(&mut self, index: Option<usize>)
        ensures
            final(self).selected == index,
            final(self).offset == if index is None {
                0
            } else {
                old(self).offset
            },
    {
        self.selected = index;
        if index.is_none() {
            self.offset = 0;
        }
    }
}

} // verus!
