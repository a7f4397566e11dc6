//! Cursor state a display layer keeps while browsing the machine: two
//! scrollable memory lists (one over program cells, one over data cells), a
//! mark for which of them is selected, and text-entry state. The rendering
//! itself lives outside the library; only the selection logic is here.

use vstd::prelude::*;

verus! {

/// Which of the two memory lists is selected.
#[derive(Copy, Clone, Debug, PartialEq, Eq, Structural)]
pub enum BlockLists {
    Operators,
    Variables,
}

/// Scroll window and cursor of one list.
#[derive(Copy, Clone, Debug, PartialEq, Eq, Structural)]
pub struct ListState {
    pub current_line: usize,
    pub first_line: usize,
    pub last_line: usize,
}

/// The whole display-layer state: the two lists, which one is selected,
/// text-entry state and the quit flag.
#[derive(Copy, Clone, Debug)]
pub struct UIState {
    pub block_selected: BlockLists,
    pub memory_list_operators: ListState,
    pub memory_list_variables: ListState,
    pub is_typing: bool,
    pub typing_char: Option<char>,
    pub quit: bool,
}

impl UIState {
    /// The list the selection mark points at.
    pub open spec fn spec_current_list(self) -> ListState {
        match self.block_selected {
            BlockLists::Operators => self.memory_list_operators,
            BlockLists::Variables => self.memory_list_variables,
        }
    }

    /// Read access to the selected list.
    pub fn current_list(&self) -> (r: &ListState)
        ensures
            *r == self.spec_current_list(),
    {
        match self.block_selected {
            BlockLists::Operators => &self.memory_list_operators,
            BlockLists::Variables => &self.memory_list_variables,
        }
    }

    /// Write access to the selected list: the returned borrow is the
    /// selected field, and every other field keeps its value.
    pub fn mutable_current_list(&mut self) -> (r: &mut ListState)
        ensures
            *r == old(self).spec_current_list(),
            old(self).block_selected is Operators ==> *final(self) == (UIState {
                memory_list_operators: *final(r),
                ..*old(self)
            }),
            old(self).block_selected is Variables ==> *final(self) == (UIState {
                memory_list_variables: *final(r),
                ..*old(self)
            }),
    {
        match self.block_selected {
            BlockLists::Operators => &mut self.memory_list_operators,
            BlockLists::Variables => &mut self.memory_list_variables,
        }
    }
}

} // verus!
