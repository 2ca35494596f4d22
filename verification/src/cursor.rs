//! The selection cursor of a list, kept in a `tui_widget_list::ListState`.
//!
//! The list widget owns the rules of moving a selection; this module states
//! them. Nothing in this file is proved: each function below is a contract
//! that the verifier takes on trust for the function of `tui_widget_list` that
//! it calls.

use vstd::prelude::*;
use tui_widget_list::ListState;

verus! {

/// `tui_widget_list::ListState`, opaque to the verifier.
#[verifier::external_type_specification]
#[verifier::external_body]
pub struct ExListState(tui_widget_list::ListState);

/// The field `selected` of a list state: the index of the selected item.
pub uninterp spec fn selected_of(state: ListState) -> Option<usize>;

/// The number of items that the list held when it was last rendered (the
/// field `num_elements`); 0 for a state that was never rendered.
pub uninterp spec fn item_count_of(state: ListState) -> usize;

/// Whether the selection wraps round at either end of the list (the field
/// `infinite_scrolling`, which rendering sets from the list view).
pub uninterp spec fn wraps_of(state: ListState) -> bool;

/// The selection after one step down a list of `count` items.
pub open spec fn step_down(selected: Option<usize>, count: nat, wraps: bool) -> Option<usize> {
    if count == 0 {
        selected
    } else {
        match selected {
            None => Some(0usize),
            Some(i) => if i >= count - 1 {
                if wraps { Some(0usize) } else { Some(i) }
            } else {
                Some((i + 1) as usize)
            },
        }
    }
}

/// The selection after one step up a list of `count` items.
pub open spec fn step_up(selected: Option<usize>, count: nat, wraps: bool) -> Option<usize> {
    if count == 0 {
        selected
    } else {
        match selected {
            None => Some(0usize),
            Some(i) => if i == 0 {
                if wraps { Some((count - 1) as usize) } else { Some(i) }
            } else {
                Some((i - 1) as usize)
            },
        }
    }
}

/// What the pages read of a list state.
pub struct CursorView {
    pub selected: Option<usize>,
    pub count: nat,
    pub wraps: bool,
}

/// A list state, by what the pages read of it.
pub open spec fn cursor_view(state: ListState) -> CursorView {
    CursorView {
        selected: selected_of(state),
        count: item_count_of(state) as nat,
        wraps: wraps_of(state),
    }
}

impl CursorView {
    /// The cursor of a list that was never rendered.
    pub open spec fn fresh() -> CursorView {
        CursorView { selected: None, count: 0, wraps: true }
    }

    /// The cursor with `index` selected.
    pub open spec fn at(self, index: Option<usize>) -> CursorView {
        CursorView { selected: index, count: self.count, wraps: self.wraps }
    }

    /// The cursor one step down.
    pub open spec fn down(self) -> CursorView {
        self.at(step_down(self.selected, self.count, self.wraps))
    }

    /// The cursor one step up.
    pub open spec fn up(self) -> CursorView {
        self.at(step_up(self.selected, self.count, self.wraps))
    }
}

/// `ListState::default`: nothing selected, no items, a selection that wraps.
#[verifier::external_body]
pub(crate) fn fresh() -> (state: ListState)
    ensures
        selected_of(state) == None::<usize>,
        item_count_of(state) == 0,
        wraps_of(state),
{
    ListState::default()
}

/// Reads the public field `selected`.
#[verifier::external_body]
pub(crate) fn selected(state: &ListState) -> (index: Option<usize>)
    ensures
        index == selected_of(*state),
{
    state.selected
}

/// `ListState::select`: stores the index and leaves the item count and the
/// wrapping as they were.
#[verifier::external_body]
pub(crate) fn select(state: &mut ListState, index: Option<usize>)
    ensures
        selected_of(*final(state)) == index,
        item_count_of(*final(state)) == item_count_of(*old(state)),
        wraps_of(*final(state)) == wraps_of(*old(state)),
{
    state.select(index)
}

/// `ListState::next`: with no items it does nothing; otherwise it selects the
/// first item if none was selected, the following item if there is one, and at
/// the last item the first one or the same one, as the list wraps or not.
#[verifier::external_body]
pub(crate) fn next(state: &mut ListState)
    ensures
        selected_of(*final(state)) == step_down(
            selected_of(*old(state)),
            item_count_of(*old(state)) as nat,
            wraps_of(*old(state)),
        ),
        item_count_of(*final(state)) == item_count_of(*old(state)),
        wraps_of(*final(state)) == wraps_of(*old(state)),
{
    state.next()
}

/// `ListState::previous`: with no items it does nothing; otherwise it selects
/// the first item if none was selected, the preceding item if there is one,
/// and at the first item the last one or the same one, as the list wraps or
/// not.
#[verifier::external_body]
pub(crate) fn previous(state: &mut ListState)
    ensures
        selected_of(*final(state)) == step_up(
            selected_of(*old(state)),
            item_count_of(*old(state)) as nat,
            wraps_of(*old(state)),
        ),
        item_count_of(*final(state)) == item_count_of(*old(state)),
        wraps_of(*final(state)) == wraps_of(*old(state)),
{
    state.previous()
}

} // verus!
