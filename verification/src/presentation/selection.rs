//! The selected row of a table, kept within the number of rows.
use vstd::prelude::*;

verus! {

/// Which row of a table is selected, and how many rows there are.
#[derive(Debug, Clone, Copy, PartialEq, Eq, Structural)]
pub struct TableSelection {
    pub selected: Option<usize>,
    pub items_count: usize,
}

/// A selection is in range when it names an existing row.
pub open spec fn selection_in_range(s: TableSelection) -> bool {
    s.selected matches Some(i) ==> i < s.items_count
}

/// The selection after the row count changes: the first row when nothing was
/// selected, nothing when there are no rows, the last row when the selected
/// row is gone.
pub open spec fn after_set_items(selected: Option<usize>, count: usize) -> Option<usize> {
    if count > 0 && selected is None {
        Some(0)
    } else if count == 0 {
        None
    } else if selected matches Some(i) && i >= count {
        Some((count - 1) as usize)
    } else {
        selected
    }
}

/// The row below, wrapping from the last row to the first.
pub open spec fn after_next(selected: Option<usize>, count: usize) -> Option<usize> {
    if count == 0 {
        selected
    } else {
        match selected {
            Some(i) => if i >= count - 1 {
                Some(0)
            } else {
                Some((i + 1) as usize)
            },
            None => Some(0),
        }
    }
}

/// The row above, wrapping from the first row to the last.
pub open spec fn after_previous(selected: Option<usize>, count: usize) -> Option<usize> {
    if count == 0 {
        selected
    } else {
        match selected {
            Some(i) => if i == 0 {
                Some((count - 1) as usize)
            } else {
                Some((i - 1) as usize)
            },
            None => Some(0),
        }
    }
}

/// The selection after choosing a row: the row itself if it exists, the
/// last row when it is past the end, nothing when asked for nothing or when
/// there are no rows.
pub open spec fn after_select(index: Option<usize>, count: usize) -> Option<usize> {
    match index {
        Some(i) => if i < count {
            Some(i)
        } else if count > 0 {
            Some((count - 1) as usize)
        } else {
            None
        },
        None => None,
    }
}

/// The selection after the row count becomes `count`.
pub open spec fn resized(s: TableSelection, count: nat) -> TableSelection {
    TableSelection { selected: after_set_items(s.selected, count as usize), items_count: count as usize }
}

/// The selection one row down.
pub open spec fn moved_down(s: TableSelection) -> TableSelection {
    TableSelection { selected: after_next(s.selected, s.items_count), items_count: s.items_count }
}

/// The selection one row up.
pub open spec fn moved_up(s: TableSelection) -> TableSelection {
    TableSelection { selected: after_previous(s.selected, s.items_count), items_count: s.items_count }
}

impl TableSelection {
    /// No rows, nothing selected.
    pub fn new() -> (r: TableSelection)
        ensures
            r.selected is None,
            r.items_count == 0,
    {
        TableSelection { selected: None, items_count: 0 }
    }

    /// Records a new number of rows and moves the selection into range.
    pub fn set_items(&mut self, count: usize)
        ensures
            final(self).items_count == count,
            final(self).selected == after_set_items(old(self).selected, count),
    {
        self.items_count = count;
        if count > 0 && self.selected.is_none() {
            self.selected = Some(0);
        } else if count == 0 {
            self.selected = None;
        } else if let Some(selected) = self.selected {
            if selected >= count {
                self.selected = Some(count - 1);
            }
        }
    }

    /// Moves down one row, wrapping around.
    pub fn next(&mut self)
        ensures
            final(self).items_count == old(self).items_count,
            final(self).selected == after_next(old(self).selected, old(self).items_count),
    {
        if self.items_count == 0 {
            return;
        }
        let i = match self.selected {
            Some(i) => {
                if i >= self.items_count - 1 {
                    0
                } else {
                    i + 1
                }
            },
            None => 0,
        };
        self.selected = Some(i);
    }

    /// Moves up one row, wrapping around.
    pub fn previous(&mut self)
        ensures
            final(self).items_count == old(self).items_count,
            final(self).selected == after_previous(old(self).selected, old(self).items_count),
    {
        if self.items_count == 0 {
            return;
        }
        let i = match self.selected {
            Some(i) => {
                if i == 0 {
                    self.items_count - 1
                } else {
                    i - 1
                }
            },
            None => 0,
        };
        self.selected = Some(i);
    }

    pub fn selected(&self) -> (r: Option<usize>)
        ensures
            r == self.selected,
    {
        self.selected
    }

    /// Selects a row, clamped to the last one.
    pub fn select(&mut self, index: Option<usize>)
        ensures
            final(self).items_count == old(self).items_count,
            final(self).selected == after_select(index, old(self).items_count),
    {
        match index {
            Some(index) => {
                if index < self.items_count {
                    self.selected = Some(index);
                } else if self.items_count > 0 {
                    self.selected = Some(self.items_count - 1);
                } else {
                    self.selected = None;
                }
            },
            None => self.selected = None,
        }
    }
}

impl Default for TableSelection {
    fn default() -> (r: TableSelection)
        ensures
            r.selected is None,
            r.items_count == 0,
    {
        TableSelection::new()
    }
}

/// Every operation keeps a selection in range: after a change of the row
/// count, a move down, a move up or a choice, the selected row (if any)
/// exists.
pub proof fn law_selection_stays_in_range(s: TableSelection, count: usize, index: Option<usize>)
    requires
        selection_in_range(s),
    ensures
        selection_in_range(
            TableSelection { selected: after_set_items(s.selected, count), items_count: count },
        ),
        selection_in_range(
            TableSelection { selected: after_next(s.selected, s.items_count), ..s },
        ),
        selection_in_range(
            TableSelection { selected: after_previous(s.selected, s.items_count), ..s },
        ),
        selection_in_range(TableSelection { selected: after_select(index, s.items_count), ..s }),
{
}

/// After the row count changes to a positive number, some row is selected.
pub proof fn law_rows_imply_selection(selected: Option<usize>, count: usize)
    requires
        count > 0,
    ensures
        after_set_items(selected, count) is Some,
{
}

/// Moving down and then up returns to the row that was selected, and so does
/// moving up and then down.
pub proof fn law_next_previous_undo(s: TableSelection)
    requires
        selection_in_range(s),
        s.items_count > 0,
        s.selected is Some,
    ensures
        after_previous(after_next(s.selected, s.items_count), s.items_count) == s.selected,
        after_next(after_previous(s.selected, s.items_count), s.items_count) == s.selected,
{
}

/// Moving down as many times as there are rows comes back to the same row.
pub open spec fn next_times(selected: Option<usize>, count: usize, n: nat) -> Option<usize>
    decreases n,
{
    if n == 0 {
        selected
    } else {
        after_next(next_times(selected, count, (n - 1) as nat), count)
    }
}

proof fn lemma_next_times_position(i: usize, count: usize, n: nat)
    requires
        i < count,
        n <= count,
    ensures
        i + n < count ==> next_times(Some(i), count, n) == Some((i + n) as usize),
        i + n >= count ==> next_times(Some(i), count, n) == Some((i + n - count) as usize),
    decreases n,
{
    if n > 0 {
        lemma_next_times_position(i, count, (n - 1) as nat);
    }
}

/// Moving down once per row returns to the selected row.
pub proof fn law_next_cycles(s: TableSelection)
    requires
        selection_in_range(s),
        s.selected is Some,
    ensures
        next_times(s.selected, s.items_count, s.items_count as nat) == s.selected,
{
    let i = s.selected->0;
    lemma_next_times_position(i, s.items_count, s.items_count as nat);
}

} // verus!
