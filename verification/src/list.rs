use vstd::prelude::*;

verus! {

/// An ordered list with a single optional selected index and wrapping cursor
/// movement.
///
/// Invariant (`wf`): a selected index always lies inside the list; an empty
/// list has no selection. Every operation is total: navigation on an empty
/// list is a no-op.
#[derive(Clone, Debug, PartialEq)]
pub struct StatefulList<T> {
    /// The items, in the order the producer handed them over.
    pub items: Vec<T>,
    /// The selected index, if any.
    pub selected: Option<usize>,
}

/// The selection after one forward step over a list of length `len`:
/// no-op when the list is empty, first index when nothing was selected,
/// otherwise one step forward, wrapping from the last index to the first.
pub open spec fn next_sel(sel: Option<int>, len: int) -> Option<int> {
    if len == 0 {
        sel
    } else {
        match sel {
            Option::Some(i) => if i >= len - 1 {
                Option::Some(0)
            } else {
                Option::Some(i + 1)
            },
            Option::None => Option::Some(0),
        }
    }
}

/// The selection after one backward step over a list of length `len`:
/// no-op when the list is empty, first index when nothing was selected,
/// otherwise one step backward, wrapping from the first index to the last.
pub open spec fn prev_sel(sel: Option<int>, len: int) -> Option<int> {
    if len == 0 {
        sel
    } else {
        match sel {
            Option::Some(i) => if i == 0 {
                Option::Some(len - 1)
            } else {
                Option::Some(i - 1)
            },
            Option::None => Option::Some(0),
        }
    }
}

/// The selection after `k` forward steps over a list of length `len`.
pub open spec fn next_sel_iter(sel: Option<int>, len: int, k: nat) -> Option<int>
    decreases k,
{
    if k == 0 {
        sel
    } else {
        next_sel(next_sel_iter(sel, len, (k - 1) as nat), len)
    }
}

impl<T> StatefulList<T> {
    /// The length of the list, as a mathematical integer.
    pub open spec fn spec_len(self) -> int {
        self.items@.len() as int
    }

    /// The selection, as a mathematical integer.
    pub open spec fn spec_sel(self) -> Option<int> {
        match self.selected {
            Option::Some(i) => Option::Some(i as int),
            Option::None => Option::None,
        }
    }

    /// Well-formedness: a selected index lies inside the list.
    pub open spec fn wf(self) -> bool {
        match self.selected {
            Option::Some(i) => i < self.items@.len(),
            Option::None => true,
        }
    }

    /// An empty list with no selection.
    pub fn new() -> (l: StatefulList<T>)
        ensures
            l.items@ == Seq::<T>::empty(),
            l.selected is None,
            l.wf(),
    {
        StatefulList { items: Vec::new(), selected: None }
    }

    /// A list over the given items: index 0 is selected when there are any
    /// items, and nothing is selected otherwise.
    pub fn with_items(items: Vec<T>) -> (l: StatefulList<T>)
        ensures
            l.items == items,
            items@.len() > 0 ==> l.selected == Option::Some(0usize),
            items@.len() == 0 ==> l.selected is None,
            l.wf(),
    {
        let selected: Option<usize> = if items.len() > 0 {
            Some(0)
        } else {
            None
        };
        StatefulList { items, selected }
    }

    /// The selected index, or `None`.
    pub fn get_index(&self) -> (r: Option<usize>)
        ensures
            r == self.selected,
    {
        self.selected
    }

    /// Moves the selection one step forward, wrapping from the last item to
    /// the first; selects index 0 when nothing was selected; does nothing on
    /// an empty list.
    pub fn next(&mut self)
        ensures
            final(self).items == old(self).items,
            final(self).spec_sel() == next_sel(old(self).spec_sel(), old(self).spec_len()),
            old(self).wf() ==> final(self).wf(),
    {
        if self.items.is_empty() {
            return;
        }
        let i: usize = match self.selected {
            Some(i) => if i >= self.items.len() - 1 {
                0
            } else {
                i + 1
            },
            None => 0,
        };
        self.selected = Some(i);
    }

    /// Moves the selection one step backward, wrapping from the first item to
    /// the last; selects index 0 when nothing was selected; does nothing on an
    /// empty list.
    pub fn previous(&mut self)
        ensures
            final(self).items == old(self).items,
            final(self).spec_sel() == prev_sel(old(self).spec_sel(), old(self).spec_len()),
            old(self).wf() ==> final(self).wf(),
    {
        if self.items.is_empty() {
            return;
        }
        let i: usize = match self.selected {
            Some(i) => if i == 0 {
                self.items.len() - 1
            } else {
                i - 1
            },
            None => 0,
        };
        self.selected = Some(i);
    }

    /// Clears the selection.
    pub fn unselect(&mut self)
        ensures
            final(self).items == old(self).items,
            final(self).selected is None,
            final(self).wf(),
    {
        self.selected = None;
    }
}

/// After `k` forward steps from a selected index `i`, the selection stands at
/// `i + k`, reduced once by the length where it has wrapped past the end.
proof fn lemma_next_steps(i: int, len: int, k: nat)
    requires
        0 <= i < len,
        k <= len,
    ensures
        next_sel_iter(Option::Some(i), len, k) == Option::Some(
            if i + k < len {
                i + k
            } else {
                i + k - len
            },
        ),
    decreases k,
{
    if k > 0 {
        lemma_next_steps(i, len, (k - 1) as nat);
    }
}

/// Wraparound closure: stepping the selection forward once per item returns
/// it to where it started. It holds of every well-formed list that either is
/// empty or has a selection.
pub proof fn lemma_next_full_cycle(sel: Option<int>, len: int)
    requires
        0 <= len,
        sel matches Option::Some(i) ==> 0 <= i < len,
        len > 0 ==> sel is Some,
    ensures
        next_sel_iter(sel, len, len as nat) == sel,
{
    if len > 0 {
        lemma_next_steps(sel->0, len, len as nat);
    }
}

/// Stepping backward exactly undoes stepping forward, and stepping forward
/// exactly undoes stepping backward. It holds of every well-formed list that
/// either is empty or has a selection.
pub proof fn lemma_prev_inverts_next(sel: Option<int>, len: int)
    requires
        0 <= len,
        sel matches Option::Some(i) ==> 0 <= i < len,
        len > 0 ==> sel is Some,
    ensures
        prev_sel(next_sel(sel, len), len) == sel,
        next_sel(prev_sel(sel, len), len) == sel,
{
}

} // verus!
