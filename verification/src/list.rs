//! A list with a selection cursor, the common shape of every view's list.
//!
//! The cursor is clamped to the bounds of the list and never wraps around.

use vstd::prelude::*;

verus! {

/// Direction of a cursor move inside a list.
#[derive(Clone, Copy, Debug, PartialEq, Eq, Structural)]
pub enum Navigation {
    Previous,
    Next,
}

/// An ordered list of items together with an optional selection cursor.
#[derive(Clone, Debug)]
pub struct List<T> {
    pub items: Vec<T>,
    pub selected: Option<usize>,
}

/// Where a cursor over `len` items stands after one move: clamped to
/// `[0, len-1]`, never wrapping. On an unset cursor, `Next` starts at the
/// first item and `Previous` at the last.
pub open spec fn nav_index(len: nat, sel: Option<usize>, direction: Navigation) -> Option<usize> {
    if len == 0 {
        None
    } else {
        match direction {
            Navigation::Next => match sel {
                None => Some(0usize),
                Some(i) => if i + 1 < len {
                    Some((i + 1) as usize)
                } else {
                    Some((len - 1) as usize)
                },
            },
            Navigation::Previous => match sel {
                None => Some((len - 1) as usize),
                Some(i) => if i == 0 {
                    Some(0usize)
                } else if i >= len {
                    Some((len - 1) as usize)
                } else {
                    Some((i - 1) as usize)
                },
            },
        }
    }
}

/// Move a cursor over `len` items one step, as `nav_index` says.
pub fn nav_cursor(len: usize, sel: Option<usize>, direction: Navigation) -> (r: Option<usize>)
    ensures
        r == nav_index(len as nat, sel, direction),
        r matches Some(i) ==> i < len,
{
    if len == 0 {
        return None;
    }
    let last: usize = len - 1;
    let new_index: usize = match direction {
        Navigation::Next => match sel {
            None => 0,
            Some(i) => if i < last {
                i + 1
            } else {
                last
            },
        },
        Navigation::Previous => match sel {
            None => last,
            Some(i) => if i == 0 {
                0
            } else if i >= len {
                last
            } else {
                i - 1
            },
        },
    };
    Some(new_index)
}

/// How one `delete_selected` call relates the list before to the list
/// after: on a list of length `n >= 1` with cursor `i` the result has
/// length `n - 1`; the cursor is cleared when the list becomes empty,
/// moved to the new last index when the removed item was the last one,
/// and kept unchanged otherwise. Without a cursor nothing changes.
pub open spec fn spec_delete_rel<T>(pre: List<T>, post: List<T>) -> bool {
    match pre.selected {
        None => post == pre,
        Some(i) => {
            &&& post.items@ == pre.items@.remove(i as int)
            &&& post.selected == (if pre.items@.len() == 1 {
                None::<usize>
            } else if i == pre.items@.len() - 1 {
                Some((i - 1) as usize)
            } else {
                Some(i)
            })
        },
    }
}

impl<T> List<T> {
    /// The selection cursor, when set, points at an item of the list.
    pub open spec fn wf(&self) -> bool {
        self.selected matches Some(i) ==> i < self.items.len()
    }

    /// Where the cursor stands after one move: clamped to `[0, len-1]`,
    /// never wrapping. On an unset cursor, `Next` starts at the first item
    /// and `Previous` at the last.
    pub open spec fn spec_navigate(&self, direction: Navigation) -> Option<usize> {
        nav_index(self.items@.len(), self.selected, direction)
    }

    pub fn new() -> (r: List<T>)
        ensures
            r.items@ == Seq::<T>::empty(),
            r.selected is None,
            r.wf(),
    {
        List { items: Vec::new(), selected: None }
    }

    /// Move the selection cursor one step; the items are untouched and the
    /// cursor stays inside the bounds of the list.
    pub fn navigate(&mut self, direction: Navigation)
        requires
            old(self).wf(),
        ensures
            final(self).wf(),
            final(self).items == old(self).items,
            final(self).selected == old(self).spec_navigate(direction),
    {
        self.selected = nav_cursor(self.items.len(), self.selected, direction);
    }

    /// Remove the item under the cursor. On a list of length `n >= 1` with
    /// cursor `i`, the result has length `n - 1`; the cursor is cleared when
    /// the list becomes empty, moved to the new last index when the removed
    /// item was the last one, and kept unchanged otherwise. Without a cursor
    /// nothing changes.
    pub fn delete_selected(&mut self)
        requires
            old(self).wf(),
        ensures
            final(self).wf(),
            spec_delete_rel(*old(self), *final(self)),
    {
        if let Some(i) = self.selected {
            self.items.remove(i);
            let len = self.items.len();
            if len == 0 {
                self.selected = None;
            } else if i >= len {
                self.selected = Some(len - 1);
            }
        }
    }
}

/// The cursor after a whole run of moves, folded one step at a time.
pub open spec fn navigate_all<T>(l: List<T>, moves: Seq<Navigation>) -> List<T>
    decreases moves.len(),
{
    if moves.len() == 0 {
        l
    } else {
        navigate_all(
            List { items: l.items, selected: l.spec_navigate(moves[0]) },
            moves.drop_first(),
        )
    }
}

/// At the ends of the list the cursor stays put instead of wrapping:
/// `Next` on the last item and `Previous` on the first are no-ops.
pub proof fn lemma_navigation_never_wraps<T>(l: List<T>, direction: Navigation)
    requires
        l.wf(),
        l.items@.len() > 0,
    ensures
        l.selected == Some((l.items@.len() - 1) as usize) && direction is Next
            ==> l.spec_navigate(direction) == l.selected,
        l.selected == Some(0usize) && direction is Previous ==> l.spec_navigate(direction)
            == l.selected,
{
}

/// Under any sequence of cursor moves the items never change and the cursor
/// never leaves `[0, len-1]`.
pub proof fn lemma_navigation_stays_in_bounds<T>(l: List<T>, moves: Seq<Navigation>)
    requires
        l.wf(),
    ensures
        navigate_all(l, moves).wf(),
        navigate_all(l, moves).items == l.items,
    decreases moves.len(),
{
    if moves.len() > 0 {
        let next = List { items: l.items, selected: l.spec_navigate(moves[0]) };
        lemma_navigation_stays_in_bounds(next, moves.drop_first());
    }
}

} // verus!


