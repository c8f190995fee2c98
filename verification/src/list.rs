//! A paginated, selectable list: the shape every fetched collection takes.
//!
//! The invariant that matters is the cursor's: it is `None` exactly when
//! nothing is selected, and otherwise a valid index into the items. Every
//! operation below preserves it, so a cursor can never point past the end
//! of a just-shrunk list; replacement resets it to the first row.

use vstd::prelude::*;

verus! {

#[derive(Debug)]
pub struct PaginatedList<T> {
    pub items: Vec<T>,
    pub cursor: Option<usize>,
    pub loading: bool,
    pub last_error: Option<String>,
}

impl<T> PaginatedList<T> {
    /// The cursor is either cleared or a valid index.
    pub open spec fn cursor_ok(self) -> bool {
        match self.cursor {
            Some(i) => i < self.items@.len(),
            None => true,
        }
    }

    /// The cursor a wholesale replacement leaves behind: the first row if
    /// anything was fetched, cleared otherwise.
    pub open spec fn spec_reset_cursor(len: nat) -> Option<usize> {
        if len > 0 {
            Some(0usize)
        } else {
            None
        }
    }

    /// An empty, idle list.
    pub fn new() -> (r: Self)
        ensures
            r.items@.len() == 0,
            r.cursor is None,
            !r.loading,
            r.last_error is None,
            r.cursor_ok(),
    {
        PaginatedList { items: Vec::new(), cursor: None, loading: false, last_error: None }
    }

    /// Marks the list as loading and clears any previous error, as the
    /// caller must do before dispatching a fetch for it.
    pub fn begin_load(&mut self)
        ensures
            *final(self) == (PaginatedList { loading: true, last_error: None, ..*old(self) }),
    {
        self.loading = true;
        self.last_error = None;
    }

    /// Replaces the items wholesale, ending the load. The cursor resets to
    /// the first row, or to nothing if the new list is empty.
    pub fn replace(&mut self, items: Vec<T>)
        ensures
            *final(self) == (PaginatedList {
                items,
                cursor: Self::spec_reset_cursor(items@.len()),
                loading: false,
                ..*old(self)
            }),
            final(self).cursor_ok(),
    {
        let cursor: Option<usize> = if items.len() > 0 {
            Some(0)
        } else {
            None
        };
        self.items = items;
        self.cursor = cursor;
        self.loading = false;
    }

    /// Records a failed fetch, ending the load. Items and cursor stay.
    pub fn fail(&mut self, message: String)
        ensures
            *final(self) == (PaginatedList {
                loading: false,
                last_error: Some(message),
                ..*old(self)
            }),
    {
        self.loading = false;
        self.last_error = Some(message);
    }

    /// Clears the items and the cursor without touching the flags.
    pub fn clear_items(&mut self)
        ensures
            *final(self) == (PaginatedList { items: final(self).items, cursor: None, ..*old(self) }),
            final(self).items@.len() == 0,
            final(self).cursor_ok(),
    {
        self.items = Vec::new();
        self.cursor = None;
    }

    /// The cursor after one step down: wraps from the last row to the
    /// first; an empty list keeps no selection; no selection selects the
    /// first row.
    pub open spec fn spec_next_cursor(self) -> Option<usize> {
        if self.items@.len() == 0 {
            None
        } else {
            match self.cursor {
                Some(i) => if i + 1 >= self.items@.len() {
                    Some(0usize)
                } else {
                    Some((i + 1) as usize)
                },
                None => Some(0usize),
            }
        }
    }

    /// The cursor after one step up: wraps from the first row to the last.
    pub open spec fn spec_prev_cursor(self) -> Option<usize> {
        if self.items@.len() == 0 {
            None
        } else {
            match self.cursor {
                Some(i) => if i == 0 {
                    Some((self.items@.len() - 1) as usize)
                } else {
                    Some((i - 1) as usize)
                },
                None => Some(0usize),
            }
        }
    }

    /// Moves the selection one row down, wrapping at the end.
    pub fn select_next(&mut self)
        requires
            old(self).cursor_ok(),
        ensures
            *final(self) == (PaginatedList { cursor: old(self).spec_next_cursor(), ..*old(self) }),
            final(self).cursor_ok(),
    {
        if self.items.len() == 0 {
            self.cursor = None;
        } else {
            self.cursor = match self.cursor {
                Some(i) => if i + 1 >= self.items.len() {
                    Some(0)
                } else {
                    Some(i + 1)
                },
                None => Some(0),
            };
        }
    }

    /// Moves the selection one row up, wrapping at the start.
    pub fn select_prev(&mut self)
        requires
            old(self).cursor_ok(),
        ensures
            *final(self) == (PaginatedList { cursor: old(self).spec_prev_cursor(), ..*old(self) }),
            final(self).cursor_ok(),
    {
        if self.items.len() == 0 {
            self.cursor = None;
        } else {
            self.cursor = match self.cursor {
                Some(i) => if i == 0 {
                    Some(self.items.len() - 1)
                } else {
                    Some(i - 1)
                },
                None => Some(0),
            };
        }
    }

    /// The selected item's index, if any row is selected.
    pub fn selected(&self) -> (r: Option<usize>)
        ensures
            r == self.cursor,
    {
        self.cursor
    }
}

} // verus!
