//! A selectable list: the ordered records of one pane plus an optional
//! selection cursor.

use vstd::prelude::*;

use crate::item::ItemInfo;

verus! {

/// Abstract value of a pane: its records and its cursor.
#[verifier::ext_equal]
pub ghost struct PaneV {
    pub entries: Seq<ItemInfo>,
    pub selected: Option<int>,
}

impl PaneV {
    /// The cursor, when set, points into the entries.
    pub open spec fn wf(self) -> bool {
        match self.selected {
            Some(i) => 0 <= i < self.entries.len(),
            None => true,
        }
    }

    /// The cursor, with the unset cursor read as position zero.
    pub open spec fn sel_or_zero(self) -> int {
        match self.selected {
            Some(i) => i,
            None => 0,
        }
    }

    /// A pane with no records and no cursor.
    pub open spec fn empty() -> PaneV {
        PaneV { entries: Seq::empty(), selected: None }
    }

    /// The cursor after a cyclic move forward: an unset cursor selects zero.
    pub open spec fn next_index(self) -> int {
        match self.selected {
            Some(i) => if i >= self.entries.len() - 1 {
                0
            } else {
                i + 1
            },
            None => 0,
        }
    }

    /// The cursor after a cyclic move backward: an unset cursor selects zero.
    pub open spec fn prev_index(self) -> int {
        match self.selected {
            Some(i) => if i == 0 {
                self.entries.len() - 1
            } else {
                i - 1
            },
            None => 0,
        }
    }

    /// `sel` where it points into `entries`, else no cursor: the rule every
    /// pane constructor applies to a tentative cursor.
    pub open spec fn clamp(entries: Seq<ItemInfo>, sel: Option<int>) -> Option<int> {
        match sel {
            Some(i) => if 0 <= i < entries.len() {
                Some(i)
            } else {
                None
            },
            None => None,
        }
    }
}

/// A pane: an ordered sequence of records and an optional selected index.
pub struct StatefulList {
    items: Vec<ItemInfo>,
    selected: Option<usize>,
}

impl View for StatefulList {
    type V = PaneV;

    closed spec fn view(&self) -> PaneV {
        PaneV {
            entries: self.items@,
            selected: match self.selected {
                Some(i) => Some(i as int),
                None => None,
            },
        }
    }
}

impl StatefulList {
    /// A new pane with the cursor unset.
    pub fn with_items(items: Vec<ItemInfo>) -> (l: StatefulList)
        ensures
            l@.entries == items@,
            l@.selected is None,
            l@.wf(),
    {
        StatefulList { items, selected: None }
    }

    /// A new pane with the cursor set to `sel` where it is `Some` and in
    /// range, unset otherwise.
    pub fn with_items_option(items: Vec<ItemInfo>, sel: Option<usize>) -> (l: StatefulList)
        ensures
            l@.entries == items@,
            l@.selected == PaneV::clamp(
                items@,
                match sel {
                    Some(i) => Some(i as int),
                    None => None,
                },
            ),
            l@.wf(),
    {
        let clamped = match sel {
            Some(i) => if i < items.len() {
                Some(i)
            } else {
                None
            },
            None => None,
        };
        StatefulList { items, selected: clamped }
    }

    /// A new pane with the cursor set to `sel`, which the caller has already
    /// bounded.
    pub fn with_items_select(items: Vec<ItemInfo>, sel: usize) -> (l: StatefulList)
        requires
            (sel as int) < items@.len(),
        ensures
            l@.entries == items@,
            l@.selected == Some(sel as int),
            l@.wf(),
    {
        StatefulList { items, selected: Some(sel) }
    }

    pub fn len(&self) -> (r: usize)
        ensures
            r == self@.entries.len(),
    {
        self.items.len()
    }

    pub fn is_empty(&self) -> (r: bool)
        ensures
            r == (self@.entries.len() == 0),
    {
        self.items.len() == 0
    }

    /// The record at position `i`.
    pub fn entry_at(&self, i: usize) -> (r: &ItemInfo)
        requires
            (i as int) < self@.entries.len(),
        ensures
            *r == self@.entries[i as int],
    {
        &self.items[i]
    }

    /// A copy of the records, for rendering.
    pub fn clone_items(&self) -> (r: Vec<ItemInfo>)
        ensures
            r@ == self@.entries,
    {
        let r = self.items.clone();
        proof {
            assert forall|i: int| 0 <= i < self.items@.len() implies r@[i] == self.items@[i] by {
                assert(cloned(self.items@[i], r@[i]));
            }
            assert(r@ =~= self.items@);
        }
        r
    }

    pub fn selected_opt(&self) -> (r: Option<usize>)
        ensures
            self@.selected == match r {
                Some(i) => Some(i as int),
                None => None::<int>,
            },
    {
        self.selected
    }

    /// The cursor, with the unset cursor read as position zero.
    pub fn selected(&self) -> (r: usize)
        ensures
            r == self@.sel_or_zero(),
    {
        match self.selected {
            Some(i) => i,
            None => 0,
        }
    }

    /// Cyclic move forward; returns the new cursor.  A no-op returning zero
    /// on an empty pane.
    pub fn next(&mut self) -> (r: usize)
        requires
            old(self)@.wf(),
        ensures
            final(self)@.entries == old(self)@.entries,
            final(self)@.wf(),
            old(self)@.entries.len() == 0 ==> final(self)@ == old(self)@ && r == 0,
            old(self)@.entries.len() > 0 ==> r == old(self)@.next_index() && final(self)@.selected
                == Some(old(self)@.next_index()),
    {
        if self.items.len() == 0 {
            return 0;
        }
        let i = match self.selected {
            Some(i) => if i >= self.items.len() - 1 {
                0
            } else {
                i + 1
            },
            None => 0,
        };
        self.selected = Some(i);
        i
    }

    /// Cyclic move backward; returns the new cursor.  A no-op returning zero
    /// on an empty pane.
    pub fn previous(&mut self) -> (r: usize)
        requires
            old(self)@.wf(),
        ensures
            final(self)@.entries == old(self)@.entries,
            final(self)@.wf(),
            old(self)@.entries.len() == 0 ==> final(self)@ == old(self)@ && r == 0,
            old(self)@.entries.len() > 0 ==> r == old(self)@.prev_index() && final(self)@.selected
                == Some(old(self)@.prev_index()),
    {
        if self.items.len() == 0 {
            return 0;
        }
        let i = match self.selected {
            Some(i) => if i == 0 {
                self.items.len() - 1
            } else {
                i - 1
            },
            None => 0,
        };
        self.selected = Some(i);
        i
    }

    /// Sets the cursor; the caller has already bounded the index.
    pub fn select(&mut self, i: usize)
        requires
            (i as int) < old(self)@.entries.len(),
        ensures
            final(self)@.entries == old(self)@.entries,
            final(self)@.selected == Some(i as int),
            final(self)@.wf(),
    {
        self.selected = Some(i);
    }

    /// Sets the cursor to `sel` where it is `Some` and in range, unset
    /// otherwise.
    pub fn select_opt(&mut self, sel: Option<usize>)
        ensures
            final(self)@.entries == old(self)@.entries,
            final(self)@.selected == PaneV::clamp(
                old(self)@.entries,
                match sel {
                    Some(i) => Some(i as int),
                    None => None,
                },
            ),
            final(self)@.wf(),
    {
        self.selected = match sel {
            Some(i) => if i < self.items.len() {
                Some(i)
            } else {
                None
            },
            None => None,
        };
    }

    /// The records, moved out of the pane.
    pub fn into_items(self) -> (r: Vec<ItemInfo>)
        ensures
            r@ == self@.entries,
    {
        self.items
    }

    /// Clears the cursor.
    pub fn unselect(&mut self)
        ensures
            final(self)@.entries == old(self)@.entries,
            final(self)@.selected is None,
            final(self)@.wf(),
    {
        self.selected = None;
    }
}

} // verus!
