//! The connection-handle table.
//!
//! The table owns every live connection and is the sole authority translating
//! an opaque handle to one.  It is an arena of slots: a handle is a slot
//! index, a slot is live while it holds a connection, and a freed slot may be
//! reused for a later connection only after it was invalidated.  A
//! caller-supplied handle is never trusted: lookup checks occupancy first.

use vstd::prelude::*;

verus! {

/// An arena of connection slots with a fixed maximum number of simultaneous
/// entries.
pub struct Table<C> {
    entries: Vec<Option<C>>,
    capacity: usize,
}

impl<C> Table<C> {
    /// The slots, in handle order: `Some` where a connection is live.
    pub closed spec fn slots(&self) -> Seq<Option<C>> {
        self.entries@
    }

    /// The maximum number of simultaneous connections.
    pub closed spec fn capacity(&self) -> nat {
        self.capacity as nat
    }

    /// Slots never outnumber the capacity, and every slot index fits a handle.
    pub open spec fn wf(&self) -> bool {
        self.slots().len() <= self.capacity() && self.capacity() <= u32::MAX as nat
    }

    /// Whether `h` references a live connection.
    pub open spec fn live(&self, h: u32) -> bool {
        h < self.slots().len() && self.slots()[h as int] is Some
    }

    /// Whether the table has reached its maximum: no slot is free and no slot
    /// can be added.
    pub open spec fn full(&self) -> bool {
        self.slots().len() == self.capacity() && forall|j: int|
            0 <= j < self.slots().len() ==> self.slots()[j] is Some
    }

    /// An empty table for at most `capacity` simultaneous connections.
    pub fn new(capacity: usize) -> (t: Table<C>)
        requires
            capacity <= u32::MAX as usize,
        ensures
            t.wf(),
            t.capacity() == capacity,
            t.slots() == Seq::<Option<C>>::empty(),
    {
        Table { entries: Vec::new(), capacity }
    }

    /// Stores a newly established connection and returns a fresh handle for
    /// it; gives the connection back if the table is full.
    pub fn open(&mut self, value: C) -> (r: Result<u32, C>)
        requires
            old(self).wf(),
        ensures
            final(self).wf(),
            final(self).capacity() == old(self).capacity(),
            !old(self).full() ==> r is Ok,
            r matches Err(c) ==> c == value && old(self).full() && *final(self) == *old(self),
            r matches Ok(h) ==> {
                &&& !old(self).live(h)
                &&& (h as int) <= old(self).slots().len()
                &&& (h as int) < old(self).slots().len() ==> final(self).slots() == old(
                    self,
                ).slots().update(h as int, Some(value))
                &&& (h as int) == old(self).slots().len() ==> final(self).slots() == old(
                    self,
                ).slots().push(Some(value))
            },
    {
        let ghost pre = *self;
        let mut i: usize = 0;
        while i < self.entries.len()
            invariant
                *self == pre,
                pre == *old(self),
                pre.wf(),
                i <= pre.slots().len(),
                forall|j: int| 0 <= j < i ==> pre.slots()[j] is Some,
            decreases pre.slots().len() - i,
        {
            if self.entries[i].is_none() {
                self.entries[i] = Some(value);
                return Ok(i as u32);
            }
            i += 1;
        }
        if self.entries.len() < self.capacity {
            let h = self.entries.len();
            self.entries.push(Some(value));
            Ok(h as u32)
        } else {
            assert(self.full());
            Err(value)
        }
    }

    /// Removes the entry of `h` and hands its connection out, releasing the
    /// slot immediately; an unknown handle is a no-op.  Paired with
    /// [`Table::restore`], this is also how a live connection is borrowed for
    /// the duration of one command.
    pub fn close(&mut self, h: u32) -> (r: Option<C>)
        requires
            old(self).wf(),
        ensures
            final(self).wf(),
            final(self).capacity() == old(self).capacity(),
            !old(self).live(h) ==> r is None && final(self).slots() == old(self).slots(),
            old(self).live(h) ==> {
                &&& r matches Some(c) && old(self).slots()[h as int] == Some(c)
                &&& final(self).slots() == old(self).slots().update(h as int, None::<C>)
                &&& !final(self).live(h)
            },
    {
        if (h as usize) < self.entries.len() {
            let r = self.entries[h as usize].take();
            proof {
                if !old(self).live(h) {
                    assert(final(self).slots() =~= old(self).slots());
                }
            }
            r
        } else {
            None
        }
    }

    /// Puts a connection back into the slot it was taken from.
    pub fn restore(&mut self, h: u32, value: C)
        requires
            old(self).wf(),
            h < old(self).slots().len(),
            old(self).slots()[h as int] is None,
        ensures
            final(self).wf(),
            final(self).capacity() == old(self).capacity(),
            final(self).slots() == old(self).slots().update(h as int, Some(value)),
            final(self).live(h),
    {
        self.entries[h as usize] = Some(value);
    }

    /// Whether `h` currently references a live connection.
    pub fn contains(&self, h: u32) -> (r: bool)
        ensures
            r == self.live(h),
    {
        (h as usize) < self.entries.len() && self.entries[h as usize].is_some()
    }
}

/// Closing a live handle frees exactly one slot: afterwards the handle no
/// longer resolves, every other slot is as it was, and the table is no longer
/// full, so one more connection can be opened.
pub proof fn lemma_close_frees_slot<C>(pre: Table<C>, post: Table<C>, h: u32)
    requires
        pre.wf(),
        pre.live(h),
        post.capacity() == pre.capacity(),
        post.slots() == pre.slots().update(h as int, None::<C>),
    ensures
        !post.live(h),
        !post.full(),
        forall|j: u32| j != h ==> post.live(j) == pre.live(j),
{
    assert(post.slots()[h as int] is None);
    assert forall|j: u32| j != h implies post.live(j) == pre.live(j) by {
        if (j as int) < pre.slots().len() {
            assert(post.slots()[j as int] == pre.slots()[j as int]);
        }
    }
}

} // verus!
