//! Scrollback: the rows that have left the top of the grid, oldest first, in
//! a ring of fixed capacity.

use vstd::prelude::*;
use crate::cell::Cell;

verus! {

/// The history after `row` has entered a ring of capacity `cap`: with no
/// capacity nothing is kept; at capacity the oldest row is dropped.
pub open spec fn pushed(history: Seq<Seq<Cell>>, cap: nat, row: Seq<Cell>) -> Seq<Seq<Cell>> {
    if cap == 0 {
        history
    } else if history.len() < cap {
        history.push(row)
    } else {
        history.skip(1).push(row)
    }
}

/// The slot that holds the `i`-th oldest row of a ring with `len` slots whose
/// oldest row is in slot `start`.
pub open spec fn slot_of(start: int, len: int, i: int) -> int {
    if start + i < len { start + i } else { start + i - len }
}

/// A ring buffer of rows. Its view is the kept rows, oldest first.
pub struct Scrollback {
    slots: Vec<Vec<Cell>>,
    start: usize,
    cap: usize,
}

impl Scrollback {
    /// The kept rows, oldest first.
    pub closed spec fn view(&self) -> Seq<Seq<Cell>> {
        Seq::new(
            self.slots@.len(),
            |i: int| self.slots@[slot_of(self.start as int, self.slots@.len() as int, i)]@,
        )
    }

    /// The largest number of rows that the ring keeps.
    pub closed spec fn capacity(&self) -> nat {
        self.cap as nat
    }

    /// The ring's invariant; it implies that at most `capacity()` rows are kept.
    pub closed spec fn wf(&self) -> bool {
        &&& self.slots@.len() <= self.cap
        &&& self.slots@.len() < self.cap ==> self.start == 0
        &&& self.slots@.len() > 0 ==> self.start < self.slots@.len()
    }

    /// A well-formed ring keeps at most `capacity()` rows.
    pub proof fn lemma_bounded(&self)
        requires
            self.wf(),
        ensures
            self@.len() <= self.capacity(),
    {
    }

    /// An empty ring that keeps up to `cap` rows.
    pub fn new(cap: usize) -> (s: Scrollback)
        ensures
            s.wf(),
            s@ == Seq::<Seq<Cell>>::empty(),
            s.capacity() == cap,
    {
        let s = Scrollback { slots: Vec::new(), start: 0, cap };
        assert(s@ =~= Seq::<Seq<Cell>>::empty());
        s
    }

    /// The number of rows kept.
    pub fn len(&self) -> (n: usize)
        ensures
            n == self@.len(),
    {
        self.slots.len()
    }

    /// The largest number of rows that the ring keeps.
    pub fn cap(&self) -> (n: usize)
        ensures
            n == self.capacity(),
    {
        self.cap
    }

    /// The `i`-th oldest row.
    pub fn get(&self, i: usize) -> (row: &Vec<Cell>)
        requires
            self.wf(),
            i < self@.len(),
        ensures
            row@ == self@[i as int],
    {
        let len = self.slots.len();
        let k: usize = if i < len - self.start { self.start + i } else { i - (len - self.start) };
        &self.slots[k]
    }

    /// Takes in `row` as the newest row. At capacity the oldest row is dropped.
    pub fn push(&mut self, row: Vec<Cell>)
        requires
            old(self).wf(),
        ensures
            final(self).wf(),
            final(self).capacity() == old(self).capacity(),
            final(self)@ == pushed(old(self)@, old(self).capacity(), row@),
    {
        if self.cap == 0 {
        } else if self.slots.len() < self.cap {
            self.slots.push(row);
            assert(self@ =~= old(self)@.push(row@));
        } else {
            let at = self.start;
            self.slots[at] = row;
            self.start = if at + 1 == self.cap { 0 } else { at + 1 };
            assert(self@ =~= old(self)@.skip(1).push(row@));
        }
    }

    /// Drops every row.
    pub fn clear(&mut self)
        requires
            old(self).wf(),
        ensures
            final(self).wf(),
            final(self).capacity() == old(self).capacity(),
            final(self)@ == Seq::<Seq<Cell>>::empty(),
    {
        self.slots = Vec::new();
        self.start = 0;
        assert(self@ =~= Seq::<Seq<Cell>>::empty());
    }
}

} // verus!
