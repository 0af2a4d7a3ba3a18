//! The damage set: the rows that changed since the last draw.

use vstd::prelude::*;

verus! {

/// The set of all row indices below `n`.
pub open spec fn all_rows(n: nat) -> Set<int> {
    Set::new(|i: int| 0 <= i < n)
}

/// The rows marked dirty since the set was last cleared, kept as one flag per
/// row and a flag that stands for all rows. Its view is the set of dirty rows.
pub struct Damage {
    all: bool,
    rows: Vec<bool>,
}

impl Damage {
    /// The dirty rows.
    pub closed spec fn view(&self) -> Set<int> {
        Set::new(|i: int| 0 <= i < self.rows@.len() && (self.all || self.rows@[i]))
    }

    /// The number of rows that the set ranges over.
    pub closed spec fn height(&self) -> nat {
        self.rows@.len()
    }

    /// Every dirty row is a row: the view is a subset of `all_rows(height())`.
    pub proof fn lemma_in_range(&self)
        ensures
            self@.subset_of(all_rows(self.height())),
    {
    }

    /// A set over `n` rows with every row dirty.
    pub fn new(n: usize) -> (d: Damage)
        ensures
            d.height() == n,
            d@ == all_rows(n as nat),
    {
        let mut rows: Vec<bool> = Vec::new();
        let mut i: usize = 0;
        while i < n
            invariant
                i <= n,
                rows@.len() == i,
                forall|k: int| 0 <= k < i ==> !rows@[k],
            decreases n - i,
        {
            rows.push(false);
            i += 1;
        }
        let d = Damage { all: true, rows };
        assert(d@ =~= all_rows(n as nat));
        d
    }

    /// Marks `row` dirty. A row outside the range is not recorded.
    pub fn mark(&mut self, row: usize)
        ensures
            final(self).height() == old(self).height(),
            final(self)@ == (if row < old(self).height() {
                old(self)@.insert(row as int)
            } else {
                old(self)@
            }),
    {
        if row < self.rows.len() {
            self.rows[row] = true;
            assert(self@ =~= old(self)@.insert(row as int));
        }
    }

    /// Marks the rows `from..to` dirty.
    pub fn mark_range(&mut self, from: usize, to: usize)
        requires
            from <= to <= old(self).height(),
        ensures
            final(self).height() == old(self).height(),
            final(self)@ == old(self)@.union(Set::new(|i: int| from <= i < to)),
    {
        let mut r: usize = from;
        while r < to
            invariant
                from <= r <= to <= self.height(),
                self.height() == old(self).height(),
                self@ == old(self)@.union(Set::new(|i: int| from <= i < r)),
            decreases to - r,
        {
            self.mark(r);
            r += 1;
        }
    }

    /// Marks every row dirty.
    pub fn mark_all(&mut self)
        ensures
            final(self).height() == old(self).height(),
            final(self)@ == all_rows(old(self).height()),
    {
        self.all = true;
        assert(self@ =~= all_rows(old(self).height()));
    }

    /// Whether `row` is dirty.
    pub fn is_dirty(&self, row: usize) -> (b: bool)
        ensures
            b == self@.contains(row as int),
    {
        row < self.rows.len() && (self.all || self.rows[row])
    }

    /// Marks every row clean.
    pub fn clear(&mut self)
        ensures
            final(self).height() == old(self).height(),
            final(self)@ == Set::<int>::empty(),
    {
        self.all = false;
        let n = self.rows.len();
        let mut i: usize = 0;
        while i < n
            invariant
                i <= n,
                n == self.rows@.len(),
                n == old(self).height(),
                !self.all,
                forall|k: int| 0 <= k < i ==> !self.rows@[k],
            decreases n - i,
        {
            self.rows[i] = false;
            i += 1;
        }
        assert(self@ =~= Set::<int>::empty());
    }

    /// Makes the set range over `n` rows, all of them dirty.
    pub fn reset(&mut self, n: usize)
        ensures
            final(self).height() == n,
            final(self)@ == all_rows(n as nat),
    {
        *self = Damage::new(n);
    }
}

} // verus!
