//! The stepping logic of the lazy page enumeration: an in-progress iteration
//! is a current index and a total page count captured once at creation. Each
//! step yields the index of the page to load next and advances by one;
//! exhaustion is reaching the total. Which page indices remain is decided
//! here; loading the page at a yielded index is the document handle's work.

use vstd::prelude::*;

verus! {

/// An in-progress page enumeration: 0-based current index and the total page
/// count captured at creation. Advancing is monotonic by one; the iteration
/// is exhausted once the index reaches the total and is not restartable in
/// place — a restart is a fresh iterator.
#[derive(Debug, Clone, Copy, PartialEq, Eq, Structural)]
pub struct PageIter {
    /// The index the next step will yield, if any remains.
    pub index: i32,
    /// The page count of the source document, captured once at creation.
    pub total: i32,
}

/// A freshly created iteration over `total` pages, starting at index 0.
pub open spec fn fresh_iter(total: i32) -> PageIter {
    PageIter { index: 0, total }
}

/// The page indices 0, 1, ..., `total - 1`, in order: what one full
/// enumeration over a document with `total` pages yields.
pub open spec fn all_indices(total: i32) -> Seq<int> {
    Seq::new(if total >= 0 { total as nat } else { 0 }, |k: int| k)
}

impl PageIter {
    /// The iteration invariant: the index never leaves `0 ..= total`.
    pub open spec fn wf(self) -> bool {
        0 <= self.index <= self.total
    }

    /// The indices this iteration has yet to yield, in the order it will
    /// yield them.
    pub open spec fn remaining(self) -> Seq<int> {
        Seq::new(
            if self.index <= self.total { (self.total - self.index) as nat } else { 0 },
            |k: int| self.index + k,
        )
    }

    /// Starts a fresh enumeration over a document whose page count is
    /// `total`: at index 0, with every page index still to come.
    pub fn new(total: i32) -> (it: PageIter)
        requires
            total >= 0,
        ensures
            it == fresh_iter(total),
            it.wf(),
            it.remaining() =~= all_indices(total),
    {
        PageIter { index: 0, total }
    }

    /// One step: while pages remain, yields the current index — the page the
    /// caller must now load — and advances by one; once exhausted, yields
    /// nothing and stays put.
    pub fn next_index(&mut self) -> (r: Option<i32>)
        requires
            old(self).wf(),
        ensures
            final(self).wf(),
            final(self).total == old(self).total,
            old(self).index < old(self).total ==> r == Some(old(self).index)
                && final(self).index == old(self).index + 1
                && final(self).remaining() =~= old(self).remaining().drop_first(),
            old(self).index >= old(self).total ==> r is None && *final(self) == *old(self),
            r is Some ==> old(self).remaining().len() > 0 && r->0 == old(self).remaining()[0],
    {
        if self.index >= self.total {
            return None;
        }
        let yielded = self.index;
        self.index = self.index + 1;
        Some(yielded)
    }
}

/// Restart law: iteration state never flows from one iterator into another.
/// However far an earlier iterator over the same page count has advanced —
/// exhausted or not — a newly created one starts at index 0, has exactly the
/// full index sequence 0, 1, ..., `total - 1` still to yield, and is the very
/// iterator the earlier one started as, so it reproduces the same sequence of
/// pages.
pub proof fn lemma_restart_from_zero(earlier: PageIter, total: i32)
    requires
        total >= 0,
        earlier.total == total,
    ensures
        fresh_iter(total).index == 0,
        fresh_iter(total).remaining() =~= all_indices(total),
        fresh_iter(total) == fresh_iter(earlier.total),
{
}

} // verus!
