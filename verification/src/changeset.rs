//! Conservative sets of changed stable-row ranges.
//!
//! A [`RangeSet`] reports which rows of a pane changed since a caller's last
//! observation.  It stores half-open spans of [`StableRowIndex`] values; the
//! set of rows it denotes is the union of its spans.

use vstd::prelude::*;
use crate::StableRowIndex;

verus! {

/// A set of stable row indices, stored as half-open `[start, end)` spans.
pub struct RangeSet {
    pub spans: Vec<(StableRowIndex, StableRowIndex)>,
}

impl RangeSet {
    /// Every stored span is non-empty.
    pub open spec fn wf(&self) -> bool {
        forall|k: int|
            0 <= k < self.spans@.len() ==> (#[trigger] self.spans@[k]).0 < self.spans@[k].1
    }

    /// Whether row `r` belongs to the set.
    pub open spec fn contains_row(&self, r: int) -> bool {
        exists|k: int|
            0 <= k < self.spans@.len() && (#[trigger] self.spans@[k]).0 <= r < self.spans@[k].1
    }

    /// The empty set.
    pub fn new() -> (s: Self)
        ensures
            s.wf(),
            forall|r: int| !s.contains_row(r),
    {
        RangeSet { spans: Vec::new() }
    }

    /// Adds every row of `[start, end)` to the set.
    pub fn add_span(&mut self, start: StableRowIndex, end: StableRowIndex)
        requires
            old(self).wf(),
        ensures
            final(self).wf(),
            forall|r: int|
                final(self).contains_row(r) <==> (old(self).contains_row(r) || start <= r
                    < end),
    {
        if start < end {
            self.spans.push((start, end));
            proof {
                assert forall|r: int| start <= r < end implies self.contains_row(r) by {
                    assert(self.spans@[self.spans@.len() - 1] == (start, end));
                }
                assert forall|r: int| old(self).contains_row(r) implies self.contains_row(r) by {
                    let k = choose|k: int|
                        0 <= k < old(self).spans@.len() && (#[trigger] old(self).spans@[k]).0 <= r
                            < old(self).spans@[k].1;
                    assert(self.spans@[k] == old(self).spans@[k]);
                }
            }
        }
    }

    /// Whether row `r` belongs to the set.
    pub fn contains(&self, r: StableRowIndex) -> (b: bool)
        ensures
            b == self.contains_row(r as int),
    {
        let mut k: usize = 0;
        while k < self.spans.len()
            invariant
                k <= self.spans@.len(),
                forall|j: int| 0 <= j < k ==> !((#[trigger] self.spans@[j]).0 <= r < self.spans@[j].1),
            decreases self.spans@.len() - k,
        {
            let (s, e) = self.spans[k];
            if s <= r && r < e {
                return true;
            }
            k += 1;
        }
        false
    }

    /// Whether the set holds no row.
    pub fn is_empty(&self) -> (b: bool)
        requires
            self.wf(),
        ensures
            b == !exists|r: int| self.contains_row(r),
    {
        if self.spans.len() == 0 {
            true
        } else {
            proof {
                let span = self.spans@[0];
                assert(self.contains_row(span.0 as int));
            }
            false
        }
    }

    /// Number of stored spans.
    pub fn span_count(&self) -> (n: usize)
        ensures
            n == self.spans@.len(),
    {
        self.spans.len()
    }

    /// The `k`-th stored span.
    pub fn span_at(&self, k: usize) -> (sp: (StableRowIndex, StableRowIndex))
        requires
            k < self.spans@.len(),
        ensures
            sp == self.spans@[k as int],
            self.wf() ==> forall|r: int| sp.0 <= r < sp.1 ==> self.contains_row(r),
    {
        self.spans[k]
    }
}

} // verus!
