//! The screen model: a row-addressable terminal buffer.
//!
//! Rows are addressed by [`StableRowIndex`], a coordinate that stays valid as
//! the buffer scrolls.  Every content-affecting mutation increments the
//! screen's [`SequenceNo`] once and stamps the touched rows with the new
//! value, so `get_changed_since` can answer "what changed since sequence N"
//! exactly, and conservatively across any chain of mutations.

use vstd::prelude::*;
use crate::changeset::RangeSet;
use crate::{SequenceNo, StableRowIndex};

verus! {

/// One row of the buffer, with the sequence number of its last change.
pub struct Line {
    /// The textual content of the row.
    pub text: String,
    /// Sequence number current when this content was written.
    pub seq: SequenceNo,
}

impl Line {
    /// An exact copy of the row.
    pub fn duplicate(&self) -> (r: Line)
        ensures
            r == *self,
    {
        Line { text: self.text.clone(), seq: self.seq }
    }
}

/// Cursor position in stable row coordinates.
#[derive(Clone, Copy, Debug, PartialEq, Eq, Structural)]
pub struct StableCursorPosition {
    /// Column.
    pub x: usize,
    /// Stable row.
    pub y: StableRowIndex,
}

/// Current viewport size plus the total addressable row extent.
#[derive(Clone, Copy, Debug, PartialEq, Eq, Structural)]
pub struct RenderableDimensions {
    /// Columns of the viewport.
    pub cols: usize,
    /// Rows of the viewport.
    pub viewport_rows: usize,
    /// Total number of rows materialized locally (viewport + scrollback).
    pub scrollback_rows: usize,
    /// Stable index of the first row of the viewport.
    pub physical_top: StableRowIndex,
    /// Stable index of the first materialized row.
    pub scrollback_top: StableRowIndex,
}

/// Clamps `v` into `[lo, hi]`.
pub open spec fn clamp_spec(v: int, lo: int, hi: int) -> int
    recommends
        lo <= hi,
{
    if v < lo {
        lo
    } else if v > hi {
        hi
    } else {
        v
    }
}

/// In-memory terminal buffer with stable row addressing and change tracking.
pub struct Screen {
    /// Materialized rows; `rows[0]` has stable index `top`.
    pub rows: Vec<Line>,
    /// Stable index of the first materialized row.
    pub top: StableRowIndex,
    /// Rows of the visible viewport (the last `viewport_rows` of `rows`).
    pub viewport_rows: usize,
    /// Columns of the visible viewport.
    pub cols: usize,
    /// Cursor position.
    pub cursor: StableCursorPosition,
    /// Monotonically non-decreasing modification counter.
    pub seqno: SequenceNo,
}

impl Screen {
    /// Stable index of the first materialized row.
    pub open spec fn extent_start(&self) -> int {
        self.top as int
    }

    /// One past the stable index of the last materialized row.
    pub open spec fn extent_end(&self) -> int {
        self.top as int + self.rows@.len()
    }

    /// Whether stable row `r` is materialized.
    pub open spec fn in_extent(&self, r: int) -> bool {
        self.extent_start() <= r < self.extent_end()
    }

    /// The materialized row at stable index `r`.
    pub open spec fn line_at(&self, r: int) -> Line
        recommends
            self.in_extent(r),
    {
        self.rows@[r - self.top as int]
    }

    /// Well-formedness of the buffer.
    pub open spec fn wf(&self) -> bool {
        &&& self.extent_end() <= isize::MAX as int
        &&& self.rows@.len() <= isize::MAX as int
        &&& self.rows@.len() >= 1
        &&& self.viewport_rows >= 1
        &&& self.viewport_rows <= self.rows@.len()
        &&& forall|k: int|
            0 <= k < self.rows@.len() ==> (#[trigger] self.rows@[k]).seq <= self.seqno
        &&& self.in_extent(self.cursor.y as int)
        &&& self.cursor.x <= self.cols
    }

    /// Whether row `r` must be reported as changed to an observer that last
    /// saw sequence number `n`.
    pub open spec fn changed_since(&self, n: SequenceNo, r: int) -> bool {
        self.in_extent(r) && self.line_at(r).seq > n
    }

    /// Conservative change accounting between an earlier state `a` and a
    /// later state `b` of the same buffer: the sequence number never
    /// decreases, a row whose content differs carries a stamp newer than
    /// `a`'s counter, per-row stamps never decrease, and rows that entered
    /// the extent carry a stamp newer than `a`'s counter.
    pub open spec fn conservative_from(a: Screen, b: Screen) -> bool {
        &&& a.seqno <= b.seqno
        &&& forall|r: int|
            a.in_extent(r) && b.in_extent(r) ==> (#[trigger] b.line_at(r)).seq >= a.line_at(
                r,
            ).seq
        &&& forall|r: int|
            a.in_extent(r) && b.in_extent(r) && (#[trigger] b.line_at(r)).text@ != a.line_at(
                r,
            ).text@ ==> b.line_at(r).seq > a.seqno
        &&& forall|r: int|
            #![trigger b.line_at(r)]
            b.in_extent(r) && !a.in_extent(r) ==> b.line_at(r).seq > a.seqno
    }

    /// The result `get_lines` must produce on `[start, end)`: the base index
    /// after clamping into the materialized extent, and the rows of the
    /// clamped range.
    pub open spec fn lines_reply_spec(&self, start: int, end: int) -> (int, Seq<Line>) {
        let lo = clamp_spec(start, self.extent_start(), self.extent_end());
        let hi = clamp_spec(end, lo, self.extent_end());
        (lo, Seq::new((hi - lo) as nat, |i: int| self.line_at(lo + i)))
    }

    /// A fresh screen: a blank viewport of `viewport_rows` by `cols`, stable
    /// top at zero, sequence number zero.
    pub fn new(viewport_rows: usize, cols: usize) -> (s: Screen)
        requires
            1 <= viewport_rows,
            viewport_rows <= isize::MAX as usize,
        ensures
            s.wf(),
            s.top == 0,
            s.seqno == 0,
            s.viewport_rows == viewport_rows,
            s.cols == cols,
            s.rows@.len() == viewport_rows,
            forall|k: int| 0 <= k < viewport_rows ==> (#[trigger] s.rows@[k]).text@.len() == 0,
    {
        let mut rows: Vec<Line> = Vec::new();
        let mut k: usize = 0;
        while k < viewport_rows
            invariant
                k <= viewport_rows,
                rows@.len() == k,
                forall|j: int| 0 <= j < k ==> (#[trigger] rows@[j]).text@.len() == 0,
                forall|j: int| 0 <= j < k ==> (#[trigger] rows@[j]).seq == 0,
            decreases viewport_rows - k,
        {
            proof {
                reveal_strlit("");
            }
            rows.push(Line { text: "".to_owned(), seq: 0 });
            k += 1;
        }
        Screen {
            rows,
            top: 0,
            viewport_rows,
            cols,
            cursor: StableCursorPosition { x: 0, y: 0 },
            seqno: 0,
        }
    }

    /// Current dimensions.
    pub fn dimensions(&self) -> (d: RenderableDimensions)
        requires
            self.wf(),
        ensures
            d.cols == self.cols,
            d.viewport_rows == self.viewport_rows,
            d.scrollback_rows == self.rows@.len(),
            d.physical_top as int == self.extent_end() - self.viewport_rows,
            d.scrollback_top == self.top,
    {
        let len: usize = self.rows.len();
        RenderableDimensions {
            cols: self.cols,
            viewport_rows: self.viewport_rows,
            scrollback_rows: len,
            physical_top: self.top + (len - self.viewport_rows) as isize,
            scrollback_top: self.top,
        }
    }

    /// Materialized rows of `[start, end)`, left-clamped to the extent; the
    /// returned base index says where the returned rows actually begin.
    pub fn get_lines(&self, start: StableRowIndex, end: StableRowIndex) -> (r: (
        StableRowIndex,
        Vec<Line>,
    ))
        requires
            self.wf(),
            start <= end,
        ensures
            r.0 as int == self.lines_reply_spec(start as int, end as int).0,
            r.1@ == self.lines_reply_spec(start as int, end as int).1,
            self.extent_start() <= r.0 as int,
            r.0 as int + r.1@.len() <= self.extent_end(),
    {
        let bottom: isize = self.top + self.rows.len() as isize;
        let lo: isize = if start < self.top {
            self.top
        } else if start > bottom {
            bottom
        } else {
            start
        };
        let hi: isize = if end < lo {
            lo
        } else if end > bottom {
            bottom
        } else {
            end
        };
        let mut out: Vec<Line> = Vec::new();
        let mut r: isize = lo;
        while r < hi
            invariant
                self.wf(),
                self.top <= lo <= r <= hi,
                hi <= self.top + self.rows@.len(),
                out@.len() == r - lo,
                forall|i: int| 0 <= i < out@.len() ==> out@[i] == self.line_at(lo + i),
            decreases hi - r,
        {
            let idx: usize = (r - self.top) as usize;
            out.push(self.rows[idx].duplicate());
            r += 1;
        }
        proof {
            assert(self.lines_reply_spec(start as int, end as int).1 =~= out@);
        }
        (lo, out)
    }

    /// Changed rows of `[start, end)` since sequence number `n`, as a
    /// conservative (here: exact) range set.
    pub fn get_changed_since(&self, start: StableRowIndex, end: StableRowIndex, n: SequenceNo) -> (
        cs: RangeSet)
        requires
            self.wf(),
            start <= end,
        ensures
            cs.wf(),
            forall|r: int| cs.contains_row(r) <==> (start <= r < end && self.changed_since(n, r)),
    {
        let bottom: isize = self.top + self.rows.len() as isize;
        let lo: isize = if start < self.top {
            self.top
        } else if start > bottom {
            bottom
        } else {
            start
        };
        let hi: isize = if end < lo {
            lo
        } else if end > bottom {
            bottom
        } else {
            end
        };
        let mut cs = RangeSet::new();
        let mut r: isize = lo;
        while r < hi
            invariant
                self.wf(),
                self.top <= lo,
                lo <= r <= hi,
                hi <= self.top + self.rows@.len(),
                lo as int == clamp_spec(start as int, self.extent_start(), self.extent_end()),
                hi as int == clamp_spec(end as int, lo as int, self.extent_end()),
                start <= end,
                cs.wf(),
                forall|x: int| cs.contains_row(x) <==> (lo <= x < r && self.changed_since(n, x)),
            decreases hi - r,
        {
            let idx: usize = (r - self.top) as usize;
            if self.rows[idx].seq > n {
                cs.add_span(r, r + 1);
            }
            r += 1;
        }
        proof {
            assert forall|x: int| cs.contains_row(x) <==> (start <= x < end && self.changed_since(
                n,
                x,
            )) by {
                if start <= x < end && self.changed_since(n, x) {
                    assert(self.in_extent(x));
                    assert(lo <= x < hi);
                }
                if cs.contains_row(x) {
                    assert(self.changed_since(n, x));
                    assert(self.in_extent(x));
                    assert(start <= x < end);
                }
            }
        }
        cs
    }

    /// Applies one decoded batch of row updates: each `(r, text)` replaces
    /// the content of materialized row `r`.  The sequence number is
    /// incremented once for the whole batch and every touched row is stamped
    /// with the new value.
    pub fn apply_changes(&mut self, changes: &Vec<(StableRowIndex, String)>)
        requires
            old(self).wf(),
            old(self).seqno < usize::MAX,
            forall|k: int|
                0 <= k < changes@.len() ==> old(self).in_extent((#[trigger] changes@[k]).0 as int),
            forall|k1: int, k2: int|
                0 <= k1 < k2 < changes@.len() ==> (#[trigger] changes@[k1]).0 != (
                #[trigger] changes@[k2]).0,
        ensures
            final(self).wf(),
            final(self).seqno == old(self).seqno + 1,
            final(self).top == old(self).top,
            final(self).rows@.len() == old(self).rows@.len(),
            final(self).viewport_rows == old(self).viewport_rows,
            final(self).cols == old(self).cols,
            final(self).cursor == old(self).cursor,
            forall|k: int|
                0 <= k < changes@.len() ==> final(self).line_at(
                    (#[trigger] changes@[k]).0 as int,
                ).text@ == changes@[k].1@ && final(self).line_at(changes@[k].0 as int).seq == final(self).seqno,
            forall|r: int|
                old(self).in_extent(r) && (forall|k: int|
                    0 <= k < changes@.len() ==> (#[trigger] changes@[k]).0 != r) ==> final(self).line_at(r) == old(self).line_at(r),
            Screen::conservative_from(*old(self), *final(self)),
    {
        self.seqno = self.seqno + 1;
        let mut j: usize = 0;
        while j < changes.len()
            invariant
                self.top == old(self).top,
                self.rows@.len() == old(self).rows@.len(),
                self.viewport_rows == old(self).viewport_rows,
                self.cols == old(self).cols,
                self.cursor == old(self).cursor,
                self.seqno == old(self).seqno + 1,
                old(self).wf(),
                j <= changes@.len(),
                self.extent_end() == old(self).extent_end(),
                forall|k: int|
                    0 <= k < changes@.len() ==> old(self).in_extent(
                        (#[trigger] changes@[k]).0 as int,
                    ),
                forall|k1: int, k2: int|
                    0 <= k1 < k2 < changes@.len() ==> (#[trigger] changes@[k1]).0 != (
                    #[trigger] changes@[k2]).0,
                forall|k: int|
                    0 <= k < j ==> self.line_at((#[trigger] changes@[k]).0 as int).text@
                        == changes@[k].1@ && self.line_at(changes@[k].0 as int).seq == self.seqno,
                forall|i: int|
                    0 <= i < self.rows@.len() && (forall|k: int|
                        0 <= k < j ==> (#[trigger] changes@[k]).0 as int != self.top as int + i)
                        ==> self.rows@[i] == old(self).rows@[i],
                forall|i: int|
                    0 <= i < self.rows@.len() ==> (#[trigger] self.rows@[i]).seq <= self.seqno,
            decreases changes@.len() - j,
        {
            let target: StableRowIndex = changes[j].0;
            let text: String = changes[j].1.clone();
            let idx: usize = (target - self.top) as usize;
            self.rows[idx] = Line { text, seq: self.seqno };
            j += 1;
        }
    }

    /// Appends freshly scrolled-out or newly produced rows at the bottom of
    /// the buffer, extending the extent downward.  One batch, one sequence
    /// number increment.
    pub fn append_lines(&mut self, texts: &Vec<String>)
        requires
            old(self).wf(),
            old(self).seqno < usize::MAX,
            old(self).extent_end() + texts@.len() <= isize::MAX as int,
            old(self).rows@.len() + texts@.len() <= isize::MAX as int,
        ensures
            final(self).wf(),
            final(self).seqno == old(self).seqno + 1,
            final(self).top == old(self).top,
            final(self).viewport_rows == old(self).viewport_rows,
            final(self).cols == old(self).cols,
            final(self).cursor == old(self).cursor,
            final(self).rows@.len() == old(self).rows@.len() + texts@.len(),
            forall|r: int|
                old(self).in_extent(r) ==> final(self).line_at(r) == old(self).line_at(r),
            forall|k: int|
                0 <= k < texts@.len() ==> final(self).line_at(old(self).extent_end() + k).text@ == (
                #[trigger] texts@[k])@ && final(self).line_at(old(self).extent_end() + k).seq
                    == final(self).seqno,
            Screen::conservative_from(*old(self), *final(self)),
    {
        self.seqno = self.seqno + 1;
        let mut k: usize = 0;
        while k < texts.len()
            invariant
                self.top == old(self).top,
                self.viewport_rows == old(self).viewport_rows,
                self.cols == old(self).cols,
                self.cursor == old(self).cursor,
                self.seqno == old(self).seqno + 1,
                old(self).wf(),
                k <= texts@.len(),
                old(self).extent_end() + texts@.len() <= isize::MAX as int,
                self.rows@.len() == old(self).rows@.len() + k,
                forall|i: int|
                    0 <= i < old(self).rows@.len() ==> self.rows@[i] == old(self).rows@[i],
                forall|j: int|
                    0 <= j < k ==> (#[trigger] self.rows@[old(self).rows@.len() + j]).text@
                        == texts@[j]@ && self.rows@[old(self).rows@.len() + j].seq == self.seqno,
            decreases texts@.len() - k,
        {
            let text: String = texts[k].clone();
            self.rows.push(Line { text, seq: self.seqno });
            k += 1;
        }
        proof {
            assert forall|r: int| old(self).in_extent(r) implies self.line_at(r) == old(
                self,
            ).line_at(r) by {
                assert(self.rows@[r - self.top as int] == old(self).rows@[r - self.top as int]);
            }
            assert forall|k2: int| 0 <= k2 < texts@.len() implies self.line_at(
                old(self).extent_end() + k2,
            ).text@ == (#[trigger] texts@[k2])@ && self.line_at(old(self).extent_end() + k2).seq
                == self.seqno by {
                assert(self.rows@[old(self).rows@.len() + k2].text@ == texts@[k2]@);
                assert(self.rows@[old(self).rows@.len() + k2].seq == self.seqno);
            }
            assert forall|i: int| 0 <= i < self.rows@.len() implies (#[trigger] self.rows@[i]).seq
                <= self.seqno by {
                if i < old(self).rows@.len() {
                    assert(self.rows@[i] == old(self).rows@[i]);
                } else {
                    assert(self.rows@[old(self).rows@.len() + (i - old(self).rows@.len())].seq
                        == self.seqno);
                }
            }
            assert forall|r: int| self.in_extent(r) && !old(self).in_extent(r) implies (
            #[trigger] self.line_at(r)).seq > old(self).seqno by {
                let j = r - self.top as int - old(self).rows@.len();
                assert(self.rows@[old(self).rows@.len() + j].seq == self.seqno);
            }
        }
    }

    /// Splices fetched history rows immediately above the current extent:
    /// afterwards the extent starts at `start`, the new rows hold `texts`,
    /// and every previously materialized row is unchanged.  The whole splice
    /// is one mutation: a reader runs either before or after it and never
    /// sees a partially spliced buffer.
    pub fn splice_above(&mut self, start: StableRowIndex, texts: &Vec<String>)
        requires
            old(self).wf(),
            old(self).seqno < usize::MAX,
            start as int + texts@.len() == old(self).top as int,
            old(self).rows@.len() + texts@.len() <= isize::MAX as int,
        ensures
            final(self).wf(),
            final(self).seqno == old(self).seqno + 1,
            final(self).top == start,
            final(self).viewport_rows == old(self).viewport_rows,
            final(self).cols == old(self).cols,
            final(self).cursor == old(self).cursor,
            final(self).extent_end() == old(self).extent_end(),
            final(self).rows@.len() == old(self).rows@.len() + texts@.len(),
            forall|r: int|
                old(self).in_extent(r) ==> final(self).line_at(r) == old(self).line_at(r),
            forall|k: int|
                0 <= k < texts@.len() ==> final(self).line_at(start as int + k).text@ == (
                #[trigger] texts@[k])@ && final(self).line_at(start as int + k).seq == final(self).seqno,
            Screen::conservative_from(*old(self), *final(self)),
    {
        self.seqno = self.seqno + 1;
        let mut merged: Vec<Line> = Vec::new();
        let mut k: usize = 0;
        while k < texts.len()
            invariant
                self.seqno == old(self).seqno + 1,
                k <= texts@.len(),
                merged@.len() == k,
                forall|j: int|
                    0 <= j < k ==> (#[trigger] merged@[j]).text@ == texts@[j]@ && merged@[j].seq
                        == self.seqno,
                self.rows@ == old(self).rows@,
                self.top == old(self).top,
            decreases texts@.len() - k,
        {
            let text: String = texts[k].clone();
            merged.push(Line { text, seq: self.seqno });
            k += 1;
        }
        let mut i: usize = 0;
        while i < self.rows.len()
            invariant
                self.seqno == old(self).seqno + 1,
                i <= self.rows@.len(),
                merged@.len() == texts@.len() + i,
                forall|j: int|
                    0 <= j < texts@.len() ==> (#[trigger] merged@[j]).text@ == texts@[j]@
                        && merged@[j].seq == self.seqno,
                forall|j: int|
                    0 <= j < i ==> merged@[texts@.len() + j] == (#[trigger] self.rows@[j]),
                self.rows@ == old(self).rows@,
                self.top == old(self).top,
            decreases self.rows@.len() - i,
        {
            merged.push(self.rows[i].duplicate());
            i += 1;
        }
        self.rows = merged;
        self.top = start;
        proof {
            assert forall|r: int| old(self).in_extent(r) implies self.line_at(r) == old(
                self,
            ).line_at(r) by {
                assert(self.rows@[texts@.len() + (r - old(self).top as int)] == old(self).rows@[r
                    - old(self).top as int]);
            }
            assert forall|k2: int| 0 <= k2 < texts@.len() implies self.line_at(
                start as int + k2,
            ).text@ == (#[trigger] texts@[k2])@ && self.line_at(start as int + k2).seq
                == self.seqno by {
                assert(self.rows@[k2].text@ == texts@[k2]@);
                assert(self.rows@[k2].seq == self.seqno);
            }
            assert forall|i2: int| 0 <= i2 < self.rows@.len() implies (#[trigger] self.rows@[i2]).seq
                <= self.seqno by {
                if i2 >= texts@.len() {
                    assert(self.rows@[i2] == old(self).rows@[i2 - texts@.len()]);
                }
            }
            assert forall|r: int| self.in_extent(r) && !old(self).in_extent(r) implies (
            #[trigger] self.line_at(r)).seq > old(self).seqno by {
                assert(self.rows@[r - start as int].seq == self.seqno);
            }
        }
    }

    /// Drops materialized rows above `new_top`, shrinking the scrollback to
    /// the retained history window.  Content of every remaining row is
    /// unchanged and the sequence number does not move: nothing an observer
    /// can still address has changed.  A cursor that sat in the dropped
    /// region is clamped to the new top row.
    pub fn trim_top(&mut self, new_top: StableRowIndex)
        requires
            old(self).wf(),
            old(self).top <= new_top,
            new_top as int <= old(self).extent_end() - old(self).viewport_rows,
        ensures
            final(self).wf(),
            final(self).seqno == old(self).seqno,
            final(self).top == new_top,
            final(self).viewport_rows == old(self).viewport_rows,
            final(self).cols == old(self).cols,
            final(self).cursor == (if old(self).cursor.y >= new_top {
                old(self).cursor
            } else {
                StableCursorPosition { x: old(self).cursor.x, y: new_top }
            }),
            final(self).extent_end() == old(self).extent_end(),
            forall|r: int|
                final(self).in_extent(r) ==> final(self).line_at(r) == old(self).line_at(r),
            Screen::conservative_from(*old(self), *final(self)),
    {
        if self.cursor.y < new_top {
            self.cursor = StableCursorPosition { x: self.cursor.x, y: new_top };
        }
        let cut: usize = (new_top - self.top) as usize;
        let mut kept: Vec<Line> = Vec::new();
        let mut i: usize = cut;
        while i < self.rows.len()
            invariant
                cut <= i <= self.rows@.len(),
                kept@.len() == i - cut,
                forall|j: int| 0 <= j < kept@.len() ==> kept@[j] == (#[trigger] self.rows@[cut + j]),
                self.rows@ == old(self).rows@,
                self.top == old(self).top,
                self.seqno == old(self).seqno,
            decreases self.rows@.len() - i,
        {
            kept.push(self.rows[i].duplicate());
            i += 1;
        }
        self.rows = kept;
        self.top = new_top;
        proof {
            assert forall|r: int| self.in_extent(r) implies self.line_at(r) == old(self).line_at(
                r,
            ) by {
                assert(self.rows@[r - new_top as int] == old(self).rows@[cut + (r
                    - new_top as int)]);
            }
            assert forall|i2: int| 0 <= i2 < self.rows@.len() implies (#[trigger] self.rows@[i2]).seq
                <= self.seqno by {
                assert(self.rows@[i2] == old(self).rows@[cut + i2]);
            }
        }
    }

    /// Resizes the viewport to `rows` by `cols`.  No materialized row is
    /// dropped; if the viewport grows past the materialized extent, blank
    /// rows are appended so the whole viewport stays addressable.
    pub fn resize(&mut self, rows: usize, cols: usize)
        requires
            old(self).wf(),
            old(self).seqno < usize::MAX,
            1 <= rows,
            rows <= isize::MAX as usize,
            old(self).extent_end() + rows <= isize::MAX as int,
        ensures
            final(self).wf(),
            final(self).seqno == old(self).seqno + 1,
            final(self).top == old(self).top,
            final(self).viewport_rows == rows,
            final(self).cols == cols,
            final(self).rows@.len() >= old(self).rows@.len(),
            final(self).cursor.y == old(self).cursor.y,
            final(self).cursor.x == (if old(self).cursor.x > cols {
                cols
            } else {
                old(self).cursor.x
            }),
            forall|r: int|
                old(self).in_extent(r) ==> final(self).line_at(r) == old(self).line_at(r),
            Screen::conservative_from(*old(self), *final(self)),
    {
        self.seqno = self.seqno + 1;
        while self.rows.len() < rows
            invariant
                self.top == old(self).top,
                self.cols == old(self).cols,
                self.cursor == old(self).cursor,
                self.viewport_rows == old(self).viewport_rows,
                self.seqno == old(self).seqno + 1,
                old(self).wf(),
                self.rows@.len() >= old(self).rows@.len(),
                self.rows@.len() <= old(self).rows@.len() || self.rows@.len() <= rows,
                rows <= isize::MAX as usize,
                old(self).extent_end() + rows <= isize::MAX as int,
                self.extent_end() <= isize::MAX as int,
                forall|i: int|
                    0 <= i < old(self).rows@.len() ==> self.rows@[i] == old(self).rows@[i],
                forall|i: int|
                    old(self).rows@.len() <= i < self.rows@.len() ==> (
                    #[trigger] self.rows@[i]).seq == self.seqno,
            decreases rows - self.rows@.len(),
        {
            self.rows.push(Line { text: "".to_owned(), seq: self.seqno });
        }
        self.viewport_rows = rows;
        self.cols = cols;
        if self.cursor.x > cols {
            self.cursor = StableCursorPosition { x: cols, y: self.cursor.y };
        }
        proof {
            assert forall|r: int| old(self).in_extent(r) implies self.line_at(r) == old(
                self,
            ).line_at(r) by {
                assert(self.rows@[r - self.top as int] == old(self).rows@[r - self.top as int]);
            }
            assert forall|i2: int| 0 <= i2 < self.rows@.len() implies (#[trigger] self.rows@[i2]).seq
                <= self.seqno by {
                if i2 < old(self).rows@.len() {
                    assert(self.rows@[i2] == old(self).rows@[i2]);
                }
            }
            assert forall|r: int| self.in_extent(r) && !old(self).in_extent(r) implies (
            #[trigger] self.line_at(r)).seq > old(self).seqno by {
                assert(self.rows@[r - self.top as int].seq == self.seqno);
            }
        }
    }

    /// Moves the cursor.
    pub fn set_cursor(&mut self, x: usize, y: StableRowIndex)
        requires
            old(self).wf(),
            x <= old(self).cols,
            old(self).in_extent(y as int),
        ensures
            final(self).wf(),
            *final(self) == (Screen { cursor: StableCursorPosition { x, y }, ..*old(self) }),
            Screen::conservative_from(*old(self), *final(self)),
    {
        self.cursor = StableCursorPosition { x, y };
    }
}

/// Law: conservative change accounting composes.  If `b` accounts
/// conservatively for everything since `a`, and `c` for everything since
/// `b`, then `c` accounts conservatively for everything since `a`; hence,
/// by induction, for any sequence of applied batches.
pub proof fn lemma_conservative_from_trans(a: Screen, b: Screen, c: Screen)
    requires
        a.wf(),
        b.wf(),
        c.wf(),
        Screen::conservative_from(a, b),
        Screen::conservative_from(b, c),
    ensures
        Screen::conservative_from(a, c),
{
    assert forall|r: int|
        a.in_extent(r) && c.in_extent(r) implies (#[trigger] c.line_at(r)).seq >= a.line_at(
        r,
    ).seq by {
        if b.in_extent(r) {
        } else {
            assert(c.line_at(r).seq > b.seqno);
            assert(a.line_at(r).seq <= a.seqno);
        }
    }
    assert forall|r: int|
        a.in_extent(r) && c.in_extent(r) && (#[trigger] c.line_at(r)).text@ != a.line_at(
        r,
    ).text@ implies c.line_at(r).seq > a.seqno by {
        if b.in_extent(r) {
            if b.line_at(r).text@ != a.line_at(r).text@ {
                assert(b.line_at(r).seq > a.seqno);
                assert(c.line_at(r).seq >= b.line_at(r).seq);
            } else {
                assert(c.line_at(r).text@ != b.line_at(r).text@);
                assert(c.line_at(r).seq > b.seqno);
            }
        } else {
            assert(c.line_at(r).seq > b.seqno);
        }
    }
    assert forall|r: int| #![trigger c.line_at(r)] c.in_extent(r) && !a.in_extent(r) implies c.line_at(
        r,
    ).seq > a.seqno by {
        if b.in_extent(r) {
            assert(b.line_at(r).seq > a.seqno);
            assert(c.line_at(r).seq >= b.line_at(r).seq);
        } else {
            assert(c.line_at(r).seq > b.seqno);
        }
    }
}

/// Law: change tracking never under-reports.  If an observer recorded the
/// sequence number of state `a`, the buffer then evolved conservatively to
/// state `b`, and a row's content in `b` differs from `a`, then that row is
/// flagged as changed since the recorded sequence number — so
/// `get_changed_since` reports it.
pub proof fn lemma_changed_since_no_underreport(a: Screen, b: Screen, r: int)
    requires
        a.wf(),
        b.wf(),
        Screen::conservative_from(a, b),
        b.in_extent(r),
        !a.in_extent(r) || a.line_at(r).text@ != b.line_at(r).text@,
    ensures
        b.changed_since(a.seqno, r),
{
}

} // verus!
