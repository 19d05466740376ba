//! Lazily built index of line boundaries.
//!
//! The index records the byte offset at which each line starts, scanning the content for
//! newlines only as far as callers need. Offsets only ever grow: a second request for
//! lines already indexed scans nothing.

use crate::file_handler::scan::{
    lemma_line_start_gaps, lemma_newline_starts_no_newline, lemma_newline_starts_shape,
    memchr_first, newline_starts, no_newline_in, NEWLINE,
};
use vstd::prelude::*;
use vstd::slice::slice_subrange;

verus! {

/// Byte offsets of line starts, built incrementally over a byte buffer.
#[derive(Debug)]
pub struct LineIndex {
    /// `line_offsets[0] == 0`; `line_offsets[n]` is the position just past the n-th newline.
    line_offsets: Vec<u64>,
    /// Every byte before this position has been scanned for newlines.
    indexed_to_byte: u64,
}

impl LineIndex {
    /// The recorded line start offsets.
    pub closed spec fn offsets(&self) -> Seq<u64> {
        self.line_offsets@
    }

    /// How far the buffer has been scanned.
    pub closed spec fn indexed_to(&self) -> u64 {
        self.indexed_to_byte
    }

    /// Structural well-formedness: the first line starts at 0, offsets increase
    /// strictly, and none lies beyond the scanned prefix.
    pub open spec fn wf(&self) -> bool {
        &&& self.offsets().len() >= 1
        &&& self.offsets()[0] == 0
        &&& forall|k: int, m: int|
            0 <= k < m < self.offsets().len() ==> #[trigger] self.offsets()[k]
                < #[trigger] self.offsets()[m]
        &&& self.offsets().last() <= self.indexed_to()
        &&& self.indexed_to() <= usize::MAX
    }

    /// The index describes exactly the newlines of `data` before `indexed_to`.
    pub open spec fn indexes(&self, data: Seq<u8>) -> bool {
        &&& self.indexed_to() <= data.len()
        &&& self.offsets() == seq![0u64] + newline_starts(data, 0, self.indexed_to() as int)
    }

    /// The scan stopped at a line boundary: at the end of `data` or just past the last
    /// newline recorded.
    pub open spec fn aligned(&self, data: Seq<u8>) -> bool {
        self.indexed_to() >= data.len() || self.indexed_to() == self.offsets().last()
    }

    /// Number of lines known: the newlines seen, plus one for content after the last.
    pub open spec fn line_count(&self) -> u64 {
        if self.indexed_to() == 0 {
            0
        } else if self.offsets().len() <= 1 {
            1
        } else if self.indexed_to() > self.offsets().last() {
            (self.offsets().len() - 1 + 1) as u64
        } else {
            (self.offsets().len() - 1) as u64
        }
    }

    /// The byte range of known line `n`, newline excluded: up to just before the next
    /// line's start, or, for the last known line, up to where the scan stopped.
    pub open spec fn line_range(&self, n: u64) -> (u64, u64) {
        (
            self.offsets()[n as int],
            if n + 1 < self.offsets().len() {
                (self.offsets()[n + 1] - 1) as u64
            } else {
                self.indexed_to()
            },
        )
    }

    /// Where a scan for `target` lines, resuming at `from`, stops in `data`: just past the
    /// newline that makes the line count exceed `target`, or at the end of `data`.
    pub open spec fn scan_stop(&self, data: Seq<u8>, target: u64) -> u64 {
        let found = newline_starts(data, self.indexed_to() as int, data.len() as int);
        let needed = target + 1 - (self.offsets().len() - 1);
        if target == u64::MAX || found.len() < needed {
            data.len() as u64
        } else {
            found[needed - 1]
        }
    }

    /// Create an empty index: line 0 starts at byte 0 and nothing is scanned.
    pub fn new() -> (r: Self)
        ensures
            r.wf(),
            r.offsets() == seq![0u64],
            r.indexed_to() == 0,
            r.line_count() == 0,
            forall|data: Seq<u8>| r.indexes(data) && r.aligned(data),
    {
        let mut line_offsets: Vec<u64> = Vec::new();
        line_offsets.push(0);
        LineIndex { line_offsets, indexed_to_byte: 0 }
    }

    /// Scan `data` for newlines until line `target_line` is known, or to the end of
    /// `data`; `u64::MAX` asks for the whole buffer.
    ///
    /// Nothing is scanned when `data` is empty, when the line is already known, or when
    /// the scan already reached the end of `data`. Otherwise the offsets gain the line
    /// starts found between the old and the new scan position. Afterwards the same
    /// request finds nothing left to scan.
    pub fn ensure_indexed_to(&mut self, data: &[u8], target_line: u64)
        requires
            old(self).wf(),
        ensures
            final(self).wf(),
            (data@.len() == 0 || target_line < old(self).line_count() || old(self).indexed_to()
                >= data@.len()) ==> *final(self) == *old(self),
            !(data@.len() == 0 || target_line < old(self).line_count() || old(self).indexed_to()
                >= data@.len()) ==> {
                &&& final(self).indexed_to() == old(self).scan_stop(data@, target_line)
                &&& final(self).offsets() == old(self).offsets() + newline_starts(
                    data@,
                    old(self).indexed_to() as int,
                    final(self).indexed_to() as int,
                )
            },
            old(self).indexes(data@) ==> final(self).indexes(data@),
            data@.len() == 0 || target_line < final(self).line_count() || final(self).indexed_to()
                >= data@.len(),
            old(self).aligned(data@) ==> final(self).aligned(data@),
            old(self).indexed_to() <= final(self).indexed_to(),
            old(self).offsets().len() <= final(self).offsets().len(),
            final(self).offsets().take(old(self).offsets().len() as int) == old(self).offsets(),
    {
        if data.len() == 0 {
            return;
        }
        if target_line < self.indexed_line_count() {
            return;
        }
        let ghost old_offsets = self.line_offsets@;
        proof {
            old(self).lemma_count_bound();
        }
        let ghost from = self.indexed_to_byte as int;
        let ghost dlen = data@.len() as int;
        if self.indexed_to_byte as usize >= data.len() {
            return;
        }
        let mut pos = self.indexed_to_byte as usize;
        proof {
            lemma_newline_starts_shape(data@, from, from, dlen);
        }
        while pos < data.len()
            invariant_except_break
                target_line == u64::MAX || self.line_offsets@.len() - 1 <= target_line,
                pos == from || data@[pos - 1] == NEWLINE,
            invariant
                from <= pos <= dlen,
                dlen == data@.len(),
                dlen < 0x1_0000_0000_0000_0000,
                old_offsets == old(self).offsets(),
                from == old(self).indexed_to(),
                self.indexed_to_byte == old(self).indexed_to_byte,
                old(self).wf(),
                target_line >= old(self).line_count(),
                self.line_offsets@ == old_offsets + newline_starts(data@, from, pos as int),
            ensures
                from <= pos <= dlen,
                self.line_offsets@ == old_offsets + newline_starts(data@, from, pos as int),
                self.indexed_to_byte == old(self).indexed_to_byte,
                (target_line != u64::MAX && self.line_offsets@.len() - 1 == target_line + 1
                    && data@[pos - 1] == NEWLINE) || (pos == dlen && (target_line == u64::MAX
                    || self.line_offsets@.len() - 1 <= target_line)),
            decreases dlen - pos,
        {
            let rest = slice_subrange(data, pos, data.len());
            match memchr_first(NEWLINE, rest) {
                Some(offset) => {
                    proof {
                        assert forall|j: int| pos <= j < pos + offset implies data@[j]
                            != NEWLINE by {
                            assert(rest@[j - pos] == data@[j]);
                        }
                        lemma_newline_starts_no_newline(data@, from, pos as int, pos + offset);
                        assert(data@[pos + offset] == rest@[offset as int]);
                    }
                    pos = pos + offset + 1;
                    self.line_offsets.push(pos as u64);
                    proof {
                        assert(newline_starts(data@, from, pos as int) == newline_starts(
                            data@,
                            from,
                            pos - 1,
                        ).push(pos as u64));
                        assert(self.line_offsets@ =~= old_offsets + newline_starts(
                            data@,
                            from,
                            pos as int,
                        ));
                    }
                    if target_line != u64::MAX && (self.line_offsets.len() - 1) as u64
                        > target_line {
                        break;
                    }
                },
                None => {
                    proof {
                        assert forall|j: int| pos <= j < dlen implies data@[j] != NEWLINE by {
                            assert(rest@[j - pos] == data@[j]);
                        }
                        lemma_newline_starts_no_newline(data@, from, pos as int, dlen);
                    }
                    pos = data.len();
                    break;
                },
            }
        }
        self.indexed_to_byte = pos as u64;
        proof {
            self.lemma_scan_result(data@, target_line, old(self), pos as int);
        }
    }

    proof fn lemma_scan_result(&self, data: Seq<u8>, target: u64, before: &LineIndex, pos: int)
        requires
            before.wf(),
            target >= before.line_count(),
            before.indexed_to() < data.len(),
            data.len() <= usize::MAX,
            before.indexed_to() <= pos <= data.len(),
            pos == self.indexed_to(),
            self.offsets() == before.offsets() + newline_starts(
                data,
                before.indexed_to() as int,
                pos,
            ),
            (target != u64::MAX && self.offsets().len() - 1 == target + 1 && data[pos - 1]
                == NEWLINE) || (pos == data.len() && (target == u64::MAX || self.offsets().len()
                - 1 <= target)),
        ensures
            self.wf(),
            self.indexed_to() == before.scan_stop(data, target),
            before.indexes(data) ==> self.indexes(data),
            self.aligned(data),
    {
        let from = before.indexed_to() as int;
        let found = newline_starts(data, from, data.len() as int);
        let cur = newline_starts(data, from, pos);
        lemma_newline_starts_shape(data, from, pos, data.len() as int);
        lemma_newline_starts_shape(data, from, pos, pos);
        before.lemma_count_bound();
        let needed = target + 1 - (before.offsets().len() - 1);
        if target != u64::MAX && self.offsets().len() - 1 == target + 1 && data[pos - 1]
            == NEWLINE {
            assert(cur.len() == needed);
            lemma_last_start(data, from, pos);
            assert(found[needed - 1] == cur[needed - 1]);
        } else {
            assert(pos == data.len());
            assert(cur == found);
        }
        // well-formedness of the extended offsets
        assert forall|k: int, m: int|
            0 <= k < m < self.offsets().len() implies #[trigger] self.offsets()[k]
            < #[trigger] self.offsets()[m] by {
            let n = before.offsets().len() as int;
            if m >= n {
                assert(self.offsets()[m] == cur[m - n]);
                if k >= n {
                    assert(self.offsets()[k] == cur[k - n]);
                } else {
                    assert(self.offsets()[k] == before.offsets()[k]);
                    assert(before.offsets()[k] <= before.offsets().last()) by {
                        if k < n - 1 {
                            assert(before.offsets()[k] < before.offsets()[n - 1]);
                        }
                    }
                }
            } else {
                assert(self.offsets()[m] == before.offsets()[m]);
                assert(self.offsets()[k] == before.offsets()[k]);
            }
        }
        assert(self.offsets().last() <= self.indexed_to()) by {
            if cur.len() > 0 {
                assert(self.offsets().last() == cur[cur.len() - 1]);
            } else {
                assert(self.offsets().last() == before.offsets().last());
            }
        }
        if before.indexes(data) {
            lemma_newline_starts_concat(data, 0, from, pos);
            assert(self.offsets() =~= seq![0u64] + newline_starts(data, 0, pos));
        }
    }

    /// Offsets grow at least by one per line, so the count of lines stays within the
    /// offsets recorded and within `usize`.
    pub proof fn lemma_count_bound(&self)
        requires
            self.wf(),
        ensures
            self.line_count() >= self.offsets().len() - 1,
            self.line_count() <= self.offsets().len(),
            self.offsets().len() - 1 <= self.offsets().last(),
            self.offsets().len() - 1 <= usize::MAX,
    {
        let s = self.offsets();
        assert forall|k: int| 0 <= k < s.len() implies #[trigger] s[k] >= k by {
            lemma_strictly_increasing_from_zero(s, k);
        }
        assert(s[s.len() - 1] >= s.len() - 1);
    }

    /// Number of lines whose start is known.
    ///
    /// Zero before any content has been scanned; otherwise the newlines found, plus one
    /// when scanned content follows the last newline.
    pub fn indexed_line_count(&self) -> (r: u64)
        requires
            self.wf(),
        ensures
            r == self.line_count(),
    {
        if self.indexed_to_byte == 0 {
            return 0;
        }
        if self.line_offsets.len() == 0 {
            return 0;
        }
        let newline_count = (self.line_offsets.len() - 1) as u64;
        if self.line_offsets.len() <= 1 {
            1
        } else {
            let last_newline_pos = self.line_offsets[self.line_offsets.len() - 1];
            if self.indexed_to_byte > last_newline_pos {
                newline_count + 1
            } else {
                newline_count
            }
        }
    }

    /// Byte range `(start, end)` of line `line_number`, newline excluded, or `None` when
    /// the line is not known yet.
    ///
    /// A line followed by a known line ends just before the next line's start; the last
    /// known line ends where the scan stopped.
    pub fn get_line_range(&self, line_number: u64) -> (r: Option<(u64, u64)>)
        requires
            self.wf(),
        ensures
            line_number >= self.line_count() ==> r is None,
            line_number < self.line_count() ==> r == Some(self.line_range(line_number)),
    {
        if line_number >= self.indexed_line_count() {
            return None;
        }
        proof {
            self.lemma_count_bound();
        }
        let line_idx = line_number as usize;
        let start = self.line_offsets[line_idx];
        let end = if line_idx + 1 < self.line_offsets.len() {
            let next = self.line_offsets[line_idx + 1];
            assert(next > self.line_offsets@[0]);
            next - 1
        } else {
            self.indexed_to_byte
        };
        Some((start, end))
    }

    /// All line start offsets recorded so far.
    pub fn get_line_offsets(&self) -> (r: &[u64])
        ensures
            r@ == self.offsets(),
    {
        self.line_offsets.as_slice()
    }

    /// How many bytes have been scanned for newlines.
    pub fn indexed_byte_count(&self) -> (r: u64)
        ensures
            r == self.indexed_to(),
    {
        self.indexed_to_byte
    }
}

impl Default for LineIndex {
    fn default() -> (r: Self)
        ensures
            r.wf(),
            r.offsets() == seq![0u64],
            r.indexed_to() == 0,
    {
        Self::new()
    }
}

/// Start offsets of the lines of `c`: 0, then the position just past each newline.
pub open spec fn line_starts(c: Seq<u8>) -> Seq<u64> {
    seq![0u64] + newline_starts(c, 0, c.len() as int)
}

/// Number of lines of `c`: one per newline, plus one for content after the last newline.
pub open spec fn line_total(c: Seq<u8>) -> nat {
    let s = line_starts(c);
    if c.len() == 0 {
        0
    } else if s.last() < c.len() {
        s.len()
    } else {
        (s.len() - 1) as nat
    }
}

/// The bytes of line `n` of `c`, newline excluded.
pub open spec fn line_of(c: Seq<u8>, n: int) -> Seq<u8> {
    let s = line_starts(c);
    let end = if n + 1 < s.len() {
        s[n + 1] - 1
    } else {
        c.len() as int
    };
    c.subrange(s[n] as int, end)
}

/// What an aligned index over `c` knows agrees with the lines of the whole of `c`: its
/// offsets are the first line starts, it counts no more lines than `c` has (all of them
/// once the scan reached the end), and each known line spans the bytes of that line.
pub proof fn lemma_known_lines(idx: LineIndex, c: Seq<u8>)
    requires
        idx.wf(),
        idx.indexes(c),
        idx.aligned(c),
        c.len() < 0x1_0000_0000_0000_0000,
    ensures
        idx.offsets() == line_starts(c).take(idx.offsets().len() as int),
        idx.offsets().len() <= line_starts(c).len(),
        idx.line_count() <= idx.offsets().len(),
        idx.line_count() <= line_total(c),
        idx.indexed_to() >= c.len() ==> idx.line_count() == line_total(c) && idx.offsets()
            == line_starts(c),
        forall|n: int|
            0 <= n < idx.line_count() ==> c.subrange(
                idx.offsets()[n] as int,
                (if n + 1 < idx.offsets().len() {
                    idx.offsets()[n + 1] - 1
                } else {
                    idx.indexed_to() as int
                }),
            ) == line_of(c, n) && idx.offsets()[n] == line_starts(c)[n],
{
    idx.lemma_count_bound();
    let t = idx.indexed_to() as int;
    let len = c.len() as int;
    let ns_t = newline_starts(c, 0, t);
    let ns_len = newline_starts(c, 0, len);
    lemma_newline_starts_shape(c, 0, t, len);
    let ls = line_starts(c);
    assert(ls.take(idx.offsets().len() as int) =~= idx.offsets());
    if t >= len {
        assert(t == len);
        assert(idx.offsets() =~= ls);
    }
    assert forall|n: int| 0 <= n < idx.line_count() implies c.subrange(
        idx.offsets()[n] as int,
        (if n + 1 < idx.offsets().len() {
            idx.offsets()[n + 1] - 1
        } else {
            idx.indexed_to() as int
        }),
    ) == line_of(c, n) && idx.offsets()[n] == line_starts(c)[n] by {
        assert(idx.offsets()[n] == ls.take(idx.offsets().len() as int)[n]);
        if n + 1 < idx.offsets().len() {
            assert(idx.offsets()[n + 1] == ls.take(idx.offsets().len() as int)[n + 1]);
        } else {
            assert(t == len);
        }
    }
}

/// A strictly increasing sequence starting at 0 has `s[k] >= k`.
proof fn lemma_strictly_increasing_from_zero(s: Seq<u64>, k: int)
    requires
        0 <= k < s.len(),
        s[0] == 0,
        forall|a: int, b: int| 0 <= a < b < s.len() ==> #[trigger] s[a] < #[trigger] s[b],
    ensures
        s[k] >= k,
    decreases k,
{
    if k > 0 {
        lemma_strictly_increasing_from_zero(s, k - 1);
        assert(s[k - 1] < s[k]);
    }
}

/// The last line start found in a scan that ends just past a newline is that position.
proof fn lemma_last_start(data: Seq<u8>, from: int, pos: int)
    requires
        from < pos,
        data[pos - 1] == NEWLINE,
    ensures
        newline_starts(data, from, pos).len() > 0,
        newline_starts(data, from, pos).last() == pos as u64,
{
}

/// Line starts found over `[a, c)` are those over `[a, b)` followed by those over `[b, c)`.
proof fn lemma_newline_starts_concat(data: Seq<u8>, a: int, b: int, c: int)
    requires
        a <= b <= c,
    ensures
        newline_starts(data, a, c) == newline_starts(data, a, b) + newline_starts(data, b, c),
    decreases c - b,
{
    if c > b {
        lemma_newline_starts_concat(data, a, b, c - 1);
        assert(newline_starts(data, a, c) =~= newline_starts(data, a, b) + newline_starts(
            data,
            b,
            c,
        ));
    } else {
        assert(newline_starts(data, a, c) =~= newline_starts(data, a, b) + newline_starts(
            data,
            b,
            c,
        ));
    }
}

/// The count of known lines of an index over `data` is the number of newlines scanned,
/// plus one when scanned text follows the last of them; nothing scanned counts none.
pub proof fn law_line_count_counts_newlines(idx: LineIndex, data: Seq<u8>)
    requires
        idx.wf(),
        idx.indexes(data),
    ensures
        idx.line_count() == if idx.indexed_to() == 0 {
            0
        } else {
            newline_starts(data, 0, idx.indexed_to() as int).len() + if idx.indexed_to()
                > idx.offsets().last() {
                1int
            } else {
                0int
            }
        },
{
    idx.lemma_count_bound();
    assert(idx.offsets().len() == newline_starts(data, 0, idx.indexed_to() as int).len() + 1);
}

/// Each known line of an index built over `data` spans exactly that line: it starts at
/// the line's start, holds no newline, and ends at a newline or the end of `data`.
pub proof fn law_line_range_is_whole_line(idx: LineIndex, data: Seq<u8>, n: u64)
    requires
        idx.wf(),
        idx.indexes(data),
        idx.aligned(data),
        n < idx.line_count(),
        data.len() < 0x1_0000_0000_0000_0000,
    ensures
        ({
            let (start, end) = idx.line_range(n);
            &&& start <= end <= data.len()
            &&& start == line_starts(data)[n as int]
            &&& no_newline_in(data, start as int, end as int)
            &&& end == data.len() || data[end as int] == NEWLINE
        }),
{
    let t = idx.indexed_to() as int;
    let ns = newline_starts(data, 0, t);
    let offs = idx.offsets();
    idx.lemma_count_bound();
    lemma_known_lines(idx, data);
    lemma_newline_starts_shape(data, 0, t, t);
    lemma_line_start_gaps(data, 0, t);
    assert(offs == seq![0u64] + ns);
    let (start, end) = idx.line_range(n);
    if n + 1 < offs.len() {
        assert(offs[n + 1] == ns[n as int]);
        assert(offs[n as int] < offs[n + 1]);
        assert(data[ns[n as int] - 1] == NEWLINE);
        assert forall|j: int| start <= j < end implies data[j] != NEWLINE by {
            if n == 0 {
                assert(crate::file_handler::scan::gap_start(data, 0, t, 0) == 0);
            } else {
                assert(offs[n as int] == ns[n - 1]);
            }
            assert(crate::file_handler::scan::gap_start(data, 0, t, n as int) <= j
                < ns[n as int] - 1);
        }
    } else {
        assert(n + 1 == offs.len());
        assert(start == offs.last());
        assert(t >= data.len());
        assert forall|j: int| start <= j < end implies data[j] != NEWLINE by {
            assert(crate::file_handler::scan::tail_start(data, 0, t) == offs.last());
        }
    }
}

} // verus!
