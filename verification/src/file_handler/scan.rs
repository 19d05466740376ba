//! Newline scanning over byte buffers, and the mathematical model of lines that the
//! accessors are specified against.

use vstd::prelude::*;

verus! {

/// The line separator byte.
pub const NEWLINE: u8 = 10u8;

/// Position of the first occurrence of `needle` in `haystack`.
///
/// Calls `memchr::memchr`. Its documentation promises the index of the first
/// occurrence, or `None` when the byte does not occur; the contract states exactly that.
#[verifier::external_body]
pub(crate) fn memchr_first(needle: u8, haystack: &[u8]) -> (r: Option<usize>)
    ensures
        match r {
            Some(i) => {
                &&& i < haystack@.len()
                &&& haystack@[i as int] == needle
                &&& forall|j: int| 0 <= j < i ==> haystack@[j] != needle
            },
            None => forall|j: int| 0 <= j < haystack@.len() ==> haystack@[j] != needle,
        },
{
    memchr::memchr(needle, haystack)
}

/// Position of the last occurrence of `needle` in `haystack`.
///
/// Calls `memchr::memrchr`. Its documentation promises the index of the last
/// occurrence, or `None` when the byte does not occur; the contract states exactly that.
#[verifier::external_body]
pub(crate) fn memchr_last(needle: u8, haystack: &[u8]) -> (r: Option<usize>)
    ensures
        match r {
            Some(i) => {
                &&& i < haystack@.len()
                &&& haystack@[i as int] == needle
                &&& forall|j: int| i < j < haystack@.len() ==> haystack@[j] != needle
            },
            None => forall|j: int| 0 <= j < haystack@.len() ==> haystack@[j] != needle,
        },
{
    memchr::memrchr(needle, haystack)
}

/// No newline occurs in `data[from..to]`.
pub open spec fn no_newline_in(data: Seq<u8>, from: int, to: int) -> bool {
    forall|j: int| from <= j < to ==> data[j] != NEWLINE
}

/// The positions just past each newline of `data[from..to]`, in increasing order.
pub open spec fn newline_starts(data: Seq<u8>, from: int, to: int) -> Seq<u64>
    decreases to - from,
{
    if to <= from {
        seq![]
    } else if data[to - 1] == NEWLINE {
        newline_starts(data, from, to - 1).push(to as u64)
    } else {
        newline_starts(data, from, to - 1)
    }
}

/// A stretch without newlines adds no line start.
pub proof fn lemma_newline_starts_no_newline(data: Seq<u8>, from: int, p: int, q: int)
    requires
        from <= p <= q,
        no_newline_in(data, p, q),
    ensures
        newline_starts(data, from, q) == newline_starts(data, from, p),
    decreases q - p,
{
    if q > p {
        lemma_newline_starts_no_newline(data, from, p, q - 1);
    }
}

/// Where the line ending at the `k`-th newline of `data[from..]` starts: `from` for the
/// first, just past the previous newline otherwise.
pub open spec fn gap_start(data: Seq<u8>, from: int, u: int, k: int) -> int {
    if k == 0 {
        from
    } else {
        newline_starts(data, from, u)[k - 1] as int
    }
}

/// The start of the text after the last newline of `data[from..u]`.
pub open spec fn tail_start(data: Seq<u8>, from: int, u: int) -> int {
    if newline_starts(data, from, u).len() == 0 {
        from
    } else {
        newline_starts(data, from, u).last() as int
    }
}

/// Between consecutive line starts of `data[from..u]` (taking `from` as the first) lies
/// no newline but the one that ends the line, and after the last start none at all.
#[verifier::spinoff_prover]
pub proof fn lemma_line_start_gaps(data: Seq<u8>, from: int, u: int)
    requires
        0 <= from <= u,
        u < 0x1_0000_0000_0000_0000,
    ensures
        forall|k: int, j: int|
            0 <= k < newline_starts(data, from, u).len() && gap_start(data, from, u, k) <= j
                < #[trigger] newline_starts(data, from, u)[k] - 1 ==> #[trigger] data[j]
                != NEWLINE,
        forall|j: int| tail_start(data, from, u) <= j < u ==> #[trigger] data[j] != NEWLINE,
    decreases u - from,
{
    if u > from {
        lemma_line_start_gaps(data, from, u - 1);
        lemma_newline_starts_bounds(data, from, u - 1);
        let prev = newline_starts(data, from, u - 1);
        let cur = newline_starts(data, from, u);
        if data[u - 1] == NEWLINE {
            assert(cur == prev.push(u as u64));
            assert(tail_start(data, from, u) == u);
            assert forall|k: int, j: int|
                0 <= k < cur.len() && gap_start(data, from, u, k) <= j < #[trigger] cur[k]
                    - 1 implies #[trigger] data[j] != NEWLINE by {
                if k < prev.len() {
                    assert(cur[k] == prev[k]);
                    assert(gap_start(data, from, u, k) == gap_start(data, from, u - 1, k));
                } else {
                    assert(gap_start(data, from, u, k) == tail_start(data, from, u - 1));
                }
            }
        } else {
            assert(cur == prev);
            assert forall|k: int, j: int|
                0 <= k < cur.len() && gap_start(data, from, u, k) <= j < #[trigger] cur[k]
                    - 1 implies #[trigger] data[j] != NEWLINE by {
                assert(cur[k] == prev[k]);
                assert(gap_start(data, from, u, k) == gap_start(data, from, u - 1, k));
            }
        }
    }
}

/// The line starts of a shorter stretch are a prefix of those of a longer one, and
/// every line start lies in `(from, to]` and is larger than the ones before it.
pub proof fn lemma_newline_starts_shape(data: Seq<u8>, from: int, t: int, u: int)
    requires
        0 <= from <= t <= u,
        u < 0x1_0000_0000_0000_0000,
    ensures
        newline_starts(data, from, t).len() <= newline_starts(data, from, u).len(),
        newline_starts(data, from, u).take(newline_starts(data, from, t).len() as int)
            == newline_starts(data, from, t),
        forall|k: int|
            0 <= k < newline_starts(data, from, u).len() ==> from < #[trigger] newline_starts(
                data,
                from,
                u,
            )[k] <= u,
        forall|k: int, m: int|
            0 <= k < m < newline_starts(data, from, u).len() ==> #[trigger] newline_starts(
                data,
                from,
                u,
            )[k] < #[trigger] newline_starts(data, from, u)[m],
        forall|k: int|
            0 <= k < newline_starts(data, from, u).len() ==> data[#[trigger] newline_starts(
                data,
                from,
                u,
            )[k] - 1] == NEWLINE,
    decreases u - t,
{
    lemma_newline_starts_bounds(data, from, u);
    if u > t {
        lemma_newline_starts_shape(data, from, t, u - 1);
        assert(newline_starts(data, from, u).take(newline_starts(data, from, u - 1).len() as int)
            =~= newline_starts(data, from, u - 1));
    } else {
        assert(newline_starts(data, from, u).take(newline_starts(data, from, u).len() as int)
            =~= newline_starts(data, from, u));
        lemma_newline_starts_bounds(data, from, u);
    }
}

proof fn lemma_newline_starts_bounds(data: Seq<u8>, from: int, u: int)
    requires
        0 <= from <= u,
        u < 0x1_0000_0000_0000_0000,
    ensures
        forall|k: int|
            0 <= k < newline_starts(data, from, u).len() ==> from < #[trigger] newline_starts(
                data,
                from,
                u,
            )[k] <= u,
        forall|k: int, m: int|
            0 <= k < m < newline_starts(data, from, u).len() ==> #[trigger] newline_starts(
                data,
                from,
                u,
            )[k] < #[trigger] newline_starts(data, from, u)[m],
        forall|k: int|
            0 <= k < newline_starts(data, from, u).len() ==> data[#[trigger] newline_starts(
                data,
                from,
                u,
            )[k] - 1] == NEWLINE,
    decreases u - from,
{
    if u > from {
        lemma_newline_starts_bounds(data, from, u - 1);
        let prev = newline_starts(data, from, u - 1);
        let cur = newline_starts(data, from, u);
        if data[u - 1] == NEWLINE {
            assert(cur == prev.push(u as u64));
            assert forall|k: int| 0 <= k < cur.len() implies from < #[trigger] cur[k] <= u by {
                if k < prev.len() {
                    assert(cur[k] == prev[k]);
                }
            }
            assert forall|k: int, m: int|
                0 <= k < m < cur.len() implies #[trigger] cur[k] < #[trigger] cur[m] by {
                assert(cur[k] == prev[k]);
                if m < prev.len() {
                    assert(cur[m] == prev[m]);
                }
            }
            assert forall|k: int| 0 <= k < cur.len() implies data[#[trigger] cur[k] - 1]
                == NEWLINE by {
                if k < prev.len() {
                    assert(cur[k] == prev[k]);
                }
            }
        } else {
            assert(cur == prev);
        }
    }
}

} // verus!
