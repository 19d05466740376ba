//! The mathematical model of lines in a byte buffer that the accessors are specified
//! against: where a line ends, which lines a forward or backward walk visits, and what a
//! search function may say of a line.

use crate::file_handler::scan::NEWLINE;
use vstd::prelude::*;
use vstd::utf8::{decode_utf8, valid_utf8};

verus! {

/// Index of the first newline at or after `p`, or the length of `b` when there is none.
pub open spec fn line_end(b: Seq<u8>, p: int) -> int
    decreases b.len() - p,
{
    if p >= b.len() {
        b.len() as int
    } else if b[p] == NEWLINE {
        p
    } else {
        line_end(b, p + 1)
    }
}

/// The bytes of the line that starts at `p`, newline excluded.
pub open spec fn line_bytes(b: Seq<u8>, p: int) -> Seq<u8> {
    b.subrange(p, line_end(b, p))
}

/// `q` starts a line visited by a forward walk from `start`: the walk begins at `start`
/// and then visits every position just past a newline.
pub open spec fn forward_visits(b: Seq<u8>, start: int, q: int) -> bool {
    ||| q == start
    ||| (start < q && q <= b.len() && b[q - 1] == NEWLINE)
}

/// The line starts a forward walk from `p` visits when it reads at most `n` lines.
pub open spec fn forward_starts(b: Seq<u8>, p: int, n: nat) -> Seq<int>
    decreases n,
{
    if n == 0 || p >= b.len() {
        seq![]
    } else if line_end(b, p) < b.len() {
        seq![p] + forward_starts(b, line_end(b, p) + 1, (n - 1) as nat)
    } else {
        seq![p]
    }
}

/// Where a walk from `p` that skips `n` whole lines (each ended by a newline) lands, or
/// `None` when the buffer ends first.
pub open spec fn skip_lines(b: Seq<u8>, p: int, n: nat) -> Option<int>
    decreases n,
{
    if n == 0 {
        Some(p)
    } else if p >= b.len() || line_end(b, p) >= b.len() {
        None
    } else {
        skip_lines(b, line_end(b, p) + 1, (n - 1) as nat)
    }
}

/// Position of the last newline before `sp`, or -1 when there is none.
pub open spec fn last_newline_before(b: Seq<u8>, sp: int) -> int
    decreases sp,
{
    if sp <= 0 {
        -1
    } else if b[sp - 1] == NEWLINE {
        sp - 1
    } else {
        last_newline_before(b, sp - 1)
    }
}

/// A walk backward from the separator at `sp` over `n` more separators: the position just
/// past the last separator reached, or 0 when the buffer's start comes first.
pub open spec fn walk_back(b: Seq<u8>, sp: int, n: nat) -> int
    decreases n,
{
    if n == 0 {
        sp + 1
    } else if last_newline_before(b, sp) < 0 {
        0
    } else {
        walk_back(b, last_newline_before(b, sp), (n - 1) as nat)
    }
}

/// Start of the last page of at most `max_lines` lines: a trailing newline ends the last
/// line and separates nothing.
pub open spec fn last_page_start_of(b: Seq<u8>, max_lines: nat) -> int {
    if b.len() == 0 || max_lines == 0 {
        0
    } else {
        let sp = if b.last() == NEWLINE {
            b.len() - 1
        } else {
            b.len() as int
        };
        walk_back(b, sp, max_lines)
    }
}

/// Start of the page `lines_to_skip` lines below `current`, or `size` when the buffer
/// ends before that many lines are skipped.
pub open spec fn next_page_start_of(b: Seq<u8>, size: u64, current: u64, lines_to_skip: nat) -> u64 {
    match skip_lines(b, current as int, lines_to_skip) {
        Some(q) => q as u64,
        None => size,
    }
}

/// Start of the page `lines_to_skip` lines above `current`, 0 at the start of the buffer.
pub open spec fn prev_page_start_of(b: Seq<u8>, current: u64, lines_to_skip: nat) -> u64 {
    if current == 0 || lines_to_skip == 0 {
        0
    } else {
        walk_back(b, current - 1, lines_to_skip) as u64
    }
}

/// Where a backward search from `start` begins: the byte before `start` inside the
/// buffer; from the end (at or past it), the end itself when the last line has no
/// final newline, so that the whole last line is examined, and the final newline
/// otherwise; 0 for an empty buffer or from position 0.
pub open spec fn backward_first(b: Seq<u8>, start: int) -> int {
    if start >= b.len() {
        if b.len() == 0 {
            0
        } else if b[b.len() - 1] != NEWLINE {
            b.len() as int
        } else {
            b.len() - 1
        }
    } else if start <= 0 {
        0
    } else {
        start - 1
    }
}

/// The separator positions a backward search from `start` visits, nearest first: the
/// position where it begins (`backward_first`), then every newline before it.
pub open spec fn backward_visits(b: Seq<u8>, start: int, e: int) -> bool {
    let e0 = backward_first(b, start);
    ||| e == e0
    ||| (0 <= e < e0 && b[e] == NEWLINE)
}

/// The piece a backward search examines for the separator at `e`: from just past the
/// newline before `e` (or the start) up to `e`.
pub open spec fn piece_start(b: Seq<u8>, e: int) -> int {
    last_newline_before(b, e) + 1
}

/// `search_fn` may report a match in the text of `line`: the bytes are UTF-8 and some
/// call on their text may return a non-empty list.
pub open spec fn may_hit<F: Fn(&str) -> Vec<(usize, usize)>>(search_fn: F, line: Seq<u8>) -> bool {
    &&& valid_utf8(line)
    &&& exists|s: &str, v: Vec<(usize, usize)>|
        s@ == decode_utf8(line) && call_ensures(search_fn, (s,), v) && v@.len() > 0
}

/// `search_fn` may pass over `line`: the bytes are not UTF-8, or some call on their text
/// may return an empty list.
pub open spec fn may_miss<F: Fn(&str) -> Vec<(usize, usize)>>(search_fn: F, line: Seq<u8>) -> bool {
    ||| !valid_utf8(line)
    ||| exists|s: &str, v: Vec<(usize, usize)>|
        s@ == decode_utf8(line) && call_ensures(search_fn, (s,), v) && v@.len() == 0
}

/// `line_end` lies between `p` and the end, no newline comes before it, and it is a
/// newline unless it is the end.
pub proof fn lemma_line_end(b: Seq<u8>, p: int)
    requires
        0 <= p <= b.len(),
    ensures
        p <= line_end(b, p) <= b.len(),
        forall|j: int| p <= j < line_end(b, p) ==> b[j] != NEWLINE,
        line_end(b, p) < b.len() ==> b[line_end(b, p)] == NEWLINE,
    decreases b.len() - p,
{
    if p < b.len() && b[p] != NEWLINE {
        lemma_line_end(b, p + 1);
    }
}

/// A newline-free stretch from `p` to a newline (or the end) at `e` is the line at `p`.
pub proof fn lemma_line_end_at(b: Seq<u8>, p: int, e: int)
    requires
        0 <= p <= e <= b.len(),
        forall|j: int| p <= j < e ==> b[j] != NEWLINE,
        e == b.len() || b[e] == NEWLINE,
    ensures
        line_end(b, p) == e,
    decreases e - p,
{
    if p < e {
        lemma_line_end_at(b, p + 1, e);
    }
}

/// `last_newline_before` is a newline before `sp` with none between it and `sp`, or -1
/// when no newline precedes `sp`.
pub proof fn lemma_last_newline_before(b: Seq<u8>, sp: int)
    requires
        0 <= sp <= b.len(),
    ensures
        -1 <= last_newline_before(b, sp) < sp,
        last_newline_before(b, sp) >= 0 ==> b[last_newline_before(b, sp)] == NEWLINE,
        forall|j: int| last_newline_before(b, sp) < j < sp ==> b[j] != NEWLINE,
    decreases sp,
{
    if sp > 0 && b[sp - 1] != NEWLINE {
        lemma_last_newline_before(b, sp - 1);
    }
}

/// A newline at `nl` before `sp` with none between them is the last newline before `sp`;
/// no newline at all before `sp` gives -1.
pub proof fn lemma_last_newline_before_at(b: Seq<u8>, sp: int, nl: int)
    requires
        -1 <= nl < sp <= b.len(),
        nl >= 0 ==> b[nl] == NEWLINE,
        forall|j: int| nl < j < sp ==> b[j] != NEWLINE,
    ensures
        last_newline_before(b, sp) == nl,
    decreases sp - nl,
{
    if sp - 1 > nl {
        lemma_last_newline_before_at(b, sp - 1, nl);
    }
}

/// The result of a backward walk is 0 or just past a newline, and never beyond the
/// separator it started from.
pub proof fn lemma_walk_back_bounds(b: Seq<u8>, sp: int, n: nat)
    requires
        0 <= sp <= b.len(),
    ensures
        0 <= walk_back(b, sp, n) <= sp + 1,
        n > 0 ==> walk_back(b, sp, n) <= sp,
        n > 0 && walk_back(b, sp, n) > 0 ==> b[walk_back(b, sp, n) - 1] == NEWLINE,
    decreases n,
{
    if n > 0 {
        lemma_last_newline_before(b, sp);
        let nl = last_newline_before(b, sp);
        if nl >= 0 {
            lemma_walk_back_bounds(b, nl, (n - 1) as nat);
        }
    }
}

/// A walk that skips lines lands just past a newline, or stays where it started.
pub proof fn lemma_skip_lines_bounds(b: Seq<u8>, p: int, n: nat)
    requires
        0 <= p <= b.len(),
    ensures
        skip_lines(b, p, n) matches Some(q) ==> p <= q <= b.len() && (n > 0 ==> p < q && b[q
            - 1] == NEWLINE) && (n == 0 ==> q == p),
    decreases n,
{
    if n > 0 && p < b.len() && line_end(b, p) < b.len() {
        lemma_line_end(b, p);
        lemma_skip_lines_bounds(b, line_end(b, p) + 1, (n - 1) as nat);
    }
}

/// `p` starts a line: it is the start of the buffer or just past a newline.
pub open spec fn is_line_start(b: Seq<u8>, p: int) -> bool {
    p == 0 || (0 < p <= b.len() && b[p - 1] == NEWLINE)
}

/// One step back from the newline ending the line at `p` lands on `p`.
proof fn lemma_walk_back_one_line(b: Seq<u8>, p: int)
    requires
        0 <= p < b.len(),
        is_line_start(b, p),
        line_end(b, p) < b.len(),
    ensures
        walk_back(b, line_end(b, p), 1) == p,
{
    lemma_line_end(b, p);
    let e = line_end(b, p);
    if p == 0 {
        lemma_last_newline_before_at(b, e, -1);
    } else {
        lemma_last_newline_before_at(b, e, p - 1);
        assert(walk_back(b, p - 1, 0) == p);
    }
}

/// Walking back `k + 1` separators is walking back `k`, then one more.
proof fn lemma_walk_back_split(b: Seq<u8>, sp: int, k: nat)
    requires
        0 <= sp <= b.len(),
        walk_back(b, sp, k) > 0,
    ensures
        walk_back(b, sp, k + 1) == walk_back(b, walk_back(b, sp, k) - 1, 1),
    decreases k,
{
    if k > 0 {
        lemma_last_newline_before(b, sp);
        let nl = last_newline_before(b, sp);
        assert(nl >= 0);
        lemma_walk_back_split(b, nl, (k - 1) as nat);
    }
}

/// Skipping `k + 1` lines is skipping `k`, then one more.
proof fn lemma_skip_lines_split(b: Seq<u8>, p: int, k: nat)
    requires
        0 <= p <= b.len(),
    ensures
        skip_lines(b, p, k + 1) == match skip_lines(b, p, k) {
            Some(y) => skip_lines(b, y, 1),
            None => None,
        },
    decreases k,
{
    if k > 0 && p < b.len() && line_end(b, p) < b.len() {
        lemma_line_end(b, p);
        lemma_skip_lines_split(b, line_end(b, p) + 1, (k - 1) as nat);
    }
}

/// Paging down `n` lines from a line start and then up `n` lines comes back to it,
/// when the content did not end before `n` lines were skipped.
pub proof fn law_page_down_then_up(b: Seq<u8>, size: u64, current: u64, n: nat)
    requires
        current < b.len(),
        is_line_start(b, current as int),
        n > 0,
        skip_lines(b, current as int, n) is Some,
        b.len() < 0x1_0000_0000_0000_0000,
    ensures
        next_page_start_of(b, size, current, n) > current,
        next_page_start_of(b, size, current, n) <= b.len(),
        prev_page_start_of(b, next_page_start_of(b, size, current, n), n) == current,
    decreases n,
{
    lemma_skip_lines_bounds(b, current as int, n);
    lemma_line_end(b, current as int);
    let e = line_end(b, current as int);
    let q = skip_lines(b, current as int, n)->0;
    if n == 1 {
        lemma_walk_back_one_line(b, current as int);
    } else {
        let c2 = e + 1;
        assert(skip_lines(b, current as int, n) == skip_lines(b, c2, (n - 1) as nat));
        if c2 < b.len() {
            law_page_down_then_up(b, size, c2 as u64, (n - 1) as nat);
            assert(next_page_start_of(b, size, c2 as u64, (n - 1) as nat) == q as u64);
            lemma_walk_back_bounds(b, q - 1, (n - 1) as nat);
            assert(walk_back(b, q - 1, (n - 1) as nat) == c2);
            lemma_walk_back_split(b, q - 1, (n - 1) as nat);
            lemma_walk_back_one_line(b, current as int);
            assert(walk_back(b, q - 1, n) == current);
        } else {
            assert(skip_lines(b, c2, (n - 1) as nat) is None);
        }
    }
}

/// One line skipped from just past the newline before the separator `sp` ends just past
/// `sp`.
proof fn lemma_skip_one_line_to(b: Seq<u8>, sp: int)
    requires
        0 <= sp < b.len(),
        b[sp] == NEWLINE,
        last_newline_before(b, sp) >= 0,
    ensures
        skip_lines(b, last_newline_before(b, sp) + 1, 1) == Some(sp + 1),
{
    lemma_last_newline_before(b, sp);
    let x = last_newline_before(b, sp);
    lemma_line_end_at(b, x + 1, sp);
    assert(skip_lines(b, sp + 1, 0) == Some(sp + 1));
}

/// A backward walk over `n` newlines that did not reach the start, followed by a walk
/// forward over `n` lines, lands just past the separator it started from.
proof fn lemma_walk_back_then_skip(b: Seq<u8>, sp: int, n: nat)
    requires
        0 <= sp < b.len(),
        b[sp] == NEWLINE,
        n > 0,
        walk_back(b, sp, n) > 0,
    ensures
        skip_lines(b, walk_back(b, sp, n), n) == Some(sp + 1),
    decreases n,
{
    lemma_last_newline_before(b, sp);
    let x = last_newline_before(b, sp);
    assert(x >= 0);
    if n == 1 {
        lemma_skip_one_line_to(b, sp);
    } else {
        assert(walk_back(b, sp, n) == walk_back(b, x, (n - 1) as nat));
        lemma_walk_back_then_skip(b, x, (n - 1) as nat);
        lemma_walk_back_bounds(b, x, (n - 1) as nat);
        lemma_skip_lines_split(b, walk_back(b, sp, n), (n - 1) as nat);
        lemma_skip_one_line_to(b, sp);
    }
}

/// Paging up `n` lines from a line start and then down `n` lines comes back to it, when
/// the start of the content was not reached on the way up.
pub proof fn law_page_up_then_down(b: Seq<u8>, size: u64, current: u64, n: nat)
    requires
        0 < current <= b.len(),
        is_line_start(b, current as int),
        n > 0,
        prev_page_start_of(b, current, n) > 0,
        b.len() < 0x1_0000_0000_0000_0000,
    ensures
        prev_page_start_of(b, current, n) < current,
        next_page_start_of(b, size, prev_page_start_of(b, current, n), n) == current,
{
    lemma_walk_back_bounds(b, current - 1, n);
    lemma_walk_back_then_skip(b, current - 1, n);
}

/// The last page starts at a line start within the content.
pub proof fn law_last_page_start_is_line_start(b: Seq<u8>, max_lines: nat)
    ensures
        0 <= last_page_start_of(b, max_lines) <= b.len(),
        is_line_start(b, last_page_start_of(b, max_lines)),
{
    if b.len() > 0 && max_lines > 0 {
        let sp = if b.last() == NEWLINE {
            b.len() - 1
        } else {
            b.len() as int
        };
        lemma_walk_back_bounds(b, sp, max_lines);
    }
}

/// Lines counted from `p` after skipping `k` whole lines to `q`: those `k`, then the ones
/// from `q`.
proof fn lemma_forward_starts_after_skip(b: Seq<u8>, p: int, k: nat, m: nat, q: int)
    requires
        0 <= p <= b.len(),
        k <= m,
        skip_lines(b, p, k) == Some(q),
    ensures
        forward_starts(b, p, m).len() == k + forward_starts(b, q, (m - k) as nat).len(),
    decreases k,
{
    if k > 0 {
        lemma_line_end(b, p);
        lemma_forward_starts_after_skip(b, line_end(b, p) + 1, (k - 1) as nat, (m - 1) as nat, q);
    }
}

/// Walking back `n` separators from the newline at `sp` reaches a position from which at
/// most `n` whole lines lead just past `sp`.
proof fn lemma_walk_back_reaches(b: Seq<u8>, sp: int, n: nat) -> (k: nat)
    requires
        0 <= sp < b.len(),
        b[sp] == NEWLINE,
        n >= 1,
    ensures
        1 <= k <= n,
        skip_lines(b, walk_back(b, sp, n), k) == Some(sp + 1),
    decreases n,
{
    lemma_last_newline_before(b, sp);
    let x = last_newline_before(b, sp);
    if x < 0 {
        lemma_line_end_at(b, 0, sp);
        assert(skip_lines(b, sp + 1, 0) == Some(sp + 1));
        1
    } else if n == 1 {
        lemma_skip_one_line_to(b, sp);
        1
    } else {
        let k1 = lemma_walk_back_reaches(b, x, (n - 1) as nat);
        let r = walk_back(b, sp, n);
        assert(r == walk_back(b, x, (n - 1) as nat));
        lemma_walk_back_bounds(b, x, (n - 1) as nat);
        lemma_skip_lines_split(b, r, k1);
        lemma_skip_one_line_to(b, sp);
        k1 + 1
    }
}

/// The last page holds at most `max_lines` lines: reading one line more than a page
/// from its start still yields at most `max_lines`.
pub proof fn law_last_page_fits(b: Seq<u8>, max_lines: nat)
    requires
        b.len() > 0,
        max_lines > 0,
    ensures
        forward_starts(b, last_page_start_of(b, max_lines), max_lines + 1).len() <= max_lines,
{
    let n = max_lines;
    let len = b.len() as int;
    let r = last_page_start_of(b, n);
    if b.last() == NEWLINE {
        let k = lemma_walk_back_reaches(b, len - 1, n);
        lemma_walk_back_bounds(b, len - 1, n);
        lemma_forward_starts_after_skip(b, r, k, n + 1, len);
    } else {
        lemma_last_newline_before(b, len);
        let x = last_newline_before(b, len);
        if x < 0 {
            lemma_line_end_at(b, 0, len);
        } else {
            lemma_line_end_at(b, x + 1, len);
            if n == 1 {
                assert(r == x + 1);
            } else {
                assert(r == walk_back(b, x, (n - 1) as nat));
                let k = lemma_walk_back_reaches(b, x, (n - 1) as nat);
                lemma_walk_back_bounds(b, x, (n - 1) as nat);
                lemma_forward_starts_after_skip(b, r, k, n + 1, x + 1);
                assert(forward_starts(b, x + 1, (n + 1 - k) as nat).len() == 1);
            }
        }
    }
}

/// A read of `n` lines from `p` yields at most `n` lines, none when `p` is at or past the
/// end, and each starts where a forward walk from `p` stops.
pub proof fn law_read_at_most_requested(b: Seq<u8>, p: int, n: nat)
    requires
        0 <= p,
    ensures
        forward_starts(b, p, n).len() <= n,
        p >= b.len() ==> forward_starts(b, p, n).len() == 0,
        forall|k: int|
            0 <= k < forward_starts(b, p, n).len() ==> forward_visits(
                b,
                p,
                #[trigger] forward_starts(b, p, n)[k],
            ) && forward_starts(b, p, n)[k] < b.len(),
    decreases n,
{
    if n > 0 && p < b.len() {
        lemma_line_end(b, p);
        let e = line_end(b, p);
        if e < b.len() {
            law_read_at_most_requested(b, e + 1, (n - 1) as nat);
            let rest = forward_starts(b, e + 1, (n - 1) as nat);
            assert forall|k: int| 0 <= k < forward_starts(b, p, n).len() implies forward_visits(
                b,
                p,
                #[trigger] forward_starts(b, p, n)[k],
            ) && forward_starts(b, p, n)[k] < b.len() by {
                if k > 0 {
                    assert(forward_starts(b, p, n)[k] == rest[k - 1]);
                    assert(forward_visits(b, e + 1, rest[k - 1]));
                }
            }
        }
    }
}

} // verus!
