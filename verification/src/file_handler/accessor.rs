//! The file access interface: byte-based navigation over a file's content.
//!
//! Positions are byte offsets. A line is the stretch from a line start up to the next
//! newline or the end of the content; the newline itself belongs to no line.

use crate::error::{Result, RllessError};
use crate::file_handler::lines::{
    backward_visits, forward_starts, forward_visits, last_page_start_of, line_bytes, may_hit,
    may_miss, next_page_start_of, piece_start, prev_page_start_of,
};
use vstd::prelude::*;
use vstd::utf8::{decode_utf8, valid_utf8};

verus! {

/// What reading up to `max_lines` lines from `start` yields: the text of each line a
/// forward walk visits when all of them are UTF-8, an invalid-UTF-8 error otherwise.
pub open spec fn read_outcome(
    b: Seq<u8>,
    start: u64,
    max_lines: usize,
    r: Result<Vec<String>>,
) -> bool {
    let qs = forward_starts(b, start as int, max_lines as nat);
    match r {
        Ok(v) => {
            &&& v@.len() == qs.len()
            &&& forall|k: int|
                0 <= k < qs.len() ==> valid_utf8(line_bytes(b, #[trigger] qs[k])) && v@[k]@
                    == decode_utf8(line_bytes(b, qs[k]))
        },
        Err(e) => {
            &&& exists|k: int| 0 <= k < qs.len() && !valid_utf8(line_bytes(b, #[trigger] qs[k]))
            &&& e matches RllessError::FileError { message, .. } && message@
                == "Invalid UTF-8 in file"@
        },
    }
}

/// What a forward search from `start` may find: the first visited line on which the
/// search function reports a match, every earlier visited line passed over.
pub open spec fn next_match_outcome<F: Fn(&str) -> Vec<(usize, usize)>>(
    b: Seq<u8>,
    start: u64,
    search_fn: F,
    r: Option<u64>,
) -> bool {
    match r {
        Some(p) => {
            &&& start <= p < b.len()
            &&& forward_visits(b, start as int, p as int)
            &&& may_hit(search_fn, line_bytes(b, p as int))
            &&& forall|q: int|
                start <= q < p && #[trigger] forward_visits(b, start as int, q) ==> may_miss(
                    search_fn,
                    line_bytes(b, q),
                )
        },
        None => forall|q: int|
            start <= q < b.len() && #[trigger] forward_visits(b, start as int, q) ==> may_miss(
                search_fn,
                line_bytes(b, q),
            ),
    }
}

/// What a backward search from `start` may find: the start of the nearest examined piece
/// on which the search function reports a match, every nearer piece passed over. Nothing
/// is searched from position 0.
pub open spec fn prev_match_outcome<F: Fn(&str) -> Vec<(usize, usize)>>(
    b: Seq<u8>,
    start: u64,
    search_fn: F,
    r: Option<u64>,
) -> bool {
    match r {
        Some(p) => {
            &&& start > 0
            &&& exists|e: int|
                {
                    &&& #[trigger] backward_visits(b, start as int, e)
                    &&& p == piece_start(b, e)
                    &&& may_hit(search_fn, b.subrange(p as int, e))
                    &&& forall|e2: int|
                        e < e2 && #[trigger] backward_visits(b, start as int, e2) ==> may_miss(
                            search_fn,
                            b.subrange(piece_start(b, e2), e2),
                        )
                }
        },
        None => start == 0 || forall|e: int|
            #[trigger] backward_visits(b, start as int, e) ==> may_miss(
                search_fn,
                b.subrange(piece_start(b, e), e),
            ),
    }
}

/// Byte-based access to a file's content for viewing and searching.
pub trait FileAccessor {
    /// The content the accessor reads.
    spec fn content(&self) -> Seq<u8>;

    /// The size the accessor reports.
    spec fn reported_size(&self) -> u64;

    /// Read up to `max_lines` lines starting at `start_byte`; none when `start_byte` is at
    /// or past the end.
    fn read_from_byte(&self, start_byte: u64, max_lines: usize) -> (r: Result<Vec<String>>)
        ensures
            read_outcome(self.content(), start_byte, max_lines, r),
    ;

    /// Byte position of the first line at or after `start_byte` (the rest of the line
    /// `start_byte` falls in, then whole lines) on which `search_fn` reports a match.
    fn find_next_match<F: Fn(&str) -> Vec<(usize, usize)>>(
        &self,
        start_byte: u64,
        search_fn: &F,
    ) -> (r: Result<Option<u64>>)
        requires
            forall|s: &str| call_requires(*search_fn, (s,)),
        ensures
            r matches Ok(m) && next_match_outcome(self.content(), start_byte, *search_fn, m),
    ;

    /// Byte position of the nearest line before `start_byte` on which `search_fn` reports
    /// a match.
    fn find_prev_match<F: Fn(&str) -> Vec<(usize, usize)>>(
        &self,
        start_byte: u64,
        search_fn: &F,
    ) -> (r: Result<Option<u64>>)
        requires
            forall|s: &str| call_requires(*search_fn, (s,)),
        ensures
            r matches Ok(m) && prev_match_outcome(self.content(), start_byte, *search_fn, m),
    ;

    /// The file size in bytes.
    fn file_size(&self) -> (r: u64)
        ensures
            r == self.reported_size(),
    ;

    /// The path the accessor was opened with.
    spec fn path(&self) -> &std::path::Path;

    /// The file's path.
    fn file_path(&self) -> (r: &std::path::Path)
        ensures
            r == self.path(),
    ;

    /// Where the last page of at most `max_lines` lines starts; 0 when the content is
    /// shorter than a page.
    fn last_page_start(&self, max_lines: usize) -> (r: Result<u64>)
        ensures
            r == Ok::<u64, RllessError>(last_page_start_of(self.content(), max_lines as nat) as u64),
    ;

    /// Where the page `lines_to_skip` lines below `current_byte` starts; the reported
    /// size when the content ends first.
    fn next_page_start(&self, current_byte: u64, lines_to_skip: usize) -> (r: Result<u64>)
        ensures
            r == Ok::<u64, RllessError>(
                next_page_start_of(
                    self.content(),
                    self.reported_size(),
                    current_byte,
                    lines_to_skip as nat,
                ),
            ),
    ;

    /// Where the page `lines_to_skip` lines above `current_byte` starts; 0 at the start.
    fn prev_page_start(&self, current_byte: u64, lines_to_skip: usize) -> (r: Result<u64>)
        requires
            current_byte <= self.content().len() + 1,
        ensures
            r == Ok::<u64, RllessError>(
                prev_page_start_of(self.content(), current_byte, lines_to_skip as nat),
            ),
    ;
}

/// An accessor shared between owners reads what the shared accessor reads.
impl<A: FileAccessor> FileAccessor for std::sync::Arc<A> {
    open spec fn content(&self) -> Seq<u8> {
        (**self).content()
    }

    open spec fn reported_size(&self) -> u64 {
        (**self).reported_size()
    }

    open spec fn path(&self) -> &std::path::Path {
        (**self).path()
    }

    fn read_from_byte(&self, start_byte: u64, max_lines: usize) -> (r: Result<Vec<String>>) {
        (**self).read_from_byte(start_byte, max_lines)
    }

    fn find_next_match<F: Fn(&str) -> Vec<(usize, usize)>>(
        &self,
        start_byte: u64,
        search_fn: &F,
    ) -> (r: Result<Option<u64>>) {
        (**self).find_next_match(start_byte, search_fn)
    }

    fn find_prev_match<F: Fn(&str) -> Vec<(usize, usize)>>(
        &self,
        start_byte: u64,
        search_fn: &F,
    ) -> (r: Result<Option<u64>>) {
        (**self).find_prev_match(start_byte, search_fn)
    }

    fn file_size(&self) -> (r: u64) {
        (**self).file_size()
    }

    fn file_path(&self) -> &std::path::Path {
        (**self).file_path()
    }

    fn last_page_start(&self, max_lines: usize) -> (r: Result<u64>) {
        (**self).last_page_start(max_lines)
    }

    fn next_page_start(&self, current_byte: u64, lines_to_skip: usize) -> (r: Result<u64>) {
        (**self).next_page_start(current_byte, lines_to_skip)
    }

    fn prev_page_start(&self, current_byte: u64, lines_to_skip: usize) -> (r: Result<u64>) {
        (**self).prev_page_start(current_byte, lines_to_skip)
    }
}

} // verus!
