//! Line-numbered access to a memory-mapped file, indexed lazily.
//!
//! Lines are indexed only as far as they are asked for, so opening a large file costs
//! nothing until its lines are read.

use crate::error::{io_error_new, IoErrorKind, Result, RllessError};
use crate::file_handler::adaptive::{mmap_bytes, mmap_contents};
use crate::file_handler::line_index::{
    lemma_known_lines, line_of, line_starts, line_total, LineIndex,
};
use crate::file_handler::scan::newline_starts;
use crate::text::{decimal_text, lossy_text, owned, string_from_utf8_lossy, u64_to_decimal};
use vstd::prelude::*;
use vstd::utf8::{decode_utf8, valid_utf8};
use vstd::slice::slice_subrange;

verus! {

/// How many lines past the starting line a forward search looks at most.
pub const FORWARD_SEARCH_LIMIT: u64 = 1_000_000u64;

/// The message of the error for a line number past the last line.
pub open spec fn missing_line_message(line_number: u64) -> Seq<char> {
    "Line number "@ + decimal_text(line_number as nat) + " out of bounds"@
}

/// `ranges` is what `search_fn` may report for a line of text `text`, and it is not
/// empty.
pub open spec fn reports_hit<F: Fn(&str) -> Vec<(usize, usize)>>(
    search_fn: F,
    text: Seq<char>,
    ranges: Vec<(usize, usize)>,
) -> bool {
    ranges@.len() > 0 && exists|s: &str| s@ == text && call_ensures(search_fn, (s,), ranges)
}

/// `search_fn` may report no match on a line of text `text`.
pub open spec fn may_pass<F: Fn(&str) -> Vec<(usize, usize)>>(search_fn: F, text: Seq<char>) -> bool {
    exists|s: &str, v: Vec<(usize, usize)>|
        s@ == text && call_ensures(search_fn, (s,), v) && v@.len() == 0
}

/// A line on which a search function reported matches.
#[derive(Debug, Clone)]
pub struct MatchInfo {
    /// 0-based line number.
    pub line_number: u64,
    /// Byte offset of the line's start.
    pub byte_offset: u64,
    /// The line's text.
    pub line_content: String,
    /// The match ranges the search function reported.
    pub match_ranges: Vec<(usize, usize)>,
    /// Lines shown before the match (none are collected).
    pub context_before: Vec<String>,
    /// Lines shown after the match (none are collected).
    pub context_after: Vec<String>,
}

/// `m` reports line `n` of `c`, on which `search_fn` reported `m.match_ranges`.
pub open spec fn reports_match<F: Fn(&str) -> Vec<(usize, usize)>>(
    c: Seq<u8>,
    n: int,
    search_fn: F,
    m: MatchInfo,
) -> bool {
    &&& m.line_number == n
    &&& m.byte_offset == line_starts(c)[n]
    &&& m.line_content@ == lossy_text(line_of(c, n))
    &&& valid_utf8(line_of(c, n)) ==> m.line_content@ == decode_utf8(line_of(c, n))
    &&& reports_hit(search_fn, lossy_text(line_of(c, n)), m.match_ranges)
    &&& m.context_before@.len() == 0
    &&& m.context_after@.len() == 0
}

/// An accessor over a memory-mapped file whose lines are indexed on demand.
#[derive(Debug)]
pub struct MmapFileAccessor {
    mmap: memmap2::Mmap,
    file_size: u64,
    line_index: LineIndex,
}

impl MmapFileAccessor {
    /// The mapped content.
    pub closed spec fn content(&self) -> Seq<u8> {
        mmap_contents(self.mmap)
    }

    /// The size the accessor reports.
    pub closed spec fn size(&self) -> u64 {
        self.file_size
    }

    /// The index describes the content up to where it was scanned, and was scanned to a
    /// line boundary.
    pub closed spec fn wf(&self) -> bool {
        &&& self.line_index.wf()
        &&& self.line_index.indexes(self.content())
        &&& self.line_index.aligned(self.content())
        &&& self.content().len() <= usize::MAX
    }

    /// How many lines the index knows.
    pub closed spec fn known_lines(&self) -> u64 {
        self.line_index.line_count()
    }

    /// An accessor over `mmap` reporting `file_size`; nothing is indexed yet.
    pub fn new(mmap: memmap2::Mmap, file_size: u64) -> (r: Self)
        ensures
            r.wf(),
            r.content() == mmap_contents(mmap),
            r.size() == file_size,
    {
        let line_index = LineIndex::new();
        // The mapping's length, as a slice length, is bounded by `usize::MAX`.
        let mapped_len: usize = mmap_bytes(&mmap).len();
        assert(mmap_contents(mmap).len() == mapped_len);
        assert(line_index.indexes(mmap_contents(mmap))) by {
            assert(seq![0u64] + newline_starts(mmap_contents(mmap), 0, 0) =~= seq![0u64]);
        }
        MmapFileAccessor { mmap, file_size, line_index }
    }

    /// The content's size in bytes.
    pub fn file_size(&self) -> (r: u64)
        ensures
            r == self.size(),
    {
        self.file_size
    }

    /// The number of lines is not counted ahead for mapped files.
    pub fn total_lines(&self) -> (r: Option<u64>)
        ensures
            r is None,
    {
        None
    }

    /// Lines are not searched in parallel.
    pub fn supports_parallel(&self) -> (r: bool)
        ensures
            !r,
    {
        false
    }

    /// The text of line `line_number` (0-based), invalid UTF-8 replaced, indexing as far
    /// as needed; an error for a line past the last.
    pub fn extract_line(&mut self, line_number: u64) -> (r: Result<String>)
        requires
            old(self).wf(),
        ensures
            final(self).wf(),
            final(self).content() == old(self).content(),
            final(self).size() == old(self).size(),
            line_number < line_total(old(self).content()) ==> (r matches Ok(s) && s@
                == lossy_text(line_of(old(self).content(), line_number as int)) && (valid_utf8(
                line_of(old(self).content(), line_number as int),
            ) ==> s@ == decode_utf8(line_of(old(self).content(), line_number as int)))),
            line_number >= line_total(old(self).content()) ==> (r matches Err(
                RllessError::FileError { message, .. },
            ) && message@ == missing_line_message(line_number)),
            r is Ok ==> line_number < final(self).known_lines(),
    {
        let bytes = mmap_bytes(&self.mmap);
        let ghost c = bytes@;
        self.line_index.ensure_indexed_to(bytes, line_number);
        proof {
            lemma_known_lines(self.line_index, c);
        }
        match self.line_index.get_line_range(line_number) {
            Some((start, end)) => {
                let ghost s = self.line_index.offsets();
                assert(start <= end <= c.len()) by {
                    if line_number + 1 < s.len() {
                        assert(s[line_number as int] < s[line_number + 1]);
                        assert(s[line_number + 1] <= s.last()) by {
                            if line_number + 1 < s.len() - 1 {
                                assert(s[line_number + 1] < s[s.len() - 1]);
                            }
                        }
                    }
                }
                let piece = slice_subrange(bytes, start as usize, end as usize);
                Ok(string_from_utf8_lossy(piece))
            },
            None => {
                let mut message = owned("Line number ");
                message.append(u64_to_decimal(line_number).as_str());
                message.append(" out of bounds");
                proof {
                    reveal_strlit("Line number ");
                    reveal_strlit(" out of bounds");
                }
                assert(message@ =~= missing_line_message(line_number));
                Err(
                    RllessError::FileError {
                        message,
                        source: io_error_new(IoErrorKind::InvalidInput, "Line out of bounds"),
                    },
                )
            },
        }
    }

    /// The text of line `line_number`.
    pub fn read_line(&mut self, line_number: u64) -> (r: Result<String>)
        requires
            old(self).wf(),
        ensures
            final(self).wf(),
            final(self).content() == old(self).content(),
            final(self).size() == old(self).size(),
            line_number < line_total(old(self).content()) ==> (r matches Ok(s) && s@
                == lossy_text(line_of(old(self).content(), line_number as int)) && (valid_utf8(
                line_of(old(self).content(), line_number as int),
            ) ==> s@ == decode_utf8(line_of(old(self).content(), line_number as int)))),
            line_number >= line_total(old(self).content()) ==> (r matches Err(
                RllessError::FileError { message, .. },
            ) && message@ == missing_line_message(line_number)),
    {
        self.extract_line(line_number)
    }

    /// The texts of up to `count` lines from line `start`, stopping at the last line.
    pub fn read_lines_range(&mut self, start: u64, count: u64) -> (r: Result<Vec<String>>)
        requires
            old(self).wf(),
            start + count <= u64::MAX,
        ensures
            final(self).wf(),
            final(self).content() == old(self).content(),
            final(self).size() == old(self).size(),
            r matches Ok(v) && {
                let c = old(self).content();
                let end = if start + count < line_total(c) {
                    start + count
                } else {
                    line_total(c) as int
                };
                &&& v@.len() == (if start < end {
                    end - start
                } else {
                    0
                })
                &&& forall|k: int|
                    0 <= k < v@.len() ==> (#[trigger] v@[k])@ == lossy_text(line_of(c, start + k))
            },
    {
        let mut lines: Vec<String> = Vec::new();
        if count == 0 {
            return Ok(lines);
        }
        let ghost c = self.content();
        let mut n = start;
        let stop = start + count;
        while n < stop
            invariant
                self.wf(),
                self.content() == c,
                self.size() == old(self).size(),
                c == old(self).content(),
                stop == start + count,
                start <= n <= stop,
                n <= line_total(c) || n == start,
                lines@.len() == n - start,
                forall|k: int|
                    0 <= k < lines@.len() ==> (#[trigger] lines@[k])@ == lossy_text(
                        line_of(c, start + k),
                    ),
            ensures
                self.wf(),
                self.content() == c,
                self.size() == old(self).size(),
                start <= n <= stop,
                lines@.len() == n - start,
                n == stop || n >= line_total(c),
                n <= line_total(c) || n == start,
                forall|k: int|
                    0 <= k < lines@.len() ==> (#[trigger] lines@[k])@ == lossy_text(
                        line_of(c, start + k),
                    ),
            decreases stop - n,
        {
            match self.extract_line(n) {
                Ok(line) => {
                    lines.push(line);
                },
                Err(_) => {
                    break;
                },
            }
            n = n + 1;
        }
        Ok(lines)
    }

    /// The first line from `start_line` on which `search_fn` reports matches, looking
    /// at most `FORWARD_SEARCH_LIMIT` lines past the start.
    pub fn find_next_match<F: Fn(&str) -> Vec<(usize, usize)>>(
        &mut self,
        start_line: u64,
        search_fn: &F,
    ) -> (r: Result<Option<MatchInfo>>)
        requires
            old(self).wf(),
            start_line + FORWARD_SEARCH_LIMIT <= u64::MAX,
            forall|s: &str| call_requires(*search_fn, (s,)),
        ensures
            final(self).wf(),
            final(self).content() == old(self).content(),
            final(self).size() == old(self).size(),
            ({
                let c = old(self).content();
                let limit = if start_line + FORWARD_SEARCH_LIMIT + 1 < line_total(c) {
                    start_line + FORWARD_SEARCH_LIMIT + 1
                } else {
                    line_total(c) as int
                };
                r matches Ok(found) && match found {
                    Some(m) => {
                        &&& start_line <= m.line_number < limit
                        &&& reports_match(c, m.line_number as int, *search_fn, m)
                        &&& forall|n: int|
                            start_line <= n < m.line_number ==> may_pass(
                                *search_fn,
                                lossy_text(line_of(c, n)),
                            )
                    },
                    None => forall|n: int|
                        start_line <= n < limit ==> may_pass(*search_fn, lossy_text(line_of(c, n))),
                }
            }),
    {
        let ghost c = self.content();
        let mut current = start_line;
        loop
            invariant
                self.wf(),
                self.content() == c,
                c == old(self).content(),
                self.size() == old(self).size(),
                forall|s: &str| call_requires(*search_fn, (s,)),
                start_line + FORWARD_SEARCH_LIMIT <= u64::MAX,
                start_line <= current <= start_line + FORWARD_SEARCH_LIMIT,
                current <= line_total(c) || current == start_line,
                forall|n: int|
                    start_line <= n < current ==> may_pass(*search_fn, lossy_text(line_of(c, n))),
            decreases start_line + FORWARD_SEARCH_LIMIT - current,
        {
            match self.extract_line(current) {
                Ok(line_content) => {
                    let match_ranges = search_fn(line_content.as_str());
                    if match_ranges.len() > 0 {
                        proof {
                            lemma_known_lines(self.line_index, c);
                        }
                        let offsets = self.line_index.get_line_offsets();
                        let byte_offset = if current < offsets.len() as u64 {
                            offsets[current as usize]
                        } else {
                            0
                        };
                        assert(byte_offset == line_starts(c)[current as int]);
                        return Ok(
                            Some(
                                MatchInfo {
                                    line_number: current,
                                    byte_offset,
                                    line_content,
                                    match_ranges,
                                    context_before: Vec::new(),
                                    context_after: Vec::new(),
                                },
                            ),
                        );
                    }
                    assert(may_pass(*search_fn, lossy_text(line_of(c, current as int))));
                    current = current + 1;
                },
                Err(_) => {
                    return Ok(None);
                },
            }
            if current > start_line + FORWARD_SEARCH_LIMIT {
                return Ok(None);
            }
        }
    }

    /// The nearest line before `start_line` on which `search_fn` reports matches; lines
    /// that cannot be read are passed over.
    pub fn find_prev_match<F: Fn(&str) -> Vec<(usize, usize)>>(
        &mut self,
        start_line: u64,
        search_fn: &F,
    ) -> (r: Result<Option<MatchInfo>>)
        requires
            old(self).wf(),
            forall|s: &str| call_requires(*search_fn, (s,)),
        ensures
            final(self).wf(),
            final(self).content() == old(self).content(),
            final(self).size() == old(self).size(),
            ({
                let c = old(self).content();
                let top = if start_line < line_total(c) {
                    start_line as int
                } else {
                    line_total(c) as int
                };
                r matches Ok(found) && match found {
                    Some(m) => {
                        &&& m.line_number < top
                        &&& reports_match(c, m.line_number as int, *search_fn, m)
                        &&& forall|n: int|
                            m.line_number < n < top ==> may_pass(
                                *search_fn,
                                lossy_text(line_of(c, n)),
                            )
                    },
                    None => forall|n: int|
                        0 <= n < top ==> may_pass(*search_fn, lossy_text(line_of(c, n))),
                }
            }),
    {
        let ghost c = self.content();
        if start_line == 0 {
            return Ok(None);
        }
        let mut current = start_line;
        while current > 0
            invariant
                self.wf(),
                self.content() == c,
                c == old(self).content(),
                self.size() == old(self).size(),
                forall|s: &str| call_requires(*search_fn, (s,)),
                current <= start_line,
                forall|n: int|
                    current <= n < start_line && n < line_total(c) ==> may_pass(
                        *search_fn,
                        lossy_text(line_of(c, n)),
                    ),
            decreases current,
        {
            let line_number = current - 1;
            match self.extract_line(line_number) {
                Ok(line_content) => {
                    let match_ranges = search_fn(line_content.as_str());
                    if match_ranges.len() > 0 {
                        proof {
                            lemma_known_lines(self.line_index, c);
                        }
                        let offsets = self.line_index.get_line_offsets();
                        let byte_offset = if line_number < offsets.len() as u64 {
                            offsets[line_number as usize]
                        } else {
                            0
                        };
                        assert(byte_offset == line_starts(c)[line_number as int]);
                        return Ok(
                            Some(
                                MatchInfo {
                                    line_number,
                                    byte_offset,
                                    line_content,
                                    match_ranges,
                                    context_before: Vec::new(),
                                    context_after: Vec::new(),
                                },
                            ),
                        );
                    }
                    assert(may_pass(*search_fn, lossy_text(line_of(c, line_number as int))));
                },
                Err(_) => {},
            }
            current = line_number;
        }
        Ok(None)
    }
}

} // verus!
