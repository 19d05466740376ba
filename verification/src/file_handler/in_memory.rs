//! Line-numbered access to content held in memory.
//!
//! The whole content is indexed once when the accessor is made; every line is then
//! extracted directly from the buffer by its recorded byte range.

use crate::error::{io_error_new, IoErrorKind, Result, RllessError};
use crate::file_handler::line_index::{line_of, line_starts, line_total, LineIndex};
use crate::file_handler::scan::newline_starts;
use crate::text::{
    decimal_text, lossy_text, occurs_at, owned, str_find, string_from_utf8_lossy, u64_to_decimal,
};
use vstd::prelude::*;
use vstd::utf8::{decode_utf8, valid_utf8};
use vstd::slice::slice_subrange;

verus! {

/// The message of the error for a line number past the last line.
pub open spec fn out_of_bounds_message(line_number: u64, total: u64) -> Seq<char> {
    "Line number "@ + decimal_text(line_number as nat) + " out of bounds (total lines: "@
        + decimal_text(total as nat) + ")"@
}

/// A line on which a pattern was found.
#[derive(Debug, Clone)]
pub struct MatchInfo {
    /// 0-based line number.
    pub line_number: u64,
    /// Byte offset of the line's start.
    pub byte_offset: u64,
    /// The line's text.
    pub line_content: String,
    /// Byte range of the first occurrence of the pattern in the line's text.
    pub match_start: usize,
    pub match_end: usize,
}

/// `m` reports line `n` of `c` and the first occurrence of `pattern` in its text.
pub open spec fn reports_line(c: Seq<u8>, n: int, pattern: &str, m: MatchInfo) -> bool {
    &&& m.line_number == n
    &&& m.byte_offset == line_starts(c)[n]
    &&& m.line_content@ == lossy_text(line_of(c, n))
    &&& valid_utf8(line_of(c, n)) ==> m.line_content@ == decode_utf8(line_of(c, n))
    &&& occurs_at(encode_text(m.line_content@), encode_text(pattern@), m.match_start as int)
    &&& forall|j: int|
        0 <= j < m.match_start ==> !occurs_at(encode_text(m.line_content@), encode_text(pattern@), j)
    &&& m.match_end == m.match_start + encode_text(pattern@).len()
}

/// The text of line `n` of `c` contains `pattern`.
pub open spec fn line_contains(c: Seq<u8>, n: int, pattern: &str) -> bool {
    exists|j: int| occurs_at(encode_text(lossy_text(line_of(c, n))), encode_text(pattern@), j)
}

/// The UTF-8 bytes of a text.
pub open spec fn encode_text(t: Seq<char>) -> Seq<u8> {
    vstd::utf8::encode_utf8(t)
}

/// An accessor over content loaded into memory, with every line indexed.
#[derive(Debug)]
pub struct InMemoryFileAccessor {
    content: Vec<u8>,
    file_size: u64,
    line_index: LineIndex,
    total_lines: u64,
}

impl InMemoryFileAccessor {
    #[verifier::type_invariant]
    spec fn inv(&self) -> bool {
        &&& self.line_index.wf()
        &&& self.line_index.indexes(self.content@)
        &&& self.line_index.indexed_to() == self.content@.len()
        &&& self.total_lines == self.line_index.line_count()
        &&& self.file_size == self.content@.len()
    }

    /// The content.
    pub closed spec fn content(&self) -> Seq<u8> {
        self.content@
    }

    /// Index the whole of `content`.
    pub fn new(content: Vec<u8>) -> (r: Self)
        ensures
            r.content() == content@,
    {
        let mut line_index = LineIndex::new();
        assert(line_index.indexes(content@)) by {
            assert(seq![0u64] + newline_starts(content@, 0, 0) =~= seq![0u64]);
        }
        line_index.ensure_indexed_to(content.as_slice(), u64::MAX);
        let total_lines = line_index.indexed_line_count();
        let file_size = content.len() as u64;
        InMemoryFileAccessor { content, file_size, line_index, total_lines }
    }

    /// The line index built over the content.
    pub fn line_index(&self) -> (r: &LineIndex)
        ensures
            r.wf(),
            r.offsets() == line_starts(self.content()),
            r.indexed_to() == self.content().len(),
    {
        proof {
            use_type_invariant(self);
        }
        &self.line_index
    }


    /// The content's size in bytes.
    pub fn file_size(&self) -> (r: u64)
        ensures
            r == self.content().len(),
    {
        proof {
            use_type_invariant(self);
        }
        self.file_size
    }

    /// The number of lines; always known for content in memory.
    pub fn total_lines(&self) -> (r: Option<u64>)
        ensures
            r == Some(line_total(self.content()) as u64),
    {
        proof {
            use_type_invariant(self);
            lemma_total(self.line_index, self.content@, self.total_lines);
        }
        Some(self.total_lines)
    }

    /// The text of line `line_number` (0-based), invalid UTF-8 replaced; an error for a
    /// line past the last.
    pub fn extract_line(&self, line_number: u64) -> (r: Result<String>)
        ensures
            line_number < line_total(self.content()) ==> (r matches Ok(s) && s@ == lossy_text(
                line_of(self.content(), line_number as int),
            ) && (valid_utf8(line_of(self.content(), line_number as int)) ==> s@ == decode_utf8(
                line_of(self.content(), line_number as int),
            ))),
            line_number >= line_total(self.content()) ==> (r matches Err(
                RllessError::FileError { message, .. },
            ) && message@ == out_of_bounds_message(line_number, line_total(self.content()) as u64)),
    {
        proof {
            use_type_invariant(self);
            lemma_total(self.line_index, self.content@, self.total_lines);
        }
        if line_number >= self.total_lines {
            let mut message = owned("Line number ");
            message.append(u64_to_decimal(line_number).as_str());
            message.append(" out of bounds (total lines: ");
            message.append(u64_to_decimal(self.total_lines).as_str());
            message.append(")");
            proof {
                reveal_strlit("Line number ");
                reveal_strlit(" out of bounds (total lines: ");
                reveal_strlit(")");
            }
            assert(message@ =~= out_of_bounds_message(line_number, self.total_lines));
            return Err(
                RllessError::FileError {
                    message,
                    source: io_error_new(IoErrorKind::InvalidInput, "Line out of bounds"),
                },
            );
        }
        let range = self.line_index.get_line_range(line_number);
        let (start, end) = match range {
            Some(r) => r,
            None => (0, 0),
        };
        let ghost s = self.line_index.offsets();
        assert(start <= end <= self.content@.len()) by {
            if line_number + 1 < s.len() {
                assert(s[line_number as int] < s[line_number + 1]);
                assert(s[line_number + 1] <= s.last()) by {
                    if line_number + 1 < s.len() - 1 {
                        assert(s[line_number + 1] < s[s.len() - 1]);
                    }
                }
            }
        }
        let piece = slice_subrange(self.content.as_slice(), start as usize, end as usize);
        assert(piece@ == line_of(self.content@, line_number as int));
        Ok(string_from_utf8_lossy(piece))
    }

    /// The text of line `line_number`.
    pub fn read_line(&self, line_number: u64) -> (r: Result<String>)
        ensures
            line_number < line_total(self.content()) ==> (r matches Ok(s) && s@ == lossy_text(
                line_of(self.content(), line_number as int),
            ) && (valid_utf8(line_of(self.content(), line_number as int)) ==> s@ == decode_utf8(
                line_of(self.content(), line_number as int),
            ))),
            line_number >= line_total(self.content()) ==> (r matches Err(
                RllessError::FileError { message, .. },
            ) && message@ == out_of_bounds_message(line_number, line_total(self.content()) as u64)),
    {
        self.extract_line(line_number)
    }

    /// The texts of up to `count` lines from line `start`, stopping at the last line.
    pub fn read_lines_range(&self, start: u64, count: u64) -> (r: Result<Vec<String>>)
        requires
            start + count <= u64::MAX,
        ensures
            r matches Ok(v) && {
                let end = if start + count < line_total(self.content()) {
                    start + count
                } else {
                    line_total(self.content()) as int
                };
                &&& v@.len() == (if start < end {
                    end - start
                } else {
                    0
                })
                &&& forall|k: int|
                    0 <= k < v@.len() ==> (#[trigger] v@[k])@ == lossy_text(
                        line_of(self.content(), start + k),
                    )
            },
    {
        proof {
            use_type_invariant(self);
            lemma_total(self.line_index, self.content@, self.total_lines);
        }
        let end_line = if start + count < self.total_lines {
            start + count
        } else {
            self.total_lines
        };
        let mut lines: Vec<String> = Vec::new();
        let mut n = start;
        while n < end_line
            invariant
                start <= end_line ==> start <= n <= end_line,
                start > end_line ==> n == start,
                end_line <= line_total(self.content()),
                lines@.len() == n - start,
                forall|k: int|
                    0 <= k < lines@.len() ==> (#[trigger] lines@[k])@ == lossy_text(
                        line_of(self.content(), start + k),
                    ),
            decreases end_line - n,
        {
            let line = self.extract_line(n);
            match line {
                Ok(text) => {
                    lines.push(text);
                },
                Err(_) => {
                    return Ok(lines);
                },
            }
            n = n + 1;
        }
        Ok(lines)
    }

    /// The first line from `start_line` on whose text `pattern` occurs.
    pub fn find_next_match(&self, start_line: u64, pattern: &str) -> (r: Result<Option<MatchInfo>>)
        ensures
            r matches Ok(found) && match found {
                Some(m) => {
                    &&& start_line <= m.line_number < line_total(self.content())
                    &&& reports_line(self.content(), m.line_number as int, pattern, m)
                    &&& forall|n: int|
                        start_line <= n < m.line_number ==> !line_contains(
                            self.content(),
                            n,
                            pattern,
                        )
                },
                None => forall|n: int|
                    start_line <= n < line_total(self.content()) ==> !line_contains(
                        self.content(),
                        n,
                        pattern,
                    ),
            },
    {
        proof {
            use_type_invariant(self);
            lemma_total(self.line_index, self.content@, self.total_lines);
        }
        let mut current = start_line;
        while current < self.total_lines
            invariant
                self.total_lines == line_total(self.content()),
                self.line_index.offsets() == line_starts(self.content()),
                start_line <= current || current == start_line,
                forall|n: int| start_line <= n < current ==> !line_contains(self.content(), n, pattern),
            decreases self.total_lines - current,
        {
            let line = self.extract_line(current);
            let text = match line {
                Ok(text) => text,
                Err(_) => owned(""),
            };
            match str_find(text.as_str(), pattern) {
                Some(match_start) => {
                    proof {
                        use_type_invariant(self);
                    }
                    let offsets = self.line_index.get_line_offsets();
                    assert(current < offsets@.len());
                    let byte_offset = offsets[current as usize];
                    let hay_len = text.as_str().as_bytes().len();
                    let pat_len = pattern.as_bytes().len();
                    assert(hay_len == encode_text(text@).len());
                    assert(pat_len == encode_text(pattern@).len());
                    assert(match_start + pat_len <= hay_len);
                    let match_end = match_start + pat_len;
                    return Ok(
                        Some(
                            MatchInfo {
                                line_number: current,
                                byte_offset,
                                line_content: text,
                                match_start,
                                match_end,
                            },
                        ),
                    );
                },
                None => {
                    assert(!line_contains(self.content(), current as int, pattern));
                },
            }
            current = current + 1;
        }
        Ok(None)
    }

    /// The nearest line before `start_line` on whose text `pattern` occurs; an
    /// out-of-bounds error when the search starts more than one line past the last.
    pub fn find_prev_match(&self, start_line: u64, pattern: &str) -> (r: Result<Option<MatchInfo>>)
        ensures
            start_line > line_total(self.content()) ==> (r matches Err(
                RllessError::FileError { message, .. },
            ) && message@ == out_of_bounds_message(
                (start_line - 1) as u64,
                line_total(self.content()) as u64,
            )),
            start_line <= line_total(self.content()) ==> (r matches Ok(found) && match found {
                Some(m) => {
                    &&& m.line_number < start_line
                    &&& reports_line(self.content(), m.line_number as int, pattern, m)
                    &&& forall|n: int|
                        m.line_number < n < start_line ==> !line_contains(
                            self.content(),
                            n,
                            pattern,
                        )
                },
                None => forall|n: int|
                    0 <= n < start_line ==> !line_contains(self.content(), n, pattern),
            }),
    {
        proof {
            use_type_invariant(self);
            lemma_total(self.line_index, self.content@, self.total_lines);
        }
        if start_line == 0 {
            return Ok(None);
        }
        let mut current = start_line;
        while current > 0
            invariant
                self.total_lines == line_total(self.content()),
                self.line_index.offsets() == line_starts(self.content()),
                current <= start_line,
                start_line > 0,
                current < start_line ==> start_line <= line_total(self.content()),
                forall|n: int| current <= n < start_line ==> !line_contains(self.content(), n, pattern),
            decreases current,
        {
            let line_number = current - 1;
            let text = match self.extract_line(line_number) {
                Ok(text) => text,
                Err(e) => {
                    return Err(e);
                },
            };
            match str_find(text.as_str(), pattern) {
                Some(match_start) => {
                    proof {
                        use_type_invariant(self);
                    }
                    let offsets = self.line_index.get_line_offsets();
                    assert(line_number < offsets@.len());
                    let byte_offset = offsets[line_number as usize];
                    let hay_len = text.as_str().as_bytes().len();
                    let pat_len = pattern.as_bytes().len();
                    assert(hay_len == encode_text(text@).len());
                    assert(pat_len == encode_text(pattern@).len());
                    assert(match_start + pat_len <= hay_len);
                    let match_end = match_start + pat_len;
                    return Ok(
                        Some(
                            MatchInfo {
                                line_number,
                                byte_offset,
                                line_content: text,
                                match_start,
                                match_end,
                            },
                        ),
                    );
                },
                None => {
                    assert(!line_contains(self.content(), line_number as int, pattern));
                },
            }
            current = line_number;
        }
        Ok(None)
    }
}

/// An index of the whole of `c` counts `line_total(c)` lines, starting where
/// `line_starts(c)` says.
proof fn lemma_total(index: LineIndex, c: Seq<u8>, total: u64)
    requires
        index.wf(),
        index.indexes(c),
        index.indexed_to() == c.len(),
        total == index.line_count(),
    ensures
        total == line_total(c),
        index.offsets() == line_starts(c),
        total <= index.offsets().len(),
{
    index.lemma_count_bound();
}

} // verus!
