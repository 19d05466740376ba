//! The file accessor used by the viewer, over content held in memory or memory-mapped.

use crate::error::{io_error_invalid_utf8, Result, RllessError};
use crate::file_handler::accessor::{
    next_match_outcome, prev_match_outcome, read_outcome, FileAccessor,
};
use crate::file_handler::lines::{
    backward_first, backward_visits, forward_starts, forward_visits, last_newline_before, last_page_start_of,
    lemma_last_newline_before, lemma_last_newline_before_at, lemma_line_end, lemma_line_end_at,
    line_bytes, line_end, may_hit, may_miss, next_page_start_of, piece_start,
    prev_page_start_of, skip_lines, walk_back,
};
use crate::file_handler::scan::{memchr_first, memchr_last, NEWLINE};
use crate::paths::buf_path;
use crate::text::str_from_utf8;
use vstd::prelude::*;
use vstd::slice::slice_subrange;
use vstd::utf8::{decode_utf8, valid_utf8};

verus! {

#[verifier::external_type_specification]
#[verifier::external_body]
pub struct ExMmap(memmap2::Mmap);

/// The bytes a memory map shows.
pub uninterp spec fn mmap_contents(m: memmap2::Mmap) -> Seq<u8>;

/// The mapped bytes of `m`.
///
/// Dereferences `memmap2::Mmap` to the slice of the mapped memory. The contract names
/// the bytes; the map is created read-only over a file that is not modified while
/// mapped, so they stay the same.
#[verifier::external_body]
pub(crate) fn mmap_bytes(m: &memmap2::Mmap) -> (r: &[u8])
    ensures
        r@ == mmap_contents(*m),
{
    &m[..]
}

/// Where an accessor's bytes live.
#[derive(Debug)]
pub enum ByteSource {
    /// Content loaded into memory (files under the memory threshold).
    InMemory(Vec<u8>),
    /// Content of the file itself, memory-mapped.
    MemoryMapped(memmap2::Mmap),
    /// A compressed file's content, decompressed to a temporary file and memory-mapped;
    /// whoever builds it keeps the temporary file alive as long as the accessor.
    Compressed { mmap: memmap2::Mmap },
}

impl ByteSource {
    /// The bytes of the source.
    pub open spec fn contents(&self) -> Seq<u8> {
        match self {
            ByteSource::InMemory(v) => v@,
            ByteSource::MemoryMapped(m) => mmap_contents(*m),
            ByteSource::Compressed { mmap } => mmap_contents(*mmap),
        }
    }

    /// The bytes as a slice, whatever the storage.
    pub fn as_bytes(&self) -> (r: &[u8])
        ensures
            r@ == self.contents(),
    {
        match self {
            ByteSource::InMemory(v) => v.as_slice(),
            ByteSource::MemoryMapped(m) => mmap_bytes(m),
            ByteSource::Compressed { mmap } => mmap_bytes(mmap),
        }
    }

    /// The text of `bytes`, or an invalid-UTF-8 file error.
    pub fn bytes_to_string(&self, bytes: &[u8]) -> (r: Result<String>)
        ensures
            r is Ok <==> valid_utf8(bytes@),
            r matches Ok(s) ==> s@ == decode_utf8(bytes@),
            r matches Err(e) ==> e matches RllessError::FileError { message, .. } && message@
                == "Invalid UTF-8 in file"@,
    {
        match str_from_utf8(bytes) {
            Ok(s) => Ok(s.to_owned()),
            Err(e) => Err(RllessError::file_error("Invalid UTF-8 in file", io_error_invalid_utf8(e))),
        }
    }
}

/// A file accessor that reads its content from a `ByteSource` chosen when it was made.
#[derive(Debug)]
pub struct AdaptiveFileAccessor {
    source: ByteSource,
    file_size: u64,
    file_path: std::path::PathBuf,
}

impl AdaptiveFileAccessor {
    /// An accessor over `source`, reporting `file_size` and `file_path`.
    pub fn new(source: ByteSource, file_size: u64, file_path: std::path::PathBuf) -> (r: Self)
        ensures
            r.content() == source.contents(),
            r.reported_size() == file_size,
            r.source() == source,
            r.path() == buf_path(&file_path),
    {
        AdaptiveFileAccessor { source, file_size, file_path }
    }

    /// The source the accessor was made with.
    pub closed spec fn source(&self) -> ByteSource {
        self.source
    }

    /// The byte source.
    pub fn byte_source(&self) -> (r: &ByteSource)
        ensures
            *r == self.source(),
    {
        &self.source
    }
}

/// The line starting at `pos` ends at the newline `memchr` finds in the rest of the
/// content, or at the end.
fn find_line_end(bytes: &[u8], pos: usize) -> (r: usize)
    requires
        pos < bytes@.len(),
    ensures
        r == line_end(bytes@, pos as int),
        pos <= r <= bytes@.len(),
        r < bytes@.len() ==> bytes@[r as int] == NEWLINE,
{
    let rest = slice_subrange(bytes, pos, bytes.len());
    let e = match memchr_first(NEWLINE, rest) {
        Some(offset) => {
            proof {
                assert(bytes@[pos + offset] == rest@[offset as int]);
            }
            pos + offset
        },
        None => bytes.len(),
    };
    proof {
        assert forall|j: int| pos <= j < e implies bytes@[j] != NEWLINE by {
            assert(rest@[j - pos] == bytes@[j]);
        }
        lemma_line_end_at(bytes@, pos as int, e as int);
    }
    e
}

/// The last newline before `search_pos`, as `memrchr` finds it.
fn find_last_newline(bytes: &[u8], search_pos: usize) -> (r: Option<usize>)
    requires
        search_pos <= bytes@.len(),
    ensures
        match r {
            Some(nl) => nl == last_newline_before(bytes@, search_pos as int) && nl < search_pos,
            None => last_newline_before(bytes@, search_pos as int) == -1,
        },
{
    let head = slice_subrange(bytes, 0, search_pos);
    let r = memchr_last(NEWLINE, head);
    proof {
        match r {
            Some(nl) => {
                assert forall|j: int| nl < j < search_pos implies bytes@[j] != NEWLINE by {
                    assert(head@[j] == bytes@[j]);
                }
                assert(head@[nl as int] == bytes@[nl as int]);
                lemma_last_newline_before_at(bytes@, search_pos as int, nl as int);
            },
            None => {
                assert forall|j: int| -1 < j < search_pos implies bytes@[j] != NEWLINE by {
                    assert(head@[j] == bytes@[j]);
                }
                lemma_last_newline_before_at(bytes@, search_pos as int, -1);
            },
        }
    }
    r
}

impl FileAccessor for AdaptiveFileAccessor {
    open spec fn content(&self) -> Seq<u8> {
        self.source().contents()
    }

    closed spec fn reported_size(&self) -> u64 {
        self.file_size
    }

    closed spec fn path(&self) -> &std::path::Path {
        buf_path(&self.file_path)
    }

    fn read_from_byte(&self, start_byte: u64, max_lines: usize) -> (r: Result<Vec<String>>) {
        let bytes = self.source.as_bytes();
        let ghost b = bytes@;
        let ghost qs = forward_starts(b, start_byte as int, max_lines as nat);
        if start_byte >= bytes.len() as u64 {
            return Ok(Vec::new());
        }
        let mut lines: Vec<String> = Vec::new();
        let mut pos: usize = start_byte as usize;
        let mut lines_read: usize = 0;
        let ghost mut visited: Seq<int> = seq![];
        while lines_read < max_lines && pos < bytes.len()
            invariant
                b == bytes@,
                b == self.content(),
                qs == forward_starts(b, start_byte as int, max_lines as nat),
                lines_read <= max_lines,
                pos <= bytes@.len(),
                visited.len() == lines_read,
                lines@.len() == lines_read,
                qs == visited + forward_starts(b, pos as int, (max_lines - lines_read) as nat),
                forall|k: int|
                    0 <= k < lines_read ==> valid_utf8(line_bytes(b, #[trigger] visited[k]))
                        && lines@[k]@ == decode_utf8(line_bytes(b, visited[k])),
            decreases max_lines - lines_read,
        {
            let line_end = find_line_end(bytes, pos);
            let piece = slice_subrange(bytes, pos, line_end);
            assert(piece@ == line_bytes(b, pos as int));
            let ghost rest = forward_starts(b, pos as int, (max_lines - lines_read) as nat);
            assert(rest[0] == pos);
            match self.source.bytes_to_string(piece) {
                Ok(text) => {
                    lines.push(text);
                },
                Err(e) => {
                    assert(qs[lines_read as int] == pos);
                    return Err(e);
                },
            }
            let ghost old_visited = visited;
            proof {
                visited = visited.push(pos as int);
            }
            lines_read = lines_read + 1;
            pos = if line_end < bytes.len() {
                line_end + 1
            } else {
                bytes.len()
            };
            assert(qs == visited + forward_starts(b, pos as int, (max_lines - lines_read) as nat))
                by {
                assert(rest == seq![visited.last()] + forward_starts(
                    b,
                    pos as int,
                    (max_lines - lines_read) as nat,
                ));
                assert(old_visited + rest =~= visited + forward_starts(
                    b,
                    pos as int,
                    (max_lines - lines_read) as nat,
                ));
            }
            assert forall|k: int| 0 <= k < lines_read implies valid_utf8(
                line_bytes(b, #[trigger] visited[k]),
            ) && lines@[k]@ == decode_utf8(line_bytes(b, visited[k])) by {
                if k < lines_read - 1 {
                    assert(visited[k] == old_visited[k]);
                }
            }
        }
        assert(forward_starts(b, pos as int, (max_lines - lines_read) as nat) =~= seq![]);
        assert(qs =~= visited);
        Ok(lines)
    }

    fn find_next_match<F: Fn(&str) -> Vec<(usize, usize)>>(
        &self,
        start_byte: u64,
        search_fn: &F,
    ) -> (r: Result<Option<u64>>) {
        let bytes = self.source.as_bytes();
        let ghost b = bytes@;
        if start_byte >= bytes.len() as u64 {
            return Ok(None);
        }
        let mut pos: usize = start_byte as usize;
        while pos < bytes.len()
            invariant
                b == bytes@,
                b == self.content(),
                forall|s: &str| call_requires(*search_fn, (s,)),
                start_byte <= pos <= b.len(),
                pos < b.len() ==> forward_visits(b, start_byte as int, pos as int),
                forall|q: int|
                    start_byte <= q < pos && #[trigger] forward_visits(b, start_byte as int, q)
                        ==> may_miss(*search_fn, line_bytes(b, q)),
            decreases b.len() - pos,
        {
            let line_end = find_line_end(bytes, pos);
            let piece = slice_subrange(bytes, pos, line_end);
            assert(piece@ == line_bytes(b, pos as int));
            match str_from_utf8(piece) {
                Ok(text) => {
                    let matches = search_fn(text);
                    if matches.len() > 0 {
                        assert(may_hit(*search_fn, line_bytes(b, pos as int)));
                        return Ok(Some(pos as u64));
                    }
                    assert(may_miss(*search_fn, line_bytes(b, pos as int)));
                },
                Err(_) => {},
            }
            let next = if line_end < bytes.len() {
                line_end + 1
            } else {
                bytes.len()
            };
            assert forall|q: int|
                start_byte <= q < next && #[trigger] forward_visits(
                    b,
                    start_byte as int,
                    q,
                ) implies may_miss(*search_fn, line_bytes(b, q)) by {
                if pos < q {
                    lemma_line_end(b, pos as int);
                    assert(b[q - 1] != NEWLINE);
                }
            }
            pos = next;
        }
        Ok(None)
    }

    fn find_prev_match<F: Fn(&str) -> Vec<(usize, usize)>>(
        &self,
        start_byte: u64,
        search_fn: &F,
    ) -> (r: Result<Option<u64>>) {
        let bytes = self.source.as_bytes();
        let ghost b = bytes@;
        if start_byte == 0 {
            return Ok(None);
        }
        let n: usize = bytes.len();
        let mut search_pos: usize = if start_byte < n as u64 {
            (start_byte - 1) as usize
        } else if n == 0 {
            0
        } else if bytes[n - 1] != NEWLINE {
            n
        } else {
            n - 1
        };
        loop
            invariant
                b == bytes@,
                b == self.content(),
                start_byte > 0,
                forall|s: &str| call_requires(*search_fn, (s,)),
                search_pos <= b.len(),
                backward_visits(b, start_byte as int, search_pos as int),
                forall|e: int|
                    #[trigger] backward_visits(b, start_byte as int, e) ==> e <= backward_first(
                        b,
                        start_byte as int,
                    ),
                forall|e2: int|
                    search_pos < e2 && #[trigger] backward_visits(b, start_byte as int, e2)
                        ==> may_miss(*search_fn, b.subrange(piece_start(b, e2), e2)),
            decreases search_pos,
        {
            let line_start: usize = if search_pos == 0 {
                0
            } else {
                match find_last_newline(bytes, search_pos) {
                    Some(nl) => nl + 1,
                    None => 0,
                }
            };
            assert(line_start == piece_start(b, search_pos as int));
            proof {
                lemma_last_newline_before(b, search_pos as int);
            }
            let piece = slice_subrange(bytes, line_start, search_pos);
            assert(piece@ == b.subrange(line_start as int, search_pos as int));
            match str_from_utf8(piece) {
                Ok(text) => {
                    let matches = search_fn(text);
                    if matches.len() > 0 {
                        assert(may_hit(*search_fn, piece@));
                        return Ok(Some(line_start as u64));
                    }
                    assert(may_miss(*search_fn, piece@));
                },
                Err(_) => {},
            }
            if line_start == 0 {
                assert forall|e: int| #[trigger]
                    backward_visits(b, start_byte as int, e) implies may_miss(
                    *search_fn,
                    b.subrange(piece_start(b, e), e),
                ) by {
                    if e < search_pos {
                        assert(b[e] != NEWLINE);
                    }
                }
                return Ok(None);
            }
            let next = line_start - 1;
            assert forall|e2: int|
                next < e2 && #[trigger] backward_visits(
                    b,
                    start_byte as int,
                    e2,
                ) implies may_miss(*search_fn, b.subrange(piece_start(b, e2), e2)) by {
                if e2 < search_pos {
                    assert(b[e2] != NEWLINE);
                }
            }
            search_pos = next;
        }
    }

    fn file_size(&self) -> (r: u64) {
        self.file_size
    }

    fn file_path(&self) -> &std::path::Path {
        crate::paths::path_buf_as_path(&self.file_path)
    }

    fn last_page_start(&self, max_lines: usize) -> (r: Result<u64>) {
        let bytes = self.source.as_bytes();
        let ghost b = bytes@;
        if bytes.len() == 0 || max_lines == 0 {
            return Ok(0);
        }
        let mut search_pos: usize = bytes.len();
        if bytes[bytes.len() - 1] == NEWLINE {
            search_pos = bytes.len() - 1;
        }
        let ghost start_pos = search_pos as int;
        let mut taken: usize = 0;
        while taken < max_lines
            invariant
                b == bytes@,
                b == self.content(),
                b.len() > 0,
                max_lines > 0,
                start_pos == (if b.last() == NEWLINE {
                    b.len() - 1
                } else {
                    b.len() as int
                }),
                taken <= max_lines,
                search_pos <= b.len(),
                taken > 0 ==> search_pos < b.len(),
                walk_back(b, start_pos, max_lines as nat) == walk_back(
                    b,
                    search_pos as int,
                    (max_lines - taken) as nat,
                ),
            decreases max_lines - taken,
        {
            match find_last_newline(bytes, search_pos) {
                Some(nl) => {
                    search_pos = nl;
                },
                None => {
                    return Ok(0);
                },
            }
            taken = taken + 1;
        }
        Ok((search_pos + 1) as u64)
    }

    fn next_page_start(&self, current_byte: u64, lines_to_skip: usize) -> (r: Result<u64>) {
        let bytes = self.source.as_bytes();
        let ghost b = bytes@;
        if current_byte >= bytes.len() as u64 {
            if lines_to_skip == 0 {
                return Ok(current_byte);
            }
            return Ok(self.file_size);
        }
        let mut pos: usize = current_byte as usize;
        let mut skipped: usize = 0;
        let mut exhausted = false;
        while !exhausted && pos < bytes.len() && skipped < lines_to_skip
            invariant
                b == bytes@,
                b == self.content(),
                pos <= b.len(),
                skipped <= lines_to_skip,
                skip_lines(b, current_byte as int, lines_to_skip as nat) == skip_lines(
                    b,
                    pos as int,
                    (lines_to_skip - skipped) as nat,
                ),
                exhausted ==> skipped < lines_to_skip && skip_lines(
                    b,
                    pos as int,
                    (lines_to_skip - skipped) as nat,
                ) is None,
            decreases lines_to_skip - skipped, (if exhausted { 0int } else { 1int }),
        {
            let line_end = find_line_end(bytes, pos);
            if line_end < bytes.len() {
                pos = line_end + 1;
                skipped = skipped + 1;
            } else {
                exhausted = true;
            }
        }
        if skipped < lines_to_skip {
            Ok(self.file_size)
        } else {
            Ok(pos as u64)
        }
    }

    fn prev_page_start(&self, current_byte: u64, lines_to_skip: usize) -> (r: Result<u64>) {
        let bytes = self.source.as_bytes();
        let ghost b = bytes@;
        if current_byte == 0 || lines_to_skip == 0 {
            return Ok(0);
        }
        let len = bytes.len();
        assert(current_byte - 1 <= len);
        let mut search_pos: usize = (current_byte - 1) as usize;
        let mut taken: usize = 0;
        while taken < lines_to_skip
            invariant
                b == bytes@,
                b == self.content(),
                current_byte > 0,
                lines_to_skip > 0,
                taken <= lines_to_skip,
                search_pos <= b.len(),
                taken > 0 ==> search_pos < b.len(),
                walk_back(b, current_byte - 1, lines_to_skip as nat) == walk_back(
                    b,
                    search_pos as int,
                    (lines_to_skip - taken) as nat,
                ),
            decreases lines_to_skip - taken,
        {
            match find_last_newline(bytes, search_pos) {
                Some(nl) => {
                    search_pos = nl;
                },
                None => {
                    return Ok(0);
                },
            }
            taken = taken + 1;
        }
        Ok((search_pos + 1) as u64)
    }
}

} // verus!
