//! How a viewport line is cut into plain and highlighted pieces for drawing.

use vstd::prelude::*;

verus! {

/// A byte range of a line and whether it is drawn highlighted.
#[derive(Debug, Clone, Copy, PartialEq, Eq, Structural)]
pub struct LineSegment {
    pub start: usize,
    pub end: usize,
    pub highlighted: bool,
}

/// The pieces of a line of `len` bytes drawn for the match ranges `ranges`, the text
/// before them having been drawn up to `drawn`: for each range, the plain text from
/// where drawing stopped up to its start, then the range itself when it is non-empty and
/// ends within the line; drawing continues after the range. What remains of the line
/// after the last range is drawn plain.
pub open spec fn segments_from(len: nat, ranges: Seq<(usize, usize)>, drawn: int) -> Seq<LineSegment>
    decreases ranges.len(),
{
    if ranges.len() == 0 {
        if drawn < len {
            seq![LineSegment { start: drawn as usize, end: len as usize, highlighted: false }]
        } else {
            seq![]
        }
    } else {
        let (s, e) = ranges[0];
        let plain = if s > drawn {
            seq![LineSegment { start: drawn as usize, end: s, highlighted: false }]
        } else {
            seq![]
        };
        let marked = if e > s && e <= len {
            seq![LineSegment { start: s, end: e, highlighted: true }]
        } else {
            seq![]
        };
        plain + marked + segments_from(len, ranges.drop_first(), e as int)
    }
}

/// The pieces a line of `content_len` bytes is drawn in, given its match ranges in
/// order; a line without ranges is one plain piece.
pub fn highlight_segments(content_len: usize, highlights: &[(usize, usize)]) -> (r: Vec<LineSegment>)
    ensures
        r@ == segments_from(content_len as nat, highlights@, 0),
{
    let mut out: Vec<LineSegment> = Vec::new();
    let mut last_end: usize = 0;
    let mut i: usize = 0;
    assert(highlights@.skip(0) =~= highlights@);
    assert(out@ + segments_from(content_len as nat, highlights@, 0) =~= segments_from(
        content_len as nat,
        highlights@,
        0,
    ));
    while i < highlights.len()
        invariant
            i <= highlights@.len(),
            out@ + segments_from(content_len as nat, highlights@.skip(i as int), last_end as int)
                == segments_from(content_len as nat, highlights@, 0),
        decreases highlights@.len() - i,
    {
        let (start, end) = highlights[i];
        let ghost rest = highlights@.skip(i as int);
        assert(rest[0] == (start, end));
        assert(rest.drop_first() =~= highlights@.skip(i + 1));
        let ghost before = out@;
        if start > last_end {
            out.push(LineSegment { start: last_end, end: start, highlighted: false });
        }
        if end > start && end <= content_len {
            out.push(LineSegment { start, end, highlighted: true });
        }
        proof {
            let plain = if start > last_end {
                seq![LineSegment { start: last_end, end: start, highlighted: false }]
            } else {
                seq![]
            };
            let marked = if end > start && end <= content_len {
                seq![LineSegment { start, end, highlighted: true }]
            } else {
                seq![]
            };
            assert(out@ =~= before + plain + marked);
            assert(before + (plain + marked + segments_from(
                content_len as nat,
                highlights@.skip(i + 1),
                end as int,
            )) =~= out@ + segments_from(content_len as nat, highlights@.skip(i + 1), end as int));
        }
        last_end = end;
        i = i + 1;
    }
    let ghost before = out@;
    if last_end < content_len {
        out.push(LineSegment { start: last_end, end: content_len, highlighted: false });
    }
    assert(highlights@.skip(i as int) =~= Seq::<(usize, usize)>::empty());
    assert(out@ =~= before + segments_from(content_len as nat, highlights@.skip(i as int), last_end as int));
    out
}

} // verus!
