use rlless::ui::highlight::{highlight_segments, LineSegment};

fn seg(start: usize, end: usize, highlighted: bool) -> LineSegment {
    LineSegment { start, end, highlighted }
}

#[test]
fn highlights_alternate_with_plain_text() {
    assert_eq!(
        highlight_segments(16, &[(0, 5), (11, 16)]),
        vec![seg(0, 5, true), seg(5, 11, false), seg(11, 16, true)]
    );
}

#[test]
fn unhighlighted_line_is_one_plain_piece() {
    assert_eq!(highlight_segments(7, &[]), vec![seg(0, 7, false)]);
    assert!(highlight_segments(0, &[]).is_empty());
}

#[test]
fn ranges_past_the_end_are_not_highlighted() {
    assert_eq!(highlight_segments(16, &[(10, 30)]), vec![seg(0, 10, false)]);
    assert_eq!(
        highlight_segments(8, &[(2, 4), (4, 4)]),
        vec![seg(0, 2, false), seg(2, 4, true), seg(4, 8, false)]
    );
}
