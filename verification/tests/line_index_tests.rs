use rlless::file_handler::line_index::LineIndex;

fn create_test_data() -> Vec<u8> {
    b"line1\nline2\nline3\nline4\n".to_vec()
}

fn create_complex_test_data() -> Vec<u8> {
    b"short\na longer line with content\n\nempty line above\nfinal".to_vec()
}

#[test]
fn test_new_line_index() {
    let index = LineIndex::new();
    assert_eq!(index.get_line_offsets(), &[0]);
    assert_eq!(index.indexed_byte_count(), 0);
    assert_eq!(index.indexed_line_count(), 0);
}

#[test]
fn test_ensure_indexed_to_basic() {
    let mut index = LineIndex::new();
    let data = create_test_data();

    index.ensure_indexed_to(&data, 1);

    assert!(index.indexed_line_count() >= 2);

    let offsets = index.get_line_offsets();
    assert_eq!(offsets[0], 0);
    assert_eq!(offsets[1], 6);
}

#[test]
fn test_ensure_indexed_to_incremental() {
    let mut index = LineIndex::new();
    let data = create_test_data();

    index.ensure_indexed_to(&data, 0);
    let first_count = index.indexed_line_count();
    let first_byte_count = index.indexed_byte_count();

    index.ensure_indexed_to(&data, 0);
    assert_eq!(index.indexed_line_count(), first_count);
    assert_eq!(index.indexed_byte_count(), first_byte_count);

    index.ensure_indexed_to(&data, 3);
    assert!(index.indexed_line_count() >= 3);
}

#[test]
fn test_get_line_range() {
    let mut index = LineIndex::new();
    let data = create_test_data();

    index.ensure_indexed_to(&data, 2);

    let range = index.get_line_range(0);
    assert_eq!(range, Some((0, 5)));

    let range = index.get_line_range(1);
    assert_eq!(range, Some((6, 11)));

    let range = index.get_line_range(99);
    assert_eq!(range, None);
}

#[test]
fn test_complex_line_structure() {
    let mut index = LineIndex::new();
    let data = create_complex_test_data();

    index.ensure_indexed_to(&data, 10);

    let offsets = index.get_line_offsets();
    assert!(offsets.len() >= 2);
    assert_eq!(offsets[0], 0);

    index.ensure_indexed_to(&data, 100);
    assert_eq!(index.indexed_byte_count(), data.len() as u64);
}

#[test]
fn line_index_test_empty_file() {
    let mut index = LineIndex::new();
    let data: Vec<u8> = Vec::new();

    index.ensure_indexed_to(&data, 0);
    assert_eq!(index.indexed_line_count(), 0);
    assert_eq!(index.indexed_byte_count(), 0);
    assert_eq!(index.get_line_offsets(), &[0]);
}

#[test]
fn line_index_test_single_line_no_newline() {
    let mut index = LineIndex::new();
    let data = b"single line without newline".to_vec();

    index.ensure_indexed_to(&data, 0);
    assert_eq!(index.indexed_line_count(), 1);
    assert_eq!(index.indexed_byte_count(), data.len() as u64);

    index.ensure_indexed_to(&data, 1);
    assert_eq!(index.indexed_line_count(), 1);
    assert_eq!(index.indexed_byte_count(), data.len() as u64);
}

#[test]
fn test_lines_ending_with_newline() {
    let mut index = LineIndex::new();
    let data = b"line1\nline2\n".to_vec();

    index.ensure_indexed_to(&data, 5);
    let offsets = index.get_line_offsets();

    assert_eq!(offsets.len(), 3);
    assert_eq!(offsets[0], 0);
    assert_eq!(offsets[1], 6);
    assert_eq!(offsets[2], 12);
    assert_eq!(index.indexed_line_count(), 2);
}

#[test]
fn test_get_line_offsets_immutable() {
    let index = LineIndex::new();
    let offsets = index.get_line_offsets();
    assert_eq!(offsets, &[0]);
}

#[test]
fn test_debug_implementation() {
    let index = LineIndex::new();
    let debug_str = format!("{:?}", index);
    assert!(debug_str.contains("LineIndex"));
    assert!(debug_str.contains("line_offsets"));
}

#[test]
fn test_default_implementation() {
    let index = LineIndex::default();
    assert_eq!(index.get_line_offsets(), &[0]);
    assert_eq!(index.indexed_byte_count(), 0);
}

#[test]
fn scanning_stops_just_past_the_requested_line() {
    let mut index = LineIndex::new();
    let data = create_test_data();
    index.ensure_indexed_to(&data, 1);
    // Lines 0 and 1 are known once the newline ending line 1 has been seen.
    assert_eq!(index.indexed_byte_count(), 12);
    assert_eq!(index.get_line_offsets(), &[0, 6, 12]);
    assert_eq!(index.get_line_range(1), Some((6, 11)));
}
