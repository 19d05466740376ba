use rlless::file_handler::in_memory::InMemoryFileAccessor;
use rlless::RllessError;

fn create_test_content() -> Vec<u8> {
    b"line1\nline2\nline3\nline4\n".to_vec()
}

fn create_complex_content() -> Vec<u8> {
    b"short\na longer line with content\n\nempty line above\nfinal line without newline".to_vec()
}

#[test]
fn test_new_in_memory_accessor() {
    let content = create_test_content();
    let file_size = content.len();
    let accessor = InMemoryFileAccessor::new(content);

    assert_eq!(accessor.file_size(), file_size as u64);
    assert_eq!(accessor.total_lines(), Some(4));
    assert_eq!(accessor.line_index().indexed_line_count(), 4);
}

#[test]
fn in_memory_test_read_line() {
    let accessor = InMemoryFileAccessor::new(create_test_content());

    assert_eq!(accessor.read_line(0).unwrap(), "line1");
    assert_eq!(accessor.read_line(2).unwrap(), "line3");
    assert_eq!(accessor.read_line(3).unwrap(), "line4");
}

#[test]
fn in_memory_test_read_line_out_of_bounds() {
    let accessor = InMemoryFileAccessor::new(create_test_content());

    assert!(accessor.read_line(999).is_err());
    assert!(accessor.read_line(4).is_err());
}

#[test]
fn out_of_bounds_message_names_line_and_total() {
    let accessor = InMemoryFileAccessor::new(create_test_content());
    match accessor.read_line(17) {
        Err(RllessError::FileError { message, .. }) => {
            assert_eq!(message, "Line number 17 out of bounds (total lines: 4)")
        }
        _ => panic!("expected a file error"),
    }
}

#[test]
fn in_memory_test_read_lines_range() {
    let accessor = InMemoryFileAccessor::new(create_test_content());

    let lines = accessor.read_lines_range(1, 2).unwrap();
    assert_eq!(lines, vec!["line2", "line3"]);

    let lines = accessor.read_lines_range(3, 5).unwrap();
    assert_eq!(lines, vec!["line4"]);

    let lines = accessor.read_lines_range(10, 5).unwrap();
    assert!(lines.is_empty());
}

#[test]
fn in_memory_test_find_next_match() {
    let content = b"error on line1\nno match here\nerror on line3\nfinal line\n".to_vec();
    let accessor = InMemoryFileAccessor::new(content);

    let match_info = accessor.find_next_match(0, "error").unwrap();
    assert!(match_info.is_some());

    let info = match_info.unwrap();
    assert_eq!(info.line_number, 0);
    assert_eq!(info.line_content, "error on line1");
    assert_eq!(info.match_start, 0);
    assert_eq!(info.match_end, 5);

    let match_info = accessor.find_next_match(1, "error").unwrap();
    assert!(match_info.is_some());
    assert_eq!(match_info.unwrap().line_number, 2);

    let match_info = accessor.find_next_match(0, "nonexistent").unwrap();
    assert!(match_info.is_none());
}

#[test]
fn in_memory_test_find_prev_match() {
    let content = b"error on line1\nno match here\nerror on line3\nfinal line\n".to_vec();
    let accessor = InMemoryFileAccessor::new(content);

    let match_info = accessor.find_prev_match(4, "error").unwrap();
    assert!(match_info.is_some());
    assert_eq!(match_info.unwrap().line_number, 2);

    let match_info = accessor.find_prev_match(2, "error").unwrap();
    assert!(match_info.is_some());
    assert_eq!(match_info.unwrap().line_number, 0);

    let match_info = accessor.find_prev_match(0, "error").unwrap();
    assert!(match_info.is_none());
}

#[test]
fn match_reports_offset_and_range() {
    let content = b"alpha\nbeta gamma\n".to_vec();
    let accessor = InMemoryFileAccessor::new(content);
    let info = accessor.find_next_match(0, "gamma").unwrap().unwrap();
    assert_eq!(info.line_number, 1);
    assert_eq!(info.byte_offset, 6);
    assert_eq!(info.match_start, 5);
    assert_eq!(info.match_end, 10);
    // Searching backward from far past the end reports the first missing line.
    assert!(accessor.find_prev_match(10, "gamma").is_err());
    assert_eq!(
        accessor.find_prev_match(2, "alpha").unwrap().unwrap().line_number,
        0
    );
}

#[test]
fn test_total_lines_always_available() {
    let accessor = InMemoryFileAccessor::new(create_test_content());
    assert_eq!(accessor.total_lines(), Some(4));

    let empty_accessor = InMemoryFileAccessor::new(Vec::new());
    assert_eq!(empty_accessor.total_lines(), Some(0));
}

#[test]
fn test_empty_content() {
    let accessor = InMemoryFileAccessor::new(Vec::new());

    assert_eq!(accessor.file_size(), 0);
    assert_eq!(accessor.total_lines(), Some(0));

    assert!(accessor.read_line(0).is_err());

    let lines = accessor.read_lines_range(0, 1).unwrap();
    assert!(lines.is_empty());
}

#[test]
fn in_memory_test_single_line_no_newline() {
    let accessor = InMemoryFileAccessor::new(b"single line without newline".to_vec());

    assert_eq!(accessor.total_lines(), Some(1));
    assert_eq!(accessor.read_line(0).unwrap(), "single line without newline");
    assert!(accessor.read_line(1).is_err());
}

#[test]
fn in_memory_test_complex_content() {
    let accessor = InMemoryFileAccessor::new(create_complex_content());

    assert_eq!(accessor.total_lines(), Some(5));
    assert_eq!(accessor.read_line(0).unwrap(), "short");
    assert_eq!(accessor.read_line(1).unwrap(), "a longer line with content");
    assert_eq!(accessor.read_line(2).unwrap(), "");
    assert_eq!(accessor.read_line(3).unwrap(), "empty line above");
    assert_eq!(accessor.read_line(4).unwrap(), "final line without newline");
}

#[test]
fn test_all_lines_accessible() {
    let accessor = InMemoryFileAccessor::new(create_test_content());
    for line_num in 0..accessor.total_lines().unwrap() {
        assert!(accessor.read_line(line_num).is_ok(), "Failed to read line {}", line_num);
    }
}

#[test]
fn test_repeated_access_performance() {
    let accessor = InMemoryFileAccessor::new(create_test_content());
    for _ in 0..100 {
        assert_eq!(accessor.read_line(1).unwrap(), "line2");
    }
}

#[test]
fn invalid_utf8_is_replaced() {
    let accessor = InMemoryFileAccessor::new(vec![b'a', 0xff, b'b', b'\n']);
    assert_eq!(accessor.read_line(0).unwrap(), "a\u{fffd}b");
}
