use rlless::file_handler::mmap::MmapFileAccessor;
use rlless::RllessError;

fn map(content: &str) -> memmap2::Mmap {
    let mut map = memmap2::MmapMut::map_anon(content.len()).unwrap();
    map.copy_from_slice(content.as_bytes());
    map.make_read_only().unwrap()
}

fn accessor(content: &str) -> MmapFileAccessor {
    MmapFileAccessor::new(map(content), content.len() as u64)
}

fn error_search(line: &str) -> Vec<(usize, usize)> {
    let mut matches = Vec::new();
    let mut start = 0;
    while let Some(pos) = line[start..].find("error") {
        let match_start = start + pos;
        let match_end = match_start + "error".len();
        matches.push((match_start, match_end));
        start = match_end;
    }
    matches
}

const TEST_CONTENT: &str = "line1\nline2\nline3\nline4\n";
const COMPLEX_CONTENT: &str =
    "short\na longer line with content\n\nempty line above\nfinal line without newline";

#[test]
fn test_new_mmap_accessor() {
    let accessor = accessor(TEST_CONTENT);
    assert_eq!(accessor.file_size(), TEST_CONTENT.len() as u64);
    assert_eq!(accessor.total_lines(), None);
    assert!(!accessor.supports_parallel());
}

#[test]
fn mmap_test_read_line() {
    let mut accessor = accessor(TEST_CONTENT);
    assert_eq!(accessor.read_line(0).unwrap(), "line1");
    assert_eq!(accessor.read_line(2).unwrap(), "line3");
    assert_eq!(accessor.read_line(3).unwrap(), "line4");
}

#[test]
fn mmap_test_read_line_out_of_bounds() {
    let mut accessor = accessor(TEST_CONTENT);
    assert!(accessor.read_line(999).is_err());
    assert!(accessor.read_line(4).is_err());
    match accessor.read_line(7) {
        Err(RllessError::FileError { message, .. }) => {
            assert_eq!(message, "Line number 7 out of bounds")
        }
        _ => panic!("expected a file error"),
    }
}

#[test]
fn mmap_test_read_lines_range() {
    let mut accessor = accessor(TEST_CONTENT);
    assert_eq!(accessor.read_lines_range(1, 2).unwrap(), vec!["line2", "line3"]);
    assert_eq!(accessor.read_lines_range(3, 5).unwrap(), vec!["line4"]);
    assert!(accessor.read_lines_range(10, 5).unwrap().is_empty());
    assert!(accessor.read_lines_range(0, 0).unwrap().is_empty());
}

#[test]
fn mmap_test_find_next_match() {
    let mut accessor = accessor("error on line1\nno match here\nerror on line3\nfinal line\n");

    let info = accessor.find_next_match(0, &error_search).unwrap().unwrap();
    assert_eq!(info.line_number, 0);
    assert_eq!(info.line_content, "error on line1");
    assert_eq!(info.match_ranges, vec![(0, 5)]);

    let info = accessor.find_next_match(1, &error_search).unwrap().unwrap();
    assert_eq!(info.line_number, 2);
    assert_eq!(info.byte_offset, 29);

    let no_match_search = |_line: &str| Vec::new();
    assert!(accessor.find_next_match(0, &no_match_search).unwrap().is_none());
}

#[test]
fn mmap_test_find_prev_match() {
    let mut accessor = accessor("error on line1\nno match here\nerror on line3\nfinal line\n");

    assert_eq!(accessor.find_prev_match(4, &error_search).unwrap().unwrap().line_number, 2);
    assert_eq!(accessor.find_prev_match(2, &error_search).unwrap().unwrap().line_number, 0);
    assert!(accessor.find_prev_match(0, &error_search).unwrap().is_none());
    // Lines past the end are passed over.
    assert_eq!(accessor.find_prev_match(50, &error_search).unwrap().unwrap().line_number, 2);
}

#[test]
fn mmap_test_empty_file() {
    let mut accessor = accessor("");
    assert_eq!(accessor.file_size(), 0);
    assert_eq!(accessor.total_lines(), None);
    assert!(accessor.read_line(0).is_err());
    assert!(accessor.read_lines_range(0, 1).unwrap().is_empty());
}

#[test]
fn mmap_test_single_line_no_newline() {
    let mut accessor = accessor("single line without newline");
    assert_eq!(accessor.total_lines(), None);
    assert_eq!(accessor.read_line(0).unwrap(), "single line without newline");
    assert!(accessor.read_line(1).is_err());
}

#[test]
fn mmap_test_complex_content() {
    let mut accessor = accessor(COMPLEX_CONTENT);
    assert_eq!(accessor.read_line(0).unwrap(), "short");
    assert_eq!(accessor.read_line(1).unwrap(), "a longer line with content");
    assert_eq!(accessor.read_line(2).unwrap(), "");
    assert_eq!(accessor.read_line(3).unwrap(), "empty line above");
    assert_eq!(accessor.read_line(4).unwrap(), "final line without newline");
}

#[test]
fn test_repeated_access() {
    let mut accessor = accessor(TEST_CONTENT);
    for _ in 0..10 {
        assert_eq!(accessor.read_line(1).unwrap(), "line2");
    }
}

#[test]
fn lines_read_out_of_order_agree() {
    let mut accessor = accessor(COMPLEX_CONTENT);
    assert_eq!(accessor.read_line(3).unwrap(), "empty line above");
    assert_eq!(accessor.read_line(0).unwrap(), "short");
    assert_eq!(accessor.read_line(4).unwrap(), "final line without newline");
    assert_eq!(accessor.read_line(2).unwrap(), "");
}
