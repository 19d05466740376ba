use rlless::file_handler::adaptive::{AdaptiveFileAccessor, ByteSource};
use rlless::file_handler::FileAccessor;
use rlless::RllessError;
use std::path::PathBuf;

fn accessor_over(content: &[u8]) -> AdaptiveFileAccessor {
    AdaptiveFileAccessor::new(
        ByteSource::InMemory(content.to_vec()),
        content.len() as u64,
        PathBuf::from("/test/file.log"),
    )
}

fn error_search(line: &str) -> Vec<(usize, usize)> {
    let mut matches = Vec::new();
    let mut start = 0;
    while let Some(pos) = line[start..].find("error") {
        let match_start = start + pos;
        let match_end = match_start + "error".len();
        matches.push((match_start, match_end));
        start = match_end;
    }
    matches
}

#[test]
fn test_byte_source_variants() {
    let vec_data = vec![65, 10, 66, 10];
    let in_memory = ByteSource::InMemory(vec_data);

    assert_eq!(in_memory.as_bytes(), &[65, 10, 66, 10]);

    let string_result = in_memory.bytes_to_string(&[65]).unwrap();
    assert_eq!(string_result, "A");
}

#[test]
fn invalid_utf8_is_an_error() {
    let source = ByteSource::InMemory(Vec::new());
    match source.bytes_to_string(&[0xff, 0xfe]) {
        Err(RllessError::FileError { message, .. }) => assert_eq!(message, "Invalid UTF-8 in file"),
        _ => panic!("expected a file error"),
    }
    let accessor = accessor_over(b"ok\n\xff\n");
    assert!(accessor.read_from_byte(0, 1).is_ok());
    assert!(accessor.read_from_byte(0, 2).is_err());
}

#[test]
fn memory_mapped_source_shows_the_mapped_bytes() {
    let content = b"mapped\ncontent\n";
    let mut map = memmap2::MmapMut::map_anon(content.len()).unwrap();
    map.copy_from_slice(content);
    let map = map.make_read_only().unwrap();
    let source = ByteSource::MemoryMapped(map);
    assert_eq!(source.as_bytes(), content);
    let accessor = AdaptiveFileAccessor::new(source, 15, PathBuf::from("/tmp/mapped.log"));
    assert_eq!(accessor.read_from_byte(7, 5).unwrap(), vec!["content"]);
    assert_eq!(accessor.file_path(), std::path::Path::new("/tmp/mapped.log"));
}

#[test]
fn test_adaptive_accessor_small_file() {
    let content = b"line1\nline2\nline3\n";
    let accessor = accessor_over(content);
    assert_eq!(accessor.file_size(), content.len() as u64);
    assert_eq!(accessor.file_path(), PathBuf::from("/test/file.log").as_path());
    assert!(matches!(accessor.byte_source(), ByteSource::InMemory(_)));
}

#[test]
fn test_adaptive_accessor_read_from_byte() {
    let accessor = accessor_over(b"line1\nline2\nline3\n");

    let lines = accessor.read_from_byte(0, 2).unwrap();
    assert_eq!(lines, vec!["line1", "line2"]);

    let lines = accessor.read_from_byte(6, 2).unwrap();
    assert_eq!(lines, vec!["line2", "line3"]);

    let lines = accessor.read_from_byte(100, 2).unwrap();
    assert!(lines.is_empty());

    let lines = accessor.read_from_byte(0, 1).unwrap();
    assert_eq!(lines, vec!["line1"]);
}

#[test]
fn read_from_mid_line_starts_there() {
    let accessor = accessor_over(b"line1\nline2\n");
    assert_eq!(accessor.read_from_byte(2, 5).unwrap(), vec!["ne1", "line2"]);
    assert!(accessor.read_from_byte(3, 0).unwrap().is_empty());
}

#[test]
fn test_adaptive_accessor_find_next_match() {
    let accessor = accessor_over(b"error line\nnormal line\nerror again\n");

    let result = accessor.find_next_match(0, &error_search).unwrap();
    assert_eq!(result, Some(0));

    let result = accessor.find_next_match(15, &error_search).unwrap();
    assert!(result.is_some());
    let byte_pos = result.unwrap();
    assert!(byte_pos > 15);
    assert_eq!(byte_pos, 23);

    let no_match_search = |_line: &str| Vec::new();
    let result = accessor.find_next_match(0, &no_match_search).unwrap();
    assert!(result.is_none());
}

#[test]
fn test_adaptive_accessor_find_prev_match() {
    let accessor = accessor_over(b"error line\nnormal line\nerror again\n");

    let result = accessor.find_prev_match(100, &error_search).unwrap();
    assert_eq!(result, Some(23));

    let result = accessor.find_prev_match(23, &error_search).unwrap();
    assert_eq!(result, Some(0));

    let result = accessor.find_prev_match(0, &error_search).unwrap();
    assert!(result.is_none());
}

#[test]
fn test_adaptive_accessor_navigation_methods() {
    let accessor = accessor_over(b"line1\nline2\nline3\nline4\nline5\n");

    let last_pos = accessor.last_page_start(3).unwrap();
    assert_eq!(last_pos, 12);

    let next_pos = accessor.next_page_start(0, 2).unwrap();
    assert_eq!(next_pos, 12);

    let end_pos = accessor.next_page_start(24, 2).unwrap();
    assert_eq!(end_pos, 30);

    let prev_pos = accessor.prev_page_start(next_pos, 2).unwrap();
    assert_eq!(prev_pos, 0);
}

#[test]
fn test_adaptive_accessor_single_line_no_newline() {
    let accessor = accessor_over(b"single line without newline");

    let lines = accessor.read_from_byte(0, 5).unwrap();
    assert_eq!(lines, vec!["single line without newline"]);

    let last_pos = accessor.last_page_start(1).unwrap();
    assert_eq!(last_pos, 0);
}

#[test]
fn test_adaptive_accessor_next_page_start_edge_cases() {
    let accessor = accessor_over(b"A\nB\nC\n");

    assert_eq!(accessor.next_page_start(0, 1).unwrap(), 2);
    assert_eq!(accessor.next_page_start(2, 1).unwrap(), 4);
    assert_eq!(accessor.next_page_start(4, 1).unwrap(), 6);
}

#[test]
fn test_adaptive_accessor_last_page_start_comprehensive() {
    let accessor = accessor_over(b"A\nB\nC\nD\nE\n");

    assert_eq!(accessor.last_page_start(1).unwrap(), 8);
    assert_eq!(accessor.last_page_start(2).unwrap(), 6);
    assert_eq!(accessor.last_page_start(3).unwrap(), 4);
    assert_eq!(accessor.last_page_start(5).unwrap(), 0);
    assert_eq!(accessor.last_page_start(10).unwrap(), 0);
}

#[test]
fn test_adaptive_accessor_string_conversion() {
    let accessor = accessor_over(b"test line for borrowing\n");
    let lines = accessor.read_from_byte(0, 1).unwrap();
    assert_eq!(lines[0], "test line for borrowing");
}

#[test]
fn paging_down_then_up_returns_to_line_start() {
    let accessor = accessor_over(b"a\nbb\nccc\ndddd\neeeee\n");
    for start in [0u64, 2, 5, 9] {
        for n in 1usize..3 {
            let down = accessor.next_page_start(start, n).unwrap();
            if down < accessor.file_size() {
                assert_eq!(accessor.prev_page_start(down, n).unwrap(), start);
            }
        }
    }
    // Up then down: 9 ("dddd") up two lines is 2 ("bb"), down two lines is 9 again.
    assert_eq!(accessor.prev_page_start(9, 2).unwrap(), 2);
    assert_eq!(accessor.next_page_start(2, 2).unwrap(), 9);
}

#[test]
fn zero_line_moves_stay_or_reset() {
    let accessor = accessor_over(b"a\nb\n");
    assert_eq!(accessor.next_page_start(3, 0).unwrap(), 3);
    assert_eq!(accessor.next_page_start(50, 0).unwrap(), 50);
    assert_eq!(accessor.next_page_start(50, 1).unwrap(), 4);
    assert_eq!(accessor.prev_page_start(3, 0).unwrap(), 0);
    assert_eq!(accessor.last_page_start(0).unwrap(), 0);
    let empty = accessor_over(b"");
    assert_eq!(empty.last_page_start(3).unwrap(), 0);
    assert!(empty.read_from_byte(0, 3).unwrap().is_empty());
    assert_eq!(empty.find_prev_match(5, &error_search).unwrap(), None);
}

#[test]
fn backward_search_from_mid_line_examines_the_part_before() {
    let accessor = accessor_over(b"error one\nerror two");
    // From inside the second line the piece before the start position is searched first.
    assert_eq!(accessor.find_prev_match(16, &error_search).unwrap(), Some(10));
    assert_eq!(accessor.find_prev_match(12, &error_search).unwrap(), Some(0));
}

#[test]
fn backward_search_from_the_end_examines_the_whole_last_line() {
    let c_search = |line: &str| -> Vec<(usize, usize)> {
        match line.find('c') {
            Some(i) => vec![(i, i + 1)],
            None => Vec::new(),
        }
    };
    let accessor = accessor_over(b"abc");
    assert_eq!(accessor.find_prev_match(100, &c_search).unwrap(), Some(0));
    assert_eq!(accessor.find_prev_match(3, &c_search).unwrap(), Some(0));

    let two_lines = accessor_over(b"error line\nlast error");
    assert_eq!(two_lines.find_prev_match(100, &error_search).unwrap(), Some(11));

    let invalid_tail = accessor_over(&[0xC3]);
    let always = |_line: &str| -> Vec<(usize, usize)> { vec![(0, 0)] };
    assert_eq!(invalid_tail.find_prev_match(5, &always).unwrap(), None);
}
