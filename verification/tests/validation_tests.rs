use rlless::file_handler::factory::{FileAccessorFactory, LoadStrategy};
use rlless::file_handler::adaptive::ByteSource;
use rlless::file_handler::validation::{check_file_facts, FileFacts};
use rlless::file_handler::FileAccessor;
use rlless::RllessError;
use std::path::{Path, PathBuf};

fn refusal_message(path: &str, facts: Option<FileFacts>) -> String {
    match check_file_facts(Path::new(path), facts) {
        Err(RllessError::FileError { message, .. }) => message,
        Err(other) => panic!("unexpected error {other:?}"),
        Ok(()) => panic!("expected a refusal"),
    }
}

#[test]
fn test_validate_nonexistent_file() {
    let message = refusal_message("/this/file/does/not/exist.log", None);
    assert!(message.contains("File does not exist"));
    assert_eq!(message, "File does not exist: /this/file/does/not/exist.log");
}

#[test]
fn validation_refusals_in_order() {
    assert_eq!(
        refusal_message("/tmp", Some(FileFacts { is_file: false, is_symlink: false, size: 0 })),
        "Path is not a file: /tmp"
    );
    assert_eq!(
        refusal_message("/tmp/e.log", Some(FileFacts { is_file: true, is_symlink: false, size: 0 })),
        "File is empty: /tmp/e.log"
    );
    assert_eq!(
        refusal_message(
            "/tmp/big.log",
            Some(FileFacts { is_file: true, is_symlink: false, size: 150 * 1024 * 1024 * 1024 })
        ),
        "File is suspiciously large (150GB): /tmp/big.log"
    );
    assert!(check_file_facts(
        Path::new("/tmp/ok.log"),
        Some(FileFacts { is_file: true, is_symlink: false, size: 100 * 1024 * 1024 * 1024 })
    )
    .is_ok());
    assert!(check_file_facts(Path::new("/tmp/ok.log"), Some(FileFacts { is_file: true, is_symlink: false, size: 1 })).is_ok());
}

#[test]
fn test_factory_memory_threshold() {
    assert_eq!(FileAccessorFactory::MEMORY_THRESHOLD, 50 * 1024 * 1024);
}

#[test]
fn load_strategy_boundary() {
    let threshold = FileAccessorFactory::MEMORY_THRESHOLD;
    assert_eq!(FileAccessorFactory::load_strategy(threshold - 1), LoadStrategy::ReadIntoMemory);
    assert_eq!(FileAccessorFactory::load_strategy(threshold), LoadStrategy::MemoryMap);
}

#[test]
fn decompressed_accessor_reports_content_length() {
    let accessor = FileAccessorFactory::for_decompressed(
        ByteSource::InMemory(b"compressed line 1\ncompressed line 2\n".to_vec()),
        PathBuf::from("/tmp/a.gz"),
    );
    assert_eq!(accessor.file_size(), 36);
    assert_eq!(
        accessor.read_from_byte(0, 3).unwrap(),
        vec!["compressed line 1", "compressed line 2"]
    );
}

#[test]
fn symbolic_links_are_refused() {
    assert_eq!(
        refusal_message(
            "/tmp/link.log",
            Some(FileFacts { is_file: true, is_symlink: true, size: 10 })
        ),
        "Path is not a file: /tmp/link.log"
    );
}
