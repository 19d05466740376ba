use rlless::error::RllessError;
use std::path::PathBuf;

#[test]
fn test_error_display_messages() {
    let path = PathBuf::from("/test/file.log");

    let file_not_found = RllessError::FileNotFound { path: path.clone() };
    assert_eq!(file_not_found.to_string(), "File not found: /test/file.log");

    let not_a_file = RllessError::NotAFile { path: path.clone() };
    assert_eq!(
        not_a_file.to_string(),
        "Path is not a regular file: /test/file.log"
    );

    let memory_error = RllessError::memory_mapping("Failed to map file");
    assert_eq!(
        memory_error.to_string(),
        "Memory mapping failed: Failed to map file"
    );
}

#[test]
fn test_error_constructors() {
    let search_err = RllessError::search("Pattern not found");
    assert!(matches!(search_err, RllessError::SearchError { .. }));

    let ui_err = RllessError::ui("Terminal resize failed");
    assert!(matches!(ui_err, RllessError::UIError { .. }));

    let other_err = RllessError::other("Unknown error");
    assert!(matches!(other_err, RllessError::Other { .. }));
}

#[test]
fn test_io_error_conversion() {
    let io_err = std::io::Error::new(std::io::ErrorKind::NotFound, "File not found");
    let rlless_err: RllessError = io_err.into();

    match rlless_err {
        RllessError::FileError { message, .. } => {
            assert_eq!(message, "File not found");
        }
        _ => panic!("Expected FileError variant"),
    }
}

#[test]
fn test_result_type_alias() {
    fn returns_result() -> rlless::Result<String> {
        Ok("success".to_string())
    }

    let result = returns_result();
    assert!(result.is_ok());
    assert_eq!(result.unwrap(), "success");
}

#[test]
fn io_error_kinds_give_their_messages() {
    let denied: RllessError =
        std::io::Error::new(std::io::ErrorKind::PermissionDenied, "nope").into();
    match denied {
        RllessError::FileError { message, .. } => assert_eq!(message, "Permission denied"),
        _ => panic!("Expected FileError variant"),
    }
    let other: RllessError = std::io::Error::new(std::io::ErrorKind::Other, "x").into();
    match other {
        RllessError::FileError { message, .. } => assert_eq!(message, "IO operation failed"),
        _ => panic!("Expected FileError variant"),
    }
}

#[test]
fn every_variant_renders_its_prefix() {
    let io = || std::io::Error::new(std::io::ErrorKind::Other, "x");
    assert_eq!(
        RllessError::file_error("open failed", io()).to_string(),
        "File operation failed: open failed"
    );
    assert_eq!(
        RllessError::PermissionDenied { path: PathBuf::from("/a") }.to_string(),
        "Permission denied accessing file: /a"
    );
    assert_eq!(RllessError::compression("bad").to_string(), "Compression error: bad");
    assert_eq!(RllessError::search("bad").to_string(), "Search operation failed: bad");
    assert_eq!(RllessError::ui("bad").to_string(), "UI operation failed: bad");
    assert_eq!(
        RllessError::ConfigError { message: "bad".to_string() }.to_string(),
        "Configuration error: bad"
    );
    assert_eq!(
        RllessError::InvalidArgument { message: "bad".to_string() }.to_string(),
        "Invalid argument: bad"
    );
    assert_eq!(RllessError::other("bad").to_string(), "Operation failed: bad");
}
