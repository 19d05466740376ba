use rlless::file_handler::compression::{
    check_decompressible, compression_for_extension, compression_for_lowercase_extension,
    compression_from_probe, decompression_target, detect_by_extension, detect_by_magic,
    CompressionType, DecompressionTarget,
};
use rlless::RllessError;
use std::path::Path;

#[test]
fn test_detect_gzip_magic() {
    let magic = [0x1f, 0x8b, 0x08, 0x00];
    assert_eq!(detect_by_magic(&magic), Some(CompressionType::Gzip));
}

#[test]
fn test_detect_bzip2_magic() {
    let magic = [0x42, 0x5a, 0x68, 0x39];
    assert_eq!(detect_by_magic(&magic), Some(CompressionType::Bzip2));
}

#[test]
fn test_detect_xz_magic() {
    let magic = [0xfd, 0x37, 0x7a, 0x58, 0x5a, 0x00];
    assert_eq!(detect_by_magic(&magic), Some(CompressionType::Xz));
}

#[test]
fn test_detect_zstd_magic() {
    let magic = [0x28, 0xb5, 0x2f, 0xfd];
    assert_eq!(detect_by_magic(&magic), Some(CompressionType::Zstd));
}

#[test]
fn test_detect_no_compression() {
    let magic = [0x00, 0x00, 0x00, 0x00];
    assert_eq!(detect_by_magic(&magic), None);
}

#[test]
fn test_detect_by_extension() {
    assert_eq!(
        detect_by_extension(Path::new("file.gz")),
        Some(CompressionType::Gzip)
    );
    assert_eq!(
        detect_by_extension(Path::new("file.bz2")),
        Some(CompressionType::Bzip2)
    );
    assert_eq!(
        detect_by_extension(Path::new("file.xz")),
        Some(CompressionType::Xz)
    );
    assert_eq!(
        detect_by_extension(Path::new("file.zst")),
        Some(CompressionType::Zstd)
    );
    assert_eq!(
        detect_by_extension(Path::new("file.zstd")),
        Some(CompressionType::Zstd)
    );
    assert_eq!(detect_by_extension(Path::new("file.txt")), None);
}

#[test]
fn test_compression_type_methods() {
    assert!(!CompressionType::Uncompressed.is_compressed());
    assert!(CompressionType::Gzip.is_compressed());
    assert_eq!(CompressionType::Bzip2.name(), "bzip2");
    assert_eq!(CompressionType::Zstd.name(), "zstd");
}

#[test]
fn names_of_all_formats() {
    assert_eq!(CompressionType::Uncompressed.name(), "none");
    assert_eq!(CompressionType::Gzip.name(), "gzip");
    assert_eq!(CompressionType::Xz.name(), "xz");
}

#[test]
fn short_or_truncated_magic_is_not_recognised() {
    assert_eq!(detect_by_magic(&[]), None);
    assert_eq!(detect_by_magic(&[0x1f]), None);
    assert_eq!(detect_by_magic(&[0x1f, 0x8b]), Some(CompressionType::Gzip));
    assert_eq!(detect_by_magic(&[0x42, 0x5a]), None);
    assert_eq!(detect_by_magic(&[0x28, 0xb5, 0x2f]), None);
    assert_eq!(detect_by_magic(&[0xfd, 0x37, 0x7a, 0x58, 0x5a]), None);
}

#[test]
fn extension_case_is_ignored() {
    assert_eq!(
        detect_by_extension(Path::new("LOG.GZ")),
        Some(CompressionType::Gzip)
    );
    assert_eq!(compression_for_extension("ZsT"), Some(CompressionType::Zstd));
    assert_eq!(compression_for_lowercase_extension("GZ"), None);
    assert_eq!(compression_for_lowercase_extension("gz"), Some(CompressionType::Gzip));
    assert_eq!(detect_by_extension(Path::new("no_extension")), None);
}

#[test]
fn magic_wins_over_extension() {
    let gzip = [0x1f, 0x8b, 0x08, 0x00];
    assert_eq!(
        compression_from_probe(&gzip, Some(CompressionType::Xz)),
        CompressionType::Gzip
    );
    let text = b"not compressed";
    assert_eq!(
        compression_from_probe(text, Some(CompressionType::Gzip)),
        CompressionType::Gzip
    );
    assert_eq!(compression_from_probe(text, None), CompressionType::Uncompressed);
    assert_eq!(compression_from_probe(&[], None), CompressionType::Uncompressed);
}

#[test]
fn decompression_decisions() {
    match check_decompressible(CompressionType::Uncompressed) {
        Err(RllessError::FileError { message, .. }) => {
            assert_eq!(message, "decompress_file called with no compression")
        }
        _ => panic!("expected a file error"),
    }
    assert!(check_decompressible(CompressionType::Gzip).is_ok());
    assert_eq!(decompression_target(9_999_999), DecompressionTarget::Memory);
    assert_eq!(decompression_target(10_000_000), DecompressionTarget::TempFile);
}
