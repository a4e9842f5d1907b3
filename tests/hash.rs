use emlib_build::artifact::{emlib_hash_file, emlib_hash_record, extract_hash_token, hash_record, HashError};

const OUT_DIR: &str = ".../target/thumbv7m-none-eabi/build/pkg-abcdef1234567890/out";

#[test]
fn token_from_cargo_output_path() {
    assert_eq!(extract_hash_token(OUT_DIR), Ok("abcdef1234567890".to_string()));
    assert_eq!(emlib_hash_record(OUT_DIR), Ok("HASH=abcdef1234567890".to_string()));
}

#[test]
fn token_is_after_last_dash() {
    assert_eq!(
        extract_hash_token("/p/target/debug/build/my-crate-name-0123abcd/out"),
        Ok("0123abcd".to_string())
    );
    assert_eq!(extract_hash_token("/x-y/z"), Ok("y".to_string()));
}

#[test]
fn short_paths_fail() {
    assert_eq!(extract_hash_token("out"), Err(HashError::TooFewSegments));
    assert_eq!(extract_hash_token(""), Err(HashError::TooFewSegments));
    assert_eq!(extract_hash_token("pkg-abc/out"), Err(HashError::TooFewSegments));
    assert_eq!(emlib_hash_record("out"), Err(HashError::TooFewSegments));
}

#[test]
fn segment_without_dash_fails() {
    assert_eq!(extract_hash_token("target/build/pkgabc/out"), Err(HashError::NoFingerprint));
    assert_eq!(emlib_hash_record("a//b"), Err(HashError::NoFingerprint));
}

#[test]
fn empty_fingerprint_fails() {
    assert_eq!(extract_hash_token("a/b-/c"), Err(HashError::NoFingerprint));
    assert_eq!(emlib_hash_record("a/b-/c"), Err(HashError::NoFingerprint));
    assert_eq!(extract_hash_token("target/build/pkg-/out"), Err(HashError::NoFingerprint));
    assert_eq!(extract_hash_token("a/-x/c"), Ok("x".to_string()));
}

#[test]
fn record_holds_only_the_latest_token() {
    let first = emlib_hash_record("t/build/pkg-1111/out").unwrap();
    let second = emlib_hash_record("t/build/pkg-2222/out").unwrap();
    assert_eq!(first, "HASH=1111");
    assert_eq!(second, "HASH=2222");
    assert!(!second.contains("1111"));
}

#[test]
fn record_format_and_file_location() {
    assert_eq!(hash_record("abc"), "HASH=abc");
    assert_eq!(hash_record(""), "HASH=");
    assert_eq!(emlib_hash_file("/home/dev/fw"), "/home/dev/fw/.emlib_hash");
}

#[test]
fn error_messages_are_distinct() {
    assert_ne!(HashError::TooFewSegments.message(), HashError::NoFingerprint.message());
    assert!(!HashError::TooFewSegments.message().is_empty());
}
