use bugwatch_core::text::to_decimal;
use bugwatch_core::sdk::{
    extract_module, fingerprint_from_exception, generate_fingerprint, is_in_app, normalize_sdk_message,
    ExceptionInfo, StackFrame,
};

#[test]
fn test_is_in_app_filters_std() {
    assert!(!is_in_app("/some/path", "std::thread::spawn"));
    assert!(!is_in_app("/some/path", "core::result::Result"));
}

#[test]
fn test_is_in_app_allows_app_code() {
    assert!(is_in_app("/my/project/src/main.rs", "myapp::main"));
    assert!(is_in_app("src/lib.rs", "mycrate::handler"));
}

#[test]
fn test_extract_module() {
    assert_eq!(extract_module("myapp::handlers::user::create"), Some("myapp::handlers::user".to_string()));
    assert_eq!(extract_module("main"), None);
}

#[test]
fn test_consistent_fingerprint_for_same_error() {
    let fp1 = generate_fingerprint("TypeError", "Cannot read property 'x' of undefined", None);
    let fp2 = generate_fingerprint("TypeError", "Cannot read property 'x' of undefined", None);
    assert_eq!(fp1, fp2);
}

#[test]
fn test_different_fingerprint_for_different_type() {
    let fp1 = generate_fingerprint("TypeError", "error message", None);
    let fp2 = generate_fingerprint("ValueError", "error message", None);
    assert_ne!(fp1, fp2);
}

#[test]
fn test_normalizes_numbers() {
    let fp1 = generate_fingerprint("IndexError", "index 5 out of range", None);
    let fp2 = generate_fingerprint("IndexError", "index 10 out of range", None);
    assert_eq!(fp1, fp2);
}

#[test]
fn test_normalizes_uuids() {
    let fp1 = generate_fingerprint("KeyError", "user 550e8400-e29b-41d4-a716-446655440000 not found", None);
    let fp2 = generate_fingerprint("KeyError", "user 6ba7b810-9dad-11d1-80b4-00c04fd430c8 not found", None);
    assert_eq!(fp1, fp2);
}

#[test]
fn test_fingerprint_from_exception() {
    let exception = ExceptionInfo {
        error_type: "ValueError".to_string(),
        value: "invalid value".to_string(),
        stacktrace: vec![StackFrame::new("app.rs", "main", 10)],
        module: None,
    };
    let fp = fingerprint_from_exception(&exception);
    assert_eq!(fp.len(), 32);
}

#[test]
fn runtime_and_registry_frames_are_not_app_code() {
    assert!(!is_in_app("/rustc/abc/library/core/src/ops.rs", "myapp::x"));
    assert!(!is_in_app("/home/u/.cargo/registry/src/tokio/lib.rs", "myapp::x"));
    assert!(!is_in_app("C:\\Users\\u\\.cargo\\registry\\x.rs", "myapp::x"));
    assert!(!is_in_app("src/lib.rs", "bugwatch::capture"));
    assert!(!is_in_app("src/lib.rs", "<alloc::vec::Vec<T>>::push"));
    assert!(!is_in_app("src/lib.rs", "tokio::spawn"));
}

#[test]
fn module_of_leading_separator_is_none() {
    assert_eq!(extract_module("::main"), None);
    assert_eq!(extract_module("a::b"), Some("a".to_string()));
}

#[test]
fn sdk_normalization_masks_each_kind() {
    assert_eq!(normalize_sdk_message("index 42"), "index <number>");
    assert_eq!(normalize_sdk_message("id 550E8400-E29B-41D4-A716-446655440000"), "id <uuid>");
    assert_eq!(normalize_sdk_message("bad 'x'"), "bad <string>");
    assert_eq!(normalize_sdk_message("open /etc/passwd"), "open <path>");
}

#[test]
fn sdk_fingerprint_ignores_line_numbers() {
    let base = ExceptionInfo::new("E", "m");
    let with_frames = ExceptionInfo::new("E", "m").with_stacktrace(vec![StackFrame::new("a.rs", "f", 7)]);
    assert_eq!(fingerprint_from_exception(&base), generate_fingerprint("E", "m", None));
    assert_eq!(fingerprint_from_exception(&with_frames), generate_fingerprint("E", "m", Some("a.rs:f")));
    let moved = ExceptionInfo::new("E", "m").with_stacktrace(vec![StackFrame::new("a.rs", "f", 8)]);
    assert_eq!(fingerprint_from_exception(&with_frames), fingerprint_from_exception(&moved));
    assert_eq!(fingerprint_from_exception(&moved).len(), 32);
}

#[test]
fn decimal_rendering() {
    assert_eq!(to_decimal(0), "0");
    assert_eq!(to_decimal(907), "907");
    assert_eq!(to_decimal(u32::MAX as u64), "4294967295");
    assert_eq!(to_decimal(u64::MAX), "18446744073709551615");
}

#[test]
fn default_level_is_error() {
    assert_eq!(bugwatch_core::sdk::Level::default(), bugwatch_core::sdk::Level::Error);
}
