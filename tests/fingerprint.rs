use bugwatch_core::fingerprint::{
    fingerprint_basis, generate_fingerprint, generate_title, normalize_message, short_hash, ExceptionInfo, StackFrame,
};

fn frame(filename: &str, function: &str, lineno: u32, in_app: bool) -> StackFrame {
    StackFrame {
        filename: filename.to_string(),
        function: function.to_string(),
        lineno,
        colno: 23,
        abs_path: None,
        context_line: None,
        pre_context: None,
        post_context: None,
        in_app,
    }
}

fn exception(ty: &str, value: &str, frames: Vec<StackFrame>) -> ExceptionInfo {
    ExceptionInfo { exception_type: ty.to_string(), value: value.to_string(), stacktrace: frames }
}

#[test]
fn test_normalize_message() {
    assert_eq!(normalize_message("Cannot read property 'id' of undefined"), "Cannot read property '*' of undefined");
    assert_eq!(normalize_message("User 12345 not found"), "User * not found");
    assert_eq!(normalize_message("Connection to 192.168.1.1:5432 failed"), "Connection to *:* failed");
    assert_eq!(normalize_message("Invalid UUID: 550e8400-e29b-41d4-a716-446655440000"), "Invalid UUID: *");
}

#[test]
fn test_fingerprint_consistency() {
    let exc1 = ExceptionInfo {
        exception_type: "TypeError".to_string(),
        value: "Cannot read property 'id' of undefined".to_string(),
        stacktrace: vec![StackFrame {
            filename: "src/api/users.ts".to_string(),
            function: "getUser".to_string(),
            lineno: 142,
            colno: 23,
            abs_path: None,
            context_line: None,
            pre_context: None,
            post_context: None,
            in_app: true,
        }],
    };
    let exc2 = ExceptionInfo {
        exception_type: "TypeError".to_string(),
        value: "Cannot read property 'name' of undefined".to_string(),
        stacktrace: vec![StackFrame {
            filename: "src/api/users.ts".to_string(),
            function: "getUser".to_string(),
            lineno: 150,
            colno: 23,
            abs_path: None,
            context_line: None,
            pre_context: None,
            post_context: None,
            in_app: true,
        }],
    };
    assert_eq!(generate_fingerprint(&exc1), generate_fingerprint(&exc2));
}

#[test]
fn normalization_masks_double_quotes_and_keeps_words() {
    assert_eq!(normalize_message("key \"abc\" missing"), "key \"*\" missing");
    assert_eq!(normalize_message("v2 of api3"), "v2 of api3");
    assert_eq!(normalize_message(""), "");
}

#[test]
fn basis_lists_type_first_five_in_app_frames_and_message() {
    let frames = vec![
        frame("a.js", "f1", 1, true),
        frame("lib.js", "g", 2, false),
        frame("b.js", "f2", 3, true),
        frame("c.js", "f3", 4, true),
        frame("d.js", "f4", 5, true),
        frame("e.js", "f5", 6, true),
        frame("f.js", "f6", 7, true),
    ];
    let e = exception("TypeError", "x", frames);
    assert_eq!(fingerprint_basis(&e, "msg *"), "9:TypeError|a.js:f1|b.js:f2|c.js:f3|d.js:f4|e.js:f5|msg *");
    let bare = exception("E", "x", vec![]);
    assert_eq!(fingerprint_basis(&bare, ""), "1:E|");
}

#[test]
fn fingerprint_is_sixteen_hex_digits_of_sha256() {
    // SHA-256 of the empty string begins e3b0c44298fc1c14
    assert_eq!(short_hash(""), "e3b0c44298fc1c14");
    // SHA-256 of "abc" begins ba7816bf8f01cfea
    assert_eq!(short_hash("abc"), "ba7816bf8f01cfea");
    let e = exception("TypeError", "boom", vec![]);
    let fp = generate_fingerprint(&e);
    assert_eq!(fp.len(), 16);
    assert_eq!(fp, short_hash("9:TypeError|boom"));
    assert!(fp.chars().all(|c| c.is_ascii_digit() || ('a'..='f').contains(&c)));
}

#[test]
fn fingerprint_ignores_lines_ids_and_addresses() {
    let a = exception(
        "ConnError",
        "host 10.0.0.1 refused user 550e8400-e29b-41d4-a716-446655440000 after 3 tries",
        vec![frame("db.rs", "connect", 10, true), frame("std.rs", "run", 99, false)],
    );
    let b = exception(
        "ConnError",
        "host 172.16.4.20 refused user 6ba7b810-9dad-11d1-80b4-00c04fd430c8 after 12 tries",
        vec![frame("db.rs", "connect", 77, true)],
    );
    assert_eq!(generate_fingerprint(&a), generate_fingerprint(&b));
}

#[test]
fn fingerprint_separates_types_and_frames() {
    let a = exception("TypeError", "same", vec![frame("a.js", "f", 1, true)]);
    let b = exception("RangeError", "same", vec![frame("a.js", "f", 1, true)]);
    let c = exception("TypeError", "same", vec![frame("a.js", "g", 1, true)]);
    assert_ne!(generate_fingerprint(&a), generate_fingerprint(&b));
    assert_ne!(generate_fingerprint(&a), generate_fingerprint(&c));
}

#[test]
fn titles_are_shortened_by_characters() {
    let short = exception("TypeError", "bad", vec![]);
    assert_eq!(generate_title(&short), "TypeError: bad");
    let exactly = "x".repeat(100);
    assert_eq!(generate_title(&exception("E", &exactly, vec![])), format!("E: {}", exactly));
    let long = "é".repeat(150);
    let title = generate_title(&exception("E", &long, vec![]));
    assert_eq!(title, format!("E: {}...", "é".repeat(97)));
}

#[test]
fn separators_inside_type_names_cannot_collide() {
    let a = exception("A|x", "y", vec![]);
    let b = exception("A", "x|y", vec![]);
    assert_ne!(fingerprint_basis(&a, "y"), fingerprint_basis(&b, "x|y"));
    assert_ne!(generate_fingerprint(&a), generate_fingerprint(&b));
    let c = exception("A|x:f", "m", vec![]);
    let d = exception("A", "m", vec![frame("x", "f", 1, true)]);
    assert_ne!(generate_fingerprint(&c), generate_fingerprint(&d));
    let long = "É".repeat(12);
    assert_eq!(fingerprint_basis(&exception(&long, "m", vec![]), "m"), format!("12:{}|m", long));
}
