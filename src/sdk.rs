//! The client side: frames and exceptions as the SDK reports them, which frames are
//! application code, and the SDK's own grouping key.
use vstd::prelude::*;
use vstd::utf8::encode_utf8;
use crate::digest::{hex_of, hex_prefix, is_hex_text, sha256, sha256_of};
use crate::fingerprint::first_n;
use crate::text::{
    contains, copy_str, has_prefix, has_substring, join_strings, joined, occurs_at, regex_replaced,
    replace_all_matches, rfind, starts_with, views,
};

verus! {

/// Severity of a reported error.
#[derive(Debug, Clone, Copy, PartialEq, Eq, Structural)]
pub enum Level {
    Debug,
    Info,
    Warning,
    Error,
    Fatal,
}

impl Default for Level {
    /// Errors are reported at the error level unless told otherwise.
    fn default() -> (r: Level)
        ensures
            r == Level::Error,
    {
        Level::Error
    }
}

/// One frame of a captured stack trace.
pub struct StackFrame {
    pub filename: String,
    pub function: String,
    pub lineno: u32,
    pub colno: Option<u32>,
    pub context_line: Option<String>,
    pub pre_context: Option<Vec<String>>,
    pub post_context: Option<Vec<String>>,
    pub in_app: bool,
    pub module: Option<String>,
}

impl StackFrame {
    /// An application frame with no column, context or module.
    pub fn new(filename: &str, function: &str, lineno: u32) -> (r: StackFrame)
        ensures
            r.filename@ == filename@,
            r.function@ == function@,
            r.lineno == lineno,
            r.colno is None,
            r.context_line is None,
            r.pre_context is None,
            r.post_context is None,
            r.in_app,
            r.module is None,
    {
        StackFrame {
            filename: copy_str(filename),
            function: copy_str(function),
            lineno,
            colno: None,
            context_line: None,
            pre_context: None,
            post_context: None,
            in_app: true,
            module: None,
        }
    }
}

/// An error as the SDK reports it.
pub struct ExceptionInfo {
    pub error_type: String,
    pub value: String,
    pub stacktrace: Vec<StackFrame>,
    pub module: Option<String>,
}

impl ExceptionInfo {
    /// An exception with no frames and no module.
    pub fn new(error_type: &str, value: &str) -> (r: ExceptionInfo)
        ensures
            r.error_type@ == error_type@,
            r.value@ == value@,
            r.stacktrace@.len() == 0,
            r.module is None,
    {
        ExceptionInfo { error_type: copy_str(error_type), value: copy_str(value), stacktrace: Vec::new(), module: None }
    }

    /// The same exception with the given frames.
    pub fn with_stacktrace(self, stacktrace: Vec<StackFrame>) -> (r: ExceptionInfo)
        ensures
            r.error_type == self.error_type,
            r.value == self.value,
            r.stacktrace == stacktrace,
            r.module == self.module,
    {
        ExceptionInfo { stacktrace, ..self }
    }
}

/// Function prefixes of the standard library, the runtime and tooling.
pub open spec fn runtime_prefix(function: Seq<char>) -> bool {
    has_prefix(function, "std::"@) || has_prefix(function, "core::"@) || has_prefix(function, "alloc::"@)
        || has_prefix(function, "backtrace::"@) || has_prefix(function, "panic_unwind::"@) || has_prefix(
        function,
        "tokio::"@,
    ) || has_prefix(function, "<alloc::"@) || has_prefix(function, "<core::"@) || has_prefix(function, "<std::"@)
}

/// Whether a frame is application code: not from the compiler's sources, not from the
/// package registry, not from the SDK itself and not from the runtime.
pub open spec fn in_app(filename: Seq<char>, function: Seq<char>) -> bool {
    !has_substring(filename, "/rustc/"@) && !has_substring(filename, ".cargo/registry/"@) && !has_substring(
        filename,
        ".cargo\\registry\\"@,
    ) && !has_prefix(function, "bugwatch::"@) && !runtime_prefix(function)
}

/// Decides whether a frame is application code.
pub fn is_in_app(filename: &str, function: &str) -> (r: bool)
    ensures
        r == in_app(filename@, function@),
{
    if contains(filename, "/rustc/") {
        return false;
    }
    if contains(filename, ".cargo/registry/") || contains(filename, ".cargo\\registry\\") {
        return false;
    }
    if starts_with(function, "bugwatch::") {
        return false;
    }
    !(starts_with(function, "std::") || starts_with(function, "core::") || starts_with(function, "alloc::")
        || starts_with(function, "backtrace::") || starts_with(function, "panic_unwind::") || starts_with(
        function,
        "tokio::",
    ) || starts_with(function, "<alloc::") || starts_with(function, "<core::") || starts_with(function, "<std::"))
}

/// The module path of a function path: what stands before its last `::`, if that is not
/// empty.
pub open spec fn module_of(function: Seq<char>) -> Option<Seq<char>> {
    if has_substring(function, "::"@) {
        let i = choose|i: int| occurs_at(function, "::"@, i) && forall|j: int| #[trigger] occurs_at(function, "::"@, j) ==> j <= i;
        if i > 0 {
            Some(function.take(i))
        } else {
            None
        }
    } else {
        None
    }
}

/// Reads the module path of a function path.
pub fn extract_module(function: &str) -> (r: Option<String>)
    ensures
        match r {
            Some(m) => module_of(function@) == Some(m@),
            None => module_of(function@) is None,
        },
{
    match rfind(function, "::") {
        Some(i) => {
            proof {
                let c = choose|c: int| occurs_at(function@, "::"@, c) && forall|j: int| #[trigger] occurs_at(function@, "::"@, j) ==> j <= c;
                assert(c <= i && i <= c);
            }
            if i > 0 {
                Some(copy_str(function.substring_char(0, i)))
            } else {
                None
            }
        },
        None => None,
    }
}

/// A message with its variable parts masked, the SDK's way: UUIDs, hex values, memory
/// addresses, numbers, paths and quoted strings.
pub open spec fn sdk_normalized(message: Seq<char>) -> Seq<char> {
    let a = regex_replaced("[0-9a-fA-F]{8}-[0-9a-fA-F]{4}-[0-9a-fA-F]{4}-[0-9a-fA-F]{4}-[0-9a-fA-F]{12}"@, message, "<uuid>"@);
    let b = regex_replaced("0x[0-9a-fA-F]+"@, a, "<hex>"@);
    let c = regex_replaced("at 0x[0-9a-fA-F]+"@, b, "at <address>"@);
    let d = regex_replaced("\\d+"@, c, "<number>"@);
    let e = regex_replaced("(/[\\w\\-./]+)+"@, d, "<path>"@);
    let f = regex_replaced("(\\\\[\\w\\-.\\\\ ]+)+"@, e, "<path>"@);
    let g = regex_replaced("\"[^\"]*\""@, f, "<string>"@);
    regex_replaced("'[^']*'"@, g, "<string>"@)
}

/// Masks the variable parts of a message.
pub fn normalize_sdk_message(message: &str) -> (r: String)
    ensures
        r@ == sdk_normalized(message@),
{
    let a = replace_all_matches(
        "[0-9a-fA-F]{8}-[0-9a-fA-F]{4}-[0-9a-fA-F]{4}-[0-9a-fA-F]{4}-[0-9a-fA-F]{12}",
        message,
        "<uuid>",
    );
    let b = replace_all_matches("0x[0-9a-fA-F]+", a.as_str(), "<hex>");
    let c = replace_all_matches("at 0x[0-9a-fA-F]+", b.as_str(), "at <address>");
    let d = replace_all_matches("\\d+", c.as_str(), "<number>");
    let e = replace_all_matches("(/[\\w\\-./]+)+", d.as_str(), "<path>");
    let f = replace_all_matches("(\\\\[\\w\\-.\\\\ ]+)+", e.as_str(), "<path>");
    let g = replace_all_matches("\"[^\"]*\"", f.as_str(), "<string>");
    replace_all_matches("'[^']*'", g.as_str(), "<string>")
}

/// The text the SDK hashes: `type:message`, and `:stack` when a stack text is given.
pub open spec fn sdk_basis(error_type: Seq<char>, normalized_message: Seq<char>, stack: Option<Seq<char>>) -> Seq<char> {
    match stack {
        Some(st) => error_type + ":"@ + normalized_message + ":"@ + st,
        None => error_type + ":"@ + normalized_message,
    }
}

/// Thirty-two hex digits: the first sixteen bytes of the SHA-256 digest of the text.
pub open spec fn sdk_digest(text: Seq<char>) -> Seq<char> {
    hex_of(sha256_of(encode_utf8(text)).subrange(0, 16))
}

/// The SDK's grouping key of an error.
pub fn generate_fingerprint(error_type: &str, message: &str, stacktrace: Option<&str>) -> (r: String)
    ensures
        r@ == sdk_digest(
            sdk_basis(
                error_type@,
                sdk_normalized(message@),
                match stacktrace {
                    Some(s) => Some(s@),
                    None => None,
                },
            ),
        ),
        r@.len() == 32,
        is_hex_text(r@),
{
    let normalized_message = normalize_sdk_message(message);
    let mut content = copy_str(error_type);
    content.append(":");
    content.append(normalized_message.as_str());
    match stacktrace {
        Some(st) => {
            content.append(":");
            content.append(st);
        },
        None => {},
    }
    let digest = sha256(content.as_str().as_bytes());
    hex_prefix(digest.as_slice(), 16)
}

/// `file:function` of a frame; line and column are left out so that grouping survives
/// line shifts.
pub open spec fn sdk_frame_key(f: StackFrame) -> Seq<char> {
    f.filename@ + ":"@ + f.function@
}

/// The keys of the in-app frames, in order.
pub open spec fn sdk_in_app_keys(frames: Seq<StackFrame>) -> Seq<Seq<char>>
    decreases frames.len(),
{
    if frames.len() == 0 {
        Seq::empty()
    } else if frames.last().in_app {
        sdk_in_app_keys(frames.drop_last()).push(sdk_frame_key(frames.last()))
    } else {
        sdk_in_app_keys(frames.drop_last())
    }
}

/// The stack text of an exception: the keys of its first five in-app frames joined by `|`,
/// or none when it has no in-app frame.
pub open spec fn sdk_stack_text(e: ExceptionInfo) -> Option<Seq<char>> {
    let keys = first_n(sdk_in_app_keys(e.stacktrace@), 5);
    if keys.len() == 0 {
        None
    } else {
        Some(joined(keys, "|"@))
    }
}

fn sdk_frame_key_text(f: &StackFrame) -> (r: String)
    ensures
        r@ == sdk_frame_key(*f),
{
    let mut s = copy_str(f.filename.as_str());
    s.append(":");
    s.append(f.function.as_str());
    s
}

/// The SDK's grouping key of an exception, from its type, message and first five in-app
/// frames.
pub fn fingerprint_from_exception(exception: &ExceptionInfo) -> (r: String)
    ensures
        r@ == sdk_digest(sdk_basis(exception.error_type@, sdk_normalized(exception.value@), sdk_stack_text(*exception))),
        r@.len() == 32,
        is_hex_text(r@),
{
    let frames = &exception.stacktrace;
    let mut parts: Vec<String> = Vec::new();
    let mut i: usize = 0;
    while i < frames.len()
        invariant
            i <= frames@.len(),
            frames == exception.stacktrace,
            views(parts@) == first_n(sdk_in_app_keys(frames@.subrange(0, i as int)), 5),
        decreases frames@.len() - i,
    {
        let ghost before = sdk_in_app_keys(frames@.subrange(0, i as int));
        let ghost before_parts = parts@;
        proof {
            assert(frames@.subrange(0, i + 1).drop_last() =~= frames@.subrange(0, i as int));
        }
        if frames[i].in_app && parts.len() < 5 {
            parts.push(sdk_frame_key_text(&frames[i]));
            proof {
                assert(views(parts@) =~= views(before_parts).push(sdk_frame_key(frames@[i as int])));
            }
        }
        i += 1;
        proof {
            let after = sdk_in_app_keys(frames@.subrange(0, i as int));
            assert(frames@.subrange(0, i as int).last() == frames@[i - 1]);
            if frames@[i - 1].in_app {
                assert(after == before.push(sdk_frame_key(frames@[i - 1])));
                if before.len() < 5 {
                    assert(first_n(after, 5) =~= first_n(before, 5).push(sdk_frame_key(frames@[i - 1])));
                } else {
                    assert(first_n(after, 5) =~= first_n(before, 5));
                }
            }
        }
    }
    proof {
        assert(frames@.subrange(0, frames@.len() as int) =~= frames@);
    }
    if parts.len() == 0 {
        generate_fingerprint(exception.error_type.as_str(), exception.value.as_str(), None)
    } else {
        let stack = join_strings(&parts, "|");
        generate_fingerprint(exception.error_type.as_str(), exception.value.as_str(), Some(stack.as_str()))
    }
}

} // verus!
