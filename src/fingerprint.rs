//! Grouping keys and titles of reported exceptions.
use vstd::prelude::*;
use vstd::string::*;
use vstd::utf8::encode_utf8;
use crate::digest::{hex_of, hex_prefix, is_hex_text, sha256, sha256_of};
use crate::text::{
    copy_str, decimal, is_digit, join_strings, joined, lemma_decimal_digits, lemma_decimal_injective, regex_replaced,
    replace_all_matches, to_decimal, views,
};

verus! {

/// One frame of a reported stack trace.
pub struct StackFrame {
    pub filename: String,
    pub function: String,
    pub lineno: u32,
    pub colno: u32,
    pub abs_path: Option<String>,
    pub context_line: Option<String>,
    pub pre_context: Option<Vec<String>>,
    pub post_context: Option<Vec<String>>,
    /// Whether the frame is application code rather than a library or the runtime.
    pub in_app: bool,
}

/// A reported exception: its type, its message and its frames, innermost first.
pub struct ExceptionInfo {
    pub exception_type: String,
    pub value: String,
    pub stacktrace: Vec<StackFrame>,
}

/// Frames that take part in the grouping key.
pub const MAX_KEY_FRAMES: usize = 5;

/// Messages longer than this many characters are shortened in titles.
pub const TITLE_MAX_CHARS: usize = 100;

/// `file:function` of a frame; line and column are left out.
pub open spec fn frame_key(f: StackFrame) -> Seq<char> {
    f.filename@ + ":"@ + f.function@
}

/// The keys of the in-app frames, in order.
pub open spec fn in_app_keys(frames: Seq<StackFrame>) -> Seq<Seq<char>>
    decreases frames.len(),
{
    if frames.len() == 0 {
        Seq::empty()
    } else if frames.last().in_app {
        in_app_keys(frames.drop_last()).push(frame_key(frames.last()))
    } else {
        in_app_keys(frames.drop_last())
    }
}

/// At most the first `n` items.
pub open spec fn first_n<A>(s: Seq<A>, n: nat) -> Seq<A> {
    if s.len() <= n {
        s
    } else {
        s.take(n as int)
    }
}

/// A message with variable parts masked: single-quoted strings, then double-quoted strings,
/// then UUIDs, then dotted-quad addresses, then standalone runs of digits.
pub open spec fn normalized(message: Seq<char>) -> Seq<char> {
    let a = regex_replaced("'[^']*'"@, message, "'*'"@);
    let b = regex_replaced("\"[^\"]*\""@, a, "\"*\""@);
    let c = regex_replaced("[0-9a-f]{8}-[0-9a-f]{4}-[0-9a-f]{4}-[0-9a-f]{4}-[0-9a-f]{12}"@, b, "*"@);
    let d = regex_replaced("\\d{1,3}\\.\\d{1,3}\\.\\d{1,3}\\.\\d{1,3}"@, c, "*"@);
    regex_replaced("\\b\\d+\\b"@, d, "*"@)
}

/// The type as it enters the grouping text: its length in characters, a colon, then the
/// type itself, so that no separator inside a type name can make two types look alike.
pub open spec fn type_tag(t: Seq<char>) -> Seq<char> {
    decimal(t.len()) + ":"@ + t
}

/// The grouping components: the tagged type, the keys of the first five in-app frames, and
/// the normalized message.
pub open spec fn components(e: ExceptionInfo, normalized_message: Seq<char>) -> Seq<Seq<char>> {
    seq![type_tag(e.exception_type@)] + first_n(in_app_keys(e.stacktrace@), MAX_KEY_FRAMES as nat) + seq![normalized_message]
}

/// The text that is hashed for a grouping key.
pub open spec fn basis_of(e: ExceptionInfo, normalized_message: Seq<char>) -> Seq<char> {
    joined(components(e, normalized_message), "|"@)
}

/// Sixteen hex digits: the first eight bytes of the SHA-256 digest of the text's UTF-8 bytes.
pub open spec fn short_digest(text: Seq<char>) -> Seq<char> {
    hex_of(sha256_of(encode_utf8(text)).subrange(0, 8))
}

/// The grouping key of an exception.
pub open spec fn fingerprint_of(e: ExceptionInfo) -> Seq<char> {
    short_digest(basis_of(e, normalized(e.value@)))
}

/// Masks the variable parts of a message.
pub fn normalize_message(message: &str) -> (r: String)
    ensures
        r@ == normalized(message@),
{
    let a = replace_all_matches("'[^']*'", message, "'*'");
    let b = replace_all_matches("\"[^\"]*\"", a.as_str(), "\"*\"");
    let c = replace_all_matches(
        "[0-9a-f]{8}-[0-9a-f]{4}-[0-9a-f]{4}-[0-9a-f]{4}-[0-9a-f]{12}",
        b.as_str(),
        "*",
    );
    let d = replace_all_matches("\\d{1,3}\\.\\d{1,3}\\.\\d{1,3}\\.\\d{1,3}", c.as_str(), "*");
    replace_all_matches("\\b\\d+\\b", d.as_str(), "*")
}

fn type_tag_text(t: &str) -> (r: String)
    ensures
        r@ == type_tag(t@),
{
    let n = t.unicode_len();
    let mut s = to_decimal(n as u64);
    s.append(":");
    s.append(t);
    s
}

fn frame_key_text(f: &StackFrame) -> (r: String)
    ensures
        r@ == frame_key(*f),
{
    let mut s = copy_str(f.filename.as_str());
    s.append(":");
    s.append(f.function.as_str());
    s
}

/// The text hashed for the grouping key, given the exception's normalized message.
pub fn fingerprint_basis(exception: &ExceptionInfo, normalized_message: &str) -> (r: String)
    ensures
        r@ == basis_of(*exception, normalized_message@),
{
    let frames = &exception.stacktrace;
    let mut parts: Vec<String> = Vec::new();
    parts.push(type_tag_text(exception.exception_type.as_str()));
    let mut i: usize = 0;
    while i < frames.len()
        invariant
            i <= frames@.len(),
            frames == exception.stacktrace,
            views(parts@) == seq![type_tag(exception.exception_type@)] + first_n(
                in_app_keys(frames@.subrange(0, i as int)),
                MAX_KEY_FRAMES as nat,
            ),
        decreases frames@.len() - i,
    {
        let ghost before = in_app_keys(frames@.subrange(0, i as int));
        let ghost before_parts = parts@;
        proof {
            assert(frames@.subrange(0, i + 1).drop_last() =~= frames@.subrange(0, i as int));
        }
        if frames[i].in_app && parts.len() <= MAX_KEY_FRAMES {
            parts.push(frame_key_text(&frames[i]));
            proof {
                assert(views(parts@) =~= views(before_parts).push(frame_key(frames@[i as int])));
            }
        }
        i += 1;
        proof {
            let after = in_app_keys(frames@.subrange(0, i as int));
            assert(frames@.subrange(0, i as int).last() == frames@[i - 1]);
            if frames@[i - 1].in_app {
                assert(after == before.push(frame_key(frames@[i - 1])));
                if before.len() < MAX_KEY_FRAMES {
                    assert(first_n(after, MAX_KEY_FRAMES as nat) =~= first_n(before, MAX_KEY_FRAMES as nat).push(
                        frame_key(frames@[i - 1]),
                    ));
                } else {
                    assert(first_n(after, MAX_KEY_FRAMES as nat) =~= first_n(before, MAX_KEY_FRAMES as nat));
                }
            }
            assert(views(parts@) =~= seq![type_tag(exception.exception_type@)] + first_n(after, MAX_KEY_FRAMES as nat));
        }
    }
    let ghost before_parts = parts@;
    parts.push(copy_str(normalized_message));
    proof {
        assert(frames@.subrange(0, frames@.len() as int) =~= frames@);
        assert(views(parts@) =~= views(before_parts).push(normalized_message@));
        assert(views(parts@) =~= components(*exception, normalized_message@));
    }
    join_strings(&parts, "|")
}

/// Sixteen hex digits of the SHA-256 digest of a text.
pub fn short_hash(text: &str) -> (r: String)
    ensures
        r@ == short_digest(text@),
        r@.len() == 16,
        is_hex_text(r@),
{
    let digest = sha256(text.as_bytes());
    hex_prefix(digest.as_slice(), 8)
}

/// The grouping key of an exception: equal for exceptions of one type, with the same first
/// five in-app `file:function` frames and the same normalized message.
pub fn generate_fingerprint(exception: &ExceptionInfo) -> (r: String)
    ensures
        r@ == fingerprint_of(*exception),
        r@.len() == 16,
        is_hex_text(r@),
{
    let normalized_message = normalize_message(exception.value.as_str());
    let basis = fingerprint_basis(exception, normalized_message.as_str());
    short_hash(basis.as_str())
}

/// The message as a title shows it: longer than a hundred characters, it is cut to the
/// first ninety-seven and an ellipsis.
pub open spec fn short_message(v: Seq<char>) -> Seq<char> {
    if v.len() > TITLE_MAX_CHARS {
        v.take(97) + "..."@
    } else {
        v
    }
}

/// `type: message`, with the message shortened.
pub open spec fn title_of(e: ExceptionInfo) -> Seq<char> {
    e.exception_type@ + ": "@ + short_message(e.value@)
}

/// The title of an issue created for the exception.
pub fn generate_title(exception: &ExceptionInfo) -> (r: String)
    ensures
        r@ == title_of(*exception),
{
    let value = exception.value.as_str();
    let mut title = copy_str(exception.exception_type.as_str());
    title.append(": ");
    if value.unicode_len() > TITLE_MAX_CHARS {
        title.append(value.substring_char(0, 97));
        title.append("...");
    } else {
        title.append(value);
    }
    title
}

/// Frames that differ only in line, column and context give the same keys.
pub proof fn lemma_keys_ignore_positions(a: Seq<StackFrame>, b: Seq<StackFrame>)
    requires
        a.len() == b.len(),
        forall|i: int| 0 <= i < a.len() ==> {
            &&& (#[trigger] a[i]).filename@ == b[i].filename@
            &&& a[i].function@ == b[i].function@
            &&& a[i].in_app == b[i].in_app
        },
    ensures
        in_app_keys(a) == in_app_keys(b),
    decreases a.len(),
{
    if a.len() > 0 {
        lemma_keys_ignore_positions(a.drop_last(), b.drop_last());
        assert(a.last() == a[a.len() - 1]);
    }
}

/// Exceptions of one type, with the same first five in-app `file:function` frames and the
/// same normalized message, get the same grouping key, whatever their line numbers and
/// whatever quoted text, numbers, UUIDs or addresses their messages hold.
pub proof fn lemma_fingerprint_stable(e1: ExceptionInfo, e2: ExceptionInfo)
    requires
        e1.exception_type@ == e2.exception_type@,
        first_n(in_app_keys(e1.stacktrace@), MAX_KEY_FRAMES as nat) == first_n(
            in_app_keys(e2.stacktrace@),
            MAX_KEY_FRAMES as nat,
        ),
        normalized(e1.value@) == normalized(e2.value@),
    ensures
        fingerprint_of(e1) == fingerprint_of(e2),
{
    assert(components(e1, normalized(e1.value@)) =~= components(e2, normalized(e2.value@)));
}

/// A join of two or more parts is the first part, the separator, and the join of the rest.
pub proof fn lemma_joined_head(parts: Seq<Seq<char>>, sep: Seq<char>)
    requires
        parts.len() >= 2,
    ensures
        joined(parts, sep) == parts[0] + sep + joined(parts.drop_first(), sep),
    decreases parts.len(),
{
    if parts.len() == 2 {
        assert(parts.drop_first().len() == 1);
        assert(parts.drop_last().len() == 1);
        assert(joined(parts.drop_last(), sep) == parts[0]);
        assert(joined(parts.drop_first(), sep) == parts[1]);
        assert(parts.last() == parts[1]);
        assert(parts.drop_first()[0] == parts[1]);
    } else {
        lemma_joined_head(parts.drop_last(), sep);
        assert(parts.drop_last().drop_first() =~= parts.drop_first().drop_last());
        assert(parts.drop_first().last() == parts.last());
        assert(parts.drop_last()[0] == parts[0]);
        assert(joined(parts, sep) =~= parts[0] + sep + joined(parts.drop_first(), sep));
    }
}

/// Exceptions of different types never share the text that is hashed for their grouping
/// keys, whatever their frames and messages. (Whether two different texts could share a
/// truncated digest is a property of SHA-256 and is not claimed.)
pub proof fn lemma_types_discriminate(e1: ExceptionInfo, e2: ExceptionInfo, n1: Seq<char>, n2: Seq<char>)
    requires
        e1.exception_type@ != e2.exception_type@,
    ensures
        basis_of(e1, n1) != basis_of(e2, n2),
{
    let t1 = e1.exception_type@;
    let t2 = e2.exception_type@;
    let c1 = components(e1, n1);
    let c2 = components(e2, n2);
    lemma_joined_head(c1, "|"@);
    lemma_joined_head(c2, "|"@);
    reveal_strlit(":");
    lemma_decimal_digits(t1.len());
    lemma_decimal_digits(t2.len());
    let d1 = decimal(t1.len());
    let d2 = decimal(t2.len());
    let b1 = basis_of(e1, n1);
    let b2 = basis_of(e2, n2);
    assert(c1[0] == type_tag(t1));
    assert(c2[0] == type_tag(t2));
    assert(b1 == type_tag(t1) + "|"@ + joined(c1.drop_first(), "|"@));
    assert(b2 == type_tag(t2) + "|"@ + joined(c2.drop_first(), "|"@));
    assert(forall|i: int| 0 <= i < d1.len() ==> b1[i] == d1[i]);
    assert(forall|i: int| 0 <= i < d2.len() ==> b2[i] == d2[i]);
    assert(b1[d1.len() as int] == ':');
    assert(b2[d2.len() as int] == ':');
    assert(forall|i: int| 0 <= i < t1.len() ==> b1[d1.len() + 1 + i] == t1[i]);
    assert(forall|i: int| 0 <= i < t2.len() ==> b2[d2.len() + 1 + i] == t2[i]);
    if b1 == b2 {
        if d1.len() < d2.len() {
            assert(is_digit(d2[d1.len() as int]));
        } else if d2.len() < d1.len() {
            assert(is_digit(d1[d2.len() as int]));
        } else {
            assert(d1 =~= d2) by {
                assert forall|i: int| 0 <= i < d1.len() implies d1[i] == d2[i] by {
                    assert(b1[i] == d1[i]);
                    assert(b2[i] == d2[i]);
                }
            }
            lemma_decimal_injective(t1.len(), t2.len());
            assert(t1 =~= t2) by {
                assert forall|i: int| 0 <= i < t1.len() implies t1[i] == t2[i] by {
                    assert(b1[d1.len() + 1 + i] == t1[i]);
                    assert(b2[d2.len() + 1 + i] == t2[i]);
                }
            }
        }
    }
}

} // verus!
