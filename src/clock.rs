//! Wall-clock time, in milliseconds since the Unix epoch.
use vstd::prelude::*;
use vstd::string::*;

verus! {

/// Relies on `chrono::Utc::now` and `DateTime::timestamp_millis`: the current time.
/// Nothing is known of the value, which changes from call to call.
#[verifier::external_body]
pub(crate) fn now_millis() -> (r: i64) {
    chrono::Utc::now().timestamp_millis()
}

} // verus!

verus! {

/// The instant an RFC 3339 timestamp denotes, in milliseconds since the Unix epoch.
pub uninterp spec fn rfc3339_millis(s: Seq<char>) -> Option<i64>;

/// The instant a timestamp with an offset denotes, read in the given `strftime` form.
pub uninterp spec fn offset_format_millis(s: Seq<char>, format: Seq<char>) -> Option<i64>;

/// The instant a timestamp without offset denotes, read in the given form as UTC.
pub uninterp spec fn naive_format_millis(s: Seq<char>, format: Seq<char>) -> Option<i64>;

/// Relies on `chrono::DateTime::parse_from_rfc3339` and `timestamp_millis`: `None` when
/// the text is not an RFC 3339 timestamp.
#[verifier::external_body]
pub(crate) fn parse_rfc3339_millis(s: &str) -> (r: Option<i64>)
    ensures
        r == rfc3339_millis(s@),
{
    match chrono::DateTime::parse_from_rfc3339(s) {
        Ok(dt) => Some(dt.timestamp_millis()),
        Err(_) => None,
    }
}

/// Relies on `chrono::DateTime::parse_from_str`: the text read in the form, which must
/// hold an offset; `None` when it does not fit.
#[verifier::external_body]
pub(crate) fn parse_offset_format_millis(s: &str, format: &str) -> (r: Option<i64>)
    ensures
        r == offset_format_millis(s@, format@),
{
    match chrono::DateTime::parse_from_str(s, format) {
        Ok(dt) => Some(dt.timestamp_millis()),
        Err(_) => None,
    }
}

/// Relies on `chrono::NaiveDateTime::parse_from_str`, read as UTC: `None` when the text
/// does not fit the form.
#[verifier::external_body]
pub(crate) fn parse_naive_format_millis(s: &str, format: &str) -> (r: Option<i64>)
    ensures
        r == naive_format_millis(s@, format@),
{
    match chrono::NaiveDateTime::parse_from_str(s, format) {
        Ok(dt) => Some(dt.and_utc().timestamp_millis()),
        Err(_) => None,
    }
}

/// The forms with an offset that are tried after RFC 3339, in order.
pub open spec fn offset_formats() -> Seq<Seq<char>> {
    seq!["%Y-%m-%dT%H:%M:%S%.f%:z"@, "%Y-%m-%dT%H:%M:%S%:z"@, "%Y-%m-%dT%H:%M:%S%.f%z"@, "%Y-%m-%dT%H:%M:%S%z"@]
}

/// The forms without offset, read as UTC, in order.
pub open spec fn naive_formats() -> Seq<Seq<char>> {
    seq!["%Y-%m-%dT%H:%M:%S%.f"@, "%Y-%m-%dT%H:%M:%S"@, "%Y-%m-%d %H:%M:%S%.f"@, "%Y-%m-%d %H:%M:%S"@]
}

/// The forms tried on a text ending in `Z` once the `Z` is taken off.
pub open spec fn zulu_formats() -> Seq<Seq<char>> {
    seq!["%Y-%m-%dT%H:%M:%S%.f"@, "%Y-%m-%dT%H:%M:%S"@]
}

/// The first form of the list that reads the text.
pub open spec fn first_fit(s: Seq<char>, formats: Seq<Seq<char>>, with_offset: bool) -> Option<i64>
    decreases formats.len(),
{
    if formats.len() == 0 {
        None
    } else {
        let r = if with_offset {
            offset_format_millis(s, formats[0])
        } else {
            naive_format_millis(s, formats[0])
        };
        match r {
            Some(t) => Some(t),
            None => first_fit(s, formats.drop_first(), with_offset),
        }
    }
}

/// The instant a declared timestamp denotes: RFC 3339 first, then ISO 8601 forms with an
/// offset, then forms without one read as UTC, then the same with a trailing `Z` taken off.
pub open spec fn declared_millis(s: Seq<char>) -> Option<i64> {
    match rfc3339_millis(s) {
        Some(t) => Some(t),
        None => match first_fit(s, offset_formats(), true) {
            Some(t) => Some(t),
            None => match first_fit(s, naive_formats(), false) {
                Some(t) => Some(t),
                None => if s.len() > 0 && s.last() == 'Z' {
                    first_fit(s.drop_last(), zulu_formats(), false)
                } else {
                    None
                },
            },
        },
    }
}

fn try_formats(s: &str, formats: &Vec<&'static str>, with_offset: bool) -> (r: Option<i64>)
    ensures
        r == first_fit(s@, formats@.map_values(|f: &'static str| f@), with_offset),
{
    let ghost all = formats@.map_values(|f: &'static str| f@);
    proof {
        assert(all.skip(0) =~= all);
    }
    let mut i: usize = 0;
    while i < formats.len()
        invariant
            i <= formats@.len(),
            all == formats@.map_values(|f: &'static str| f@),
            first_fit(s@, all, with_offset) == first_fit(s@, all.skip(i as int), with_offset),
        decreases formats@.len() - i,
    {
        proof {
            let rest = all.skip(i as int);
            assert(rest[0] == formats@[i as int]@);
            assert(rest.drop_first() =~= all.skip(i + 1));
        }
        let r = if with_offset {
            parse_offset_format_millis(s, formats[i])
        } else {
            parse_naive_format_millis(s, formats[i])
        };
        if r.is_some() {
            return r;
        }
        i += 1;
    }
    proof {
        assert(all.skip(i as int).len() == 0);
    }
    None
}

/// Reads a declared timestamp.
pub fn parse_declared_time(s: &str) -> (r: Option<i64>)
    ensures
        r == declared_millis(s@),
{
    match parse_rfc3339_millis(s) {
        Some(t) => {
            return Some(t);
        },
        None => {},
    }
    let with_offset: Vec<&'static str> = vec![
        "%Y-%m-%dT%H:%M:%S%.f%:z",
        "%Y-%m-%dT%H:%M:%S%:z",
        "%Y-%m-%dT%H:%M:%S%.f%z",
        "%Y-%m-%dT%H:%M:%S%z",
    ];
    proof {
        assert(with_offset@.map_values(|f: &'static str| f@) =~= offset_formats());
    }
    match try_formats(s, &with_offset, true) {
        Some(t) => {
            return Some(t);
        },
        None => {},
    }
    let naive: Vec<&'static str> = vec![
        "%Y-%m-%dT%H:%M:%S%.f",
        "%Y-%m-%dT%H:%M:%S",
        "%Y-%m-%d %H:%M:%S%.f",
        "%Y-%m-%d %H:%M:%S",
    ];
    proof {
        assert(naive@.map_values(|f: &'static str| f@) =~= naive_formats());
    }
    match try_formats(s, &naive, false) {
        Some(t) => {
            return Some(t);
        },
        None => {},
    }
    let n = s.unicode_len();
    if n > 0 && s.get_char(n - 1) == 'Z' {
        let head = s.substring_char(0, n - 1);
        let zulu: Vec<&'static str> = vec!["%Y-%m-%dT%H:%M:%S%.f", "%Y-%m-%dT%H:%M:%S"];
        proof {
            assert(zulu@.map_values(|f: &'static str| f@) =~= zulu_formats());
            assert(head@ =~= s@.drop_last());
        }
        try_formats(head, &zulu, false)
    } else {
        None
    }
}

} // verus!
