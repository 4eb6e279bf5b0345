//! What the request log says: the summary of a request's body and the
//! timestamp at the head of a line.

use vstd::prelude::*;
use crate::text::{natural_numeral, push_natural, same_text};

verus! {

/// `needle` occurs in `haystack` as a run of consecutive characters.
pub open spec fn contains_text(haystack: Seq<char>, needle: Seq<char>) -> bool {
    exists|i: int|
        0 <= i <= haystack.len() - needle.len() && #[trigger] haystack.subrange(i, i + needle.len())
            == needle
}

/// Calls `str::contains` with a text as the pattern: whether the pattern
/// occurs in the text as a substring.
#[verifier::external_body]
fn text_contains(haystack: &str, needle: &str) -> (found: bool)
    ensures
        found == contains_text(haystack@, needle@),
{
    haystack.contains(needle)
}

/// The method sends a body along.
pub open spec fn carries_body(method: Seq<char>) -> bool {
    method == "POST"@ || method == "PUT"@ || method == "PATCH"@
}

/// The log's summary of a request's body, from the method and the content
/// type: nothing for a method without a body; else the kind of the content,
/// and the content type itself where the kind is not known. A request without
/// a content type is summarised as of type `unknown`.
pub open spec fn spec_body_summary(method: Seq<char>, content_type: Option<Seq<char>>) -> Seq<char> {
    let content_type = match content_type {
        Some(content_type) => content_type,
        None => "unknown"@,
    };
    if !carries_body(method) {
        Seq::empty()
    } else if contains_text(content_type, "application/json"@) {
        "[json_body]"@
    } else if contains_text(content_type, "multipart/form-data"@) || contains_text(
        content_type,
        "application/x-www-form-urlencoded"@,
    ) {
        "[form_data]"@
    } else {
        "[content_type: "@ + content_type + "]"@
    }
}

/// The log's summary of a request's body.
pub fn body_summary(method: &str, content_type: Option<&str>) -> (summary: String)
    ensures
        summary@ == spec_body_summary(method@, text_of(content_type)),
{
    let content_type = match content_type {
        Some(content_type) => content_type,
        None => "unknown",
    };
    if !(same_text(method, "POST") || same_text(method, "PUT") || same_text(method, "PATCH")) {
        String::new()
    } else if text_contains(content_type, "application/json") {
        String::from_str("[json_body]")
    } else if text_contains(content_type, "multipart/form-data") || text_contains(
        content_type,
        "application/x-www-form-urlencoded",
    ) {
        String::from_str("[form_data]")
    } else {
        String::from_str("[content_type: ").concat(content_type).concat("]")
    }
}

/// The view of an optional borrowed text.
pub open spec fn text_of(text: Option<&str>) -> Option<Seq<char>> {
    match text {
        Some(text) => Some(text@),
        None => None,
    }
}

/// The numeral of `n`, with zeros in front up to `width` digits, for a width
/// of at most three.
pub open spec fn padded_numeral(n: nat, width: nat) -> Seq<char> {
    let hundreds: Seq<char> = if width >= 3 && n < 100 {
        seq!['0']
    } else {
        Seq::empty()
    };
    let tens: Seq<char> = if width >= 2 && n < 10 {
        seq!['0']
    } else {
        Seq::empty()
    };
    hundreds + tens + natural_numeral(n)
}

/// The timestamp at the head of a log line: the date, then hour, minute and
/// second in two digits each, then the milliseconds in three.
pub open spec fn spec_log_timestamp(date: Seq<char>, hour: u32, minute: u32, second: u32, millis: u32) -> Seq<
    char,
> {
    date + seq![' '] + padded_numeral(hour as nat, 2) + seq![':'] + padded_numeral(minute as nat, 2)
        + seq![':'] + padded_numeral(second as nat, 2) + seq![','] + padded_numeral(millis as nat, 3)
}

/// Appends the numeral of `n`, padded with zeros to `width` digits.
fn push_padded(out: &mut String, n: u32, width: u8)
    ensures
        final(out)@ == old(out)@ + padded_numeral(n as nat, width as nat),
{
    proof {
        reveal_strlit("0");
    }
    if width >= 3 && n < 100 {
        out.append("0");
    }
    if width >= 2 && n < 10 {
        out.append("0");
    }
    push_natural(out, n as u64);
    assert(final(out)@ =~= old(out)@ + padded_numeral(n as nat, width as nat));
}

/// The timestamp at the head of a log line, such as `2026-02-15 10:19:12,638`.
pub fn log_timestamp(date: &str, hour: u32, minute: u32, second: u32, millis: u32) -> (text: String)
    ensures
        text@ == spec_log_timestamp(date@, hour, minute, second, millis),
{
    proof {
        reveal_strlit(" ");
        reveal_strlit(":");
        reveal_strlit(",");
    }
    let mut text = String::from_str(date);
    text.append(" ");
    push_padded(&mut text, hour, 2);
    text.append(":");
    push_padded(&mut text, minute, 2);
    text.append(":");
    push_padded(&mut text, second, 2);
    text.append(",");
    push_padded(&mut text, millis, 3);
    assert(text@ =~= spec_log_timestamp(date@, hour, minute, second, millis));
    text
}

} // verus!
