//! The boundary of the proofs: calls into other crates and into parts of the
//! standard library that carry no specification. Every contract in this file
//! is assumed, not proved; everything else in the crate is proved from them.

use vstd::prelude::*;
use crate::models::Timestamp;

verus! {

/// The media type that `mime_guess` associates with a path, as text.
pub uninterp spec fn mime_type_of(path: Seq<char>) -> Seq<char>;

/// The extension that `std::path::Path::extension` finds in a path. The
/// three names for `std::path` read nothing but the text of the path, by the
/// path rules of the platform that the crate is built for.
pub uninterp spec fn file_extension_of(path: Seq<char>) -> Option<Seq<char>>;

/// The stem that `std::path::Path::file_stem` finds in a path.
pub uninterp spec fn file_stem_of(path: Seq<char>) -> Option<Seq<char>>;

/// The parent that `std::path::Path::parent` finds for a path.
pub uninterp spec fn parent_of(path: Seq<char>) -> Option<Seq<char>>;

/// Whether `char::is_whitespace` holds of a character beyond ASCII.
pub uninterp spec fn is_wide_whitespace(c: char) -> bool;

/// White space as `char::is_whitespace` has it. Within ASCII these are the
/// space and the five characters from the tabulator to the carriage return;
/// beyond ASCII the answer is the function's own.
pub open spec fn is_whitespace(c: char) -> bool {
    if (c as u32) < 128 {
        c == ' ' || 9 <= (c as u32) <= 13
    } else {
        is_wide_whitespace(c)
    }
}

/// The media type used when nothing better is known.
pub open spec fn octet_stream() -> Seq<char> {
    "application/octet-stream"@
}

/// A lower-case hexadecimal digit.
pub open spec fn is_hex_digit(c: char) -> bool {
    ('0' <= c && c <= '9') || ('a' <= c && c <= 'f')
}

/// The hyphenated lower-case form of a UUID: 36 characters, hyphens after the
/// 8th, 12th, 16th and 20th digit, hexadecimal digits elsewhere.
pub open spec fn is_token(t: Seq<char>) -> bool {
    &&& t.len() == 36
    &&& forall|i: int|
        0 <= i < 36 ==> if i == 8 || i == 13 || i == 18 || i == 23 {
            #[trigger] t[i] == '-'
        } else {
            is_hex_digit(t[i])
        }
}

/// Calls `mime_guess::from_path(path).first_or_octet_stream()` and renders the
/// result as text. The crate looks only at the extension of the path, in a
/// table compiled into it, so the result is a function of the path alone; a
/// path without an extension yields `application/octet-stream`.
#[verifier::external_body]
pub(crate) fn guess_mime_type(path: &str) -> (mime: String)
    ensures
        mime@ == mime_type_of(path@),
        file_extension_of(path@) is None ==> mime@ == octet_stream(),
{
    mime_guess::from_path(path).first_or_octet_stream().to_string()
}

/// Calls `uuid::Uuid::new_v7` on the current system time and renders the
/// identifier with its `Display` impl. The value depends on the clock and on
/// random bits, so the contract states only the shape of the text.
#[verifier::external_body]
pub(crate) fn fresh_token() -> (token: String)
    ensures
        is_token(token@),
{
    uuid::Uuid::new_v7(uuid::Timestamp::now(uuid::NoContext)).to_string()
}

/// Calls `chrono::Utc::now` and keeps the seconds since the Unix epoch and
/// the nanoseconds within the second. Nothing is promised of the value.
#[verifier::external_body]
pub(crate) fn current_time() -> (now: Timestamp) {
    let now = chrono::Utc::now();
    Timestamp { secs: now.timestamp(), nanos: now.timestamp_subsec_nanos() }
}

/// Calls `std::path::Path::extension` on a path given as text.
#[verifier::external_body]
pub(crate) fn path_extension(path: &str) -> (extension: Option<String>)
    ensures
        match extension {
            Some(e) => file_extension_of(path@) == Some(e@),
            None => file_extension_of(path@) is None,
        },
{
    std::path::Path::new(path).extension().and_then(|e| e.to_str()).map(|e| e.to_string())
}

/// Calls `std::path::Path::file_stem` on a path given as text.
#[verifier::external_body]
pub(crate) fn path_file_stem(path: &str) -> (stem: Option<String>)
    ensures
        match stem {
            Some(s) => file_stem_of(path@) == Some(s@),
            None => file_stem_of(path@) is None,
        },
{
    std::path::Path::new(path).file_stem().and_then(|s| s.to_str()).map(|s| s.to_string())
}

/// Calls `std::path::Path::parent` on a path given as text.
#[verifier::external_body]
pub(crate) fn path_parent(path: &str) -> (parent: Option<String>)
    ensures
        match parent {
            Some(p) => parent_of(path@) == Some(p@),
            None => parent_of(path@) is None,
        },
{
    std::path::Path::new(path).parent().and_then(|p| p.to_str()).map(|p| p.to_string())
}

/// Calls `char::is_whitespace`: the Unicode property `White_Space`, which
/// within ASCII holds of U+0009 to U+000D and of the space, and of nothing
/// else.
#[verifier::external_body]
pub(crate) fn char_is_whitespace(c: char) -> (b: bool)
    ensures
        b == is_whitespace(c),
        (c as u32) >= 128 ==> b == is_wide_whitespace(c),
{
    c.is_whitespace()
}

} // verus!
