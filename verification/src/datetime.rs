//! Date/time formatting for the renderer, delegated to the `chrono` crate.
//!
//! A metadata record carries its capture timestamp as text in the fixed EXIF
//! layout `YYYY:MM:DD HH:MM:SS`. Whether that text parses, and what a
//! strftime-style directive produces for it, are both functions of the text
//! alone; they are named here and computed by trusted wrappers.

use std::fmt::Write;

use vstd::prelude::*;

verus! {

/// Whether a capture timestamp parses under the fixed EXIF layout.
pub uninterp spec fn spec_exif_datetime_valid(s: Seq<char>) -> bool;

/// The text chrono's formatter produces for the timestamp parsed from `s`
/// under the directive `pattern`.
pub uninterp spec fn spec_strftime(s: Seq<char>, pattern: Seq<char>) -> Seq<char>;

/// Relies on `chrono::NaiveDateTime::parse_from_str` with the fixed layout
/// `%Y:%m:%d %H:%M:%S`: whether parsing succeeds depends on the input text
/// alone.
#[verifier::external_body]
pub(crate) fn exif_datetime_parses(s: &str) -> (r: bool)
    ensures
        r == spec_exif_datetime_valid(s@),
{
    chrono::NaiveDateTime::parse_from_str(s, "%Y:%m:%d %H:%M:%S").is_ok()
}

/// Relies on `chrono::NaiveDateTime::parse_from_str` (same fixed layout) and
/// `chrono::NaiveDateTime::format`: a naive date/time has no time zone and
/// chrono formats it without consulting any locale, so the text written is a
/// function of the timestamp text and the directive alone. An unrecognised
/// directive makes the formatter's `write` fail; the empty string is
/// returned then, rather than panicking as `to_string` would.
#[verifier::external_body]
pub(crate) fn strftime(s: &str, pattern: &str) -> (r: String)
    requires
        spec_exif_datetime_valid(s@),
    ensures
        r@ == spec_strftime(s@, pattern@),
{
    match chrono::NaiveDateTime::parse_from_str(s, "%Y:%m:%d %H:%M:%S") {
        Ok(dt) => {
            let mut out = String::new();
            match write!(out, "{}", dt.format(pattern)) {
                Ok(()) => out,
                Err(_) => String::new(),
            }
        },
        Err(_) => String::new(),
    }
}

} // verus!
