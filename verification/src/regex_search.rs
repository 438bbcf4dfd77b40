//! The regular-expression matching mode, built on the `regex` crate.
//!
//! The engine reports half-open byte-offset ranges into the UTF-8 encoding
//! of the text. What those ranges are is a function of the pattern, the
//! case-sensitivity flag, and the text alone, so the result is named here
//! and the rest of the search engine is verified against that name.

use vstd::prelude::*;
use vstd::utf8::encode_utf8;

verus! {

/// Whether the engine accepts `pattern` as a valid regular expression when
/// compiled with the given case-insensitivity flag.
pub uninterp spec fn regex_ok(pattern: Seq<char>, ci: bool) -> bool;

/// The byte-offset match ranges the engine reports for `pattern`, compiled
/// with case-insensitivity `ci`, over `text`.
pub uninterp spec fn regex_byte_ranges(pattern: Seq<char>, ci: bool, text: Seq<char>) -> Seq<
    (usize, usize),
>;

/// Relies on `regex::RegexBuilder` (`new`, `case_insensitive`, `build`) and
/// `regex::Regex::find_iter`, one compile-and-search call into the engine:
/// `build` returns `Ok` exactly when the pattern is a valid regular
/// expression, and `find_iter` yields successive non-overlapping matches in
/// ascending order as half-open byte ranges within the haystack, each with
/// `start <= end`.
#[verifier::external_body]
pub fn regex_find_all(pattern: &str, ci: bool, text: &str) -> (r: Option<Vec<(usize, usize)>>)
    ensures
        r is Some <==> regex_ok(pattern@, ci),
        r is Some ==> r.unwrap()@ == regex_byte_ranges(pattern@, ci, text@),
        r is Some ==> forall|k: int| #![trigger regex_byte_ranges(pattern@, ci, text@)[k]]
            0 <= k < regex_byte_ranges(pattern@, ci, text@).len() ==> regex_byte_ranges(
                pattern@,
                ci,
                text@,
            )[k].0 <= regex_byte_ranges(pattern@, ci, text@)[k].1 <= encode_utf8(text@).len(),
        r is Some ==> forall|k: int| #![trigger regex_byte_ranges(pattern@, ci, text@)[k]]
            0 <= k && k + 1 < regex_byte_ranges(pattern@, ci, text@).len() ==> regex_byte_ranges(
                pattern@,
                ci,
                text@,
            )[k].1 <= regex_byte_ranges(pattern@, ci, text@)[k + 1].0,
{
    match regex::RegexBuilder::new(pattern).case_insensitive(ci).build() {
        Ok(re) => Some(re.find_iter(text).map(|m| (m.start(), m.end())).collect()),
        Err(_) => None,
    }
}

} // verus!
