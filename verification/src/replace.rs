//! The replace engine: splicing a replacement into one match range, and
//! rewriting every match of the current set in a single pass.
//!
//! Both operations are pure: they build the new buffer and leave it to the
//! document session to adopt it in one edit, so the caller sees either the
//! fully rewritten buffer or, on a rejected request, the old one — never an
//! intermediate state.

use vstd::prelude::*;
use vstd::string::{StrSliceExecFns, StringExecFns};

use crate::matcher::matches_wf;

verus! {

/// The buffer with `replacement` spliced into the half-open character
/// range `(start, end)`.
pub open spec fn spliced(text: Seq<char>, start: int, end: int, replacement: Seq<char>) -> Seq<
    char,
> {
    text.take(start) + replacement + text.skip(end)
}

/// Builds a new buffer from `text` by replacing the character range
/// `(start, end)` with `replacement`.
pub fn splice(text: &str, start: usize, end: usize, replacement: &str) -> (r: String)
    requires
        start <= end <= text@.len(),
    ensures
        r@ == spliced(text@, start as int, end as int, replacement@),
{
    let n: usize = text.unicode_len();
    let left = text.substring_char(0, start);
    let right = text.substring_char(end, n);
    let mut out = left.to_owned();
    out.append(replacement);
    out.append(right);
    proof {
        assert(text@.subrange(0, start as int) =~= text@.take(start as int));
        assert(text@.subrange(end as int, n as int) =~= text@.skip(end as int));
    }
    out
}

/// The buffer rewritten from character position `from` on: the spans
/// between consecutive matches are kept, each match range is replaced by
/// `replacement`.
pub open spec fn replaced_from(
    text: Seq<char>,
    ms: Seq<(usize, usize)>,
    replacement: Seq<char>,
    from: int,
) -> Seq<char>
    decreases ms.len(),
{
    if ms.len() == 0 {
        text.skip(from)
    } else {
        text.subrange(from, ms[0].0 as int) + replacement + replaced_from(
            text,
            ms.drop_first(),
            replacement,
            ms[0].1 as int,
        )
    }
}

/// The whole buffer with every match of `ms` replaced by `replacement`.
pub open spec fn all_replaced(
    text: Seq<char>,
    ms: Seq<(usize, usize)>,
    replacement: Seq<char>,
) -> Seq<char> {
    replaced_from(text, ms, replacement, 0)
}

/// Builds a new buffer from `text` by replacing every range of the
/// well-formed match set `ms` with `replacement`, in one left-to-right
/// pass.
pub fn replace_all(text: &str, ms: &Vec<(usize, usize)>, replacement: &str) -> (r: String)
    requires
        matches_wf(ms@, text@.len() as int),
    ensures
        r@ == all_replaced(text@, ms@, replacement@),
{
    let n: usize = text.unicode_len();
    let mut out = String::new();
    let mut pos: usize = 0;
    let mut k: usize = 0;
    proof {
        assert(ms@.skip(0) =~= ms@);
    }
    while k < ms.len()
        invariant
            n == text@.len(),
            matches_wf(ms@, text@.len() as int),
            0 <= k <= ms@.len(),
            k < ms@.len() ==> pos <= ms@[k as int].0,
            pos <= n,
            all_replaced(text@, ms@, replacement@) == out@ + replaced_from(
                text@,
                ms@.skip(k as int),
                replacement@,
                pos as int,
            ),
        decreases ms@.len() - k,
    {
        let (s, e): (usize, usize) = ms[k];
        proof {
            assert(ms@.skip(k as int)[0] == ms@[k as int]);
            assert(ms@.skip(k as int).drop_first() =~= ms@.skip(k as int + 1));
            if k + 1 < ms@.len() {
                assert(ms@.skip(k as int)[1] == ms@[k as int + 1]);
            }
        }
        out.append(text.substring_char(pos, s));
        out.append(replacement);
        pos = e;
        k = k + 1;
        proof {
            assert(all_replaced(text@, ms@, replacement@) =~= out@ + replaced_from(
                text@,
                ms@.skip(k as int),
                replacement@,
                pos as int,
            ));
        }
    }
    proof {
        assert(ms@.skip(k as int) =~= Seq::<(usize, usize)>::empty());
    }
    out.append(text.substring_char(pos, n));
    proof {
        assert(all_replaced(text@, ms@, replacement@) =~= out@);
    }
    out
}

} // verus!
