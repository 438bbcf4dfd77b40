//! The literal substring matcher and the match-set well-formedness
//! predicates shared by both matching modes.
//!
//! Matching scans left to right and enumerates non-overlapping matches:
//! an accepted match resumes the scan at its end, a rejected candidate
//! resumes one character later. Case folding, when enabled, folds the
//! ASCII letters `A`..`Z` onto their lower-case forms; the word-boundary
//! test treats ASCII letters, digits and `_` as word characters.

use vstd::prelude::*;

verus! {

/// The scalar value of `c` folded for comparison: lower-cased when `ci`
/// (case-insensitive) is set and `c` is an ASCII capital letter.
pub open spec fn fold_cp(c: char, ci: bool) -> int {
    if ci && 65 <= c as u32 <= 90 {
        c as u32 + 32
    } else {
        c as u32 as int
    }
}

/// Executable twin of [`fold_cp`].
pub fn fold_cp_exec(c: char, ci: bool) -> (r: u32)
    ensures
        r as int == fold_cp(c, ci),
{
    let u: u32 = c as u32;
    if ci && 65 <= u && u <= 90 {
        u + 32
    } else {
        u
    }
}

/// Whether `c` counts as a word character for the word-boundary test:
/// an ASCII letter, an ASCII digit, or `_`.
pub open spec fn is_word_char(c: char) -> bool {
    ||| 48 <= c as u32 <= 57
    ||| 65 <= c as u32 <= 90
    ||| 97 <= c as u32 <= 122
    ||| c as u32 == 95
}

/// Executable twin of [`is_word_char`].
pub fn is_word_char_exec(c: char) -> (r: bool)
    ensures
        r == is_word_char(c),
{
    let u: u32 = c as u32;
    (48 <= u && u <= 57) || (65 <= u && u <= 90) || (97 <= u && u <= 122) || u == 95
}

/// Whether the half-open range `(start, end)` of `text` sits on word
/// boundaries: neither the character before it nor the one after it is a
/// word character.
pub open spec fn on_word_boundary(text: Seq<char>, start: int, end: int) -> bool {
    &&& (start == 0 || !is_word_char(text[start - 1]))
    &&& (end == text.len() || !is_word_char(text[end]))
}

/// Executable twin of [`on_word_boundary`].
pub fn on_word_boundary_exec(text: &Vec<char>, start: usize, end: usize) -> (r: bool)
    requires
        start <= end <= text@.len(),
    ensures
        r == on_word_boundary(text@, start as int, end as int),
{
    let left_ok = start == 0 || !is_word_char_exec(text[start - 1]);
    let right_ok = end == text.len() || !is_word_char_exec(text[end]);
    left_ok && right_ok
}

/// Whether the pattern matches at position `i` of `text`, under the given
/// case folding.
pub open spec fn match_at(text: Seq<char>, pat: Seq<char>, ci: bool, i: int) -> bool {
    &&& 0 <= i
    &&& i + pat.len() <= text.len()
    &&& forall|j: int| 0 <= j < pat.len() ==> fold_cp(text[i + j], ci) == fold_cp(pat[j], ci)
}

/// Whether a candidate match at `i` is accepted: the pattern matches and,
/// when `ww` (whole-word) is set, the match sits on word boundaries.
pub open spec fn accepted_at(text: Seq<char>, pat: Seq<char>, ci: bool, ww: bool, i: int) -> bool {
    &&& match_at(text, pat, ci, i)
    &&& (ww ==> on_word_boundary(text, i, i + pat.len()))
}

/// All accepted matches of a non-empty pattern from scan position `i` on,
/// left to right and non-overlapping.
pub open spec fn matches_from(text: Seq<char>, pat: Seq<char>, ci: bool, ww: bool, i: int) -> Seq<
    (usize, usize),
>
    decreases text.len() - i,
{
    if pat.len() == 0 || i < 0 || i + pat.len() > text.len() {
        Seq::empty()
    } else if accepted_at(text, pat, ci, ww, i) {
        seq![(i as usize, (i + pat.len()) as usize)].add(
            matches_from(text, pat, ci, ww, i + pat.len()),
        )
    } else {
        matches_from(text, pat, ci, ww, i + 1)
    }
}

/// The match set of the literal matcher: empty for an empty pattern.
pub open spec fn literal_matches(text: Seq<char>, pat: Seq<char>, ci: bool, ww: bool) -> Seq<
    (usize, usize),
> {
    matches_from(text, pat, ci, ww, 0)
}

/// Well-formedness of a match set against a text of `n` characters:
/// every range is half-open, in bounds, and consecutive ranges are in
/// ascending order and do not overlap.
pub open spec fn matches_wf(ms: Seq<(usize, usize)>, n: int) -> bool {
    &&& forall|k: int| #![trigger ms[k]] 0 <= k < ms.len() ==> ms[k].0 <= ms[k].1 <= n
    &&& forall|k: int| #![trigger ms[k]] 0 <= k && k + 1 < ms.len() ==> ms[k].1 <= ms[k + 1].0
}

/// Every match set the literal matcher produces is well-formed, and every
/// range in it starts no earlier than the scan position it was found from.
pub proof fn lemma_matches_from_wf(text: Seq<char>, pat: Seq<char>, ci: bool, ww: bool, i: int)
    requires
        text.len() <= usize::MAX,
    ensures
        matches_wf(matches_from(text, pat, ci, ww, i), text.len() as int),
        forall|k: int| #![trigger matches_from(text, pat, ci, ww, i)[k]]
            0 <= k < matches_from(text, pat, ci, ww, i).len() ==> i <= matches_from(
                text,
                pat,
                ci,
                ww,
                i,
            )[k].0,
    decreases text.len() - i,
{
    if pat.len() == 0 || i < 0 || i + pat.len() > text.len() {
    } else if accepted_at(text, pat, ci, ww, i) {
        lemma_matches_from_wf(text, pat, ci, ww, i + pat.len() as int);
        let head = seq![(i as usize, (i + pat.len()) as usize)];
        let rest = matches_from(text, pat, ci, ww, i + pat.len());
        let ms = matches_from(text, pat, ci, ww, i);
        assert(ms == head.add(rest));
        assert forall|k: int| 0 <= k < ms.len() implies ms[k].0 <= ms[k].1 <= text.len()
            && i <= ms[k].0 by {
            if k > 0 {
                assert(head.add(rest)[k] == rest[k - 1]);
            } else {
                assert(head.add(rest)[0] == head[0]);
            }
        }
        assert forall|k: int| 0 <= k && k + 1 < ms.len() implies ms[k].1 <= ms[k + 1].0 by {
            assert(head.add(rest)[k + 1] == rest[k]);
            if k > 0 {
                assert(head.add(rest)[k] == rest[k - 1]);
            } else {
                assert(head.add(rest)[0] == head[0]);
            }
        }
    } else {
        lemma_matches_from_wf(text, pat, ci, ww, i + 1);
    }
}

/// Law (soundness): every range the literal matcher reports is an accepted
/// match — the pattern matches there, the word-boundary rule holds when
/// asked, and the range spans exactly the pattern.
pub proof fn lemma_matches_from_sound(text: Seq<char>, pat: Seq<char>, ci: bool, ww: bool, i: int)
    requires
        text.len() <= usize::MAX,
    ensures
        forall|k: int| #![trigger matches_from(text, pat, ci, ww, i)[k]]
            0 <= k < matches_from(text, pat, ci, ww, i).len() ==> {
                let m = matches_from(text, pat, ci, ww, i)[k];
                &&& accepted_at(text, pat, ci, ww, m.0 as int)
                &&& m.1 == m.0 + pat.len()
            },
    decreases text.len() - i,
{
    if pat.len() == 0 || i < 0 || i + pat.len() > text.len() {
        assert(matches_from(text, pat, ci, ww, i).len() == 0);
    } else if accepted_at(text, pat, ci, ww, i) {
        lemma_matches_from_sound(text, pat, ci, ww, i + pat.len() as int);
        let head = seq![(i as usize, (i + pat.len()) as usize)];
        let rest = matches_from(text, pat, ci, ww, i + pat.len());
        let ms = matches_from(text, pat, ci, ww, i);
        assert(ms == head.add(rest));
        assert forall|k: int| #![trigger ms[k]] 0 <= k < ms.len() implies {
            let m = ms[k];
            &&& accepted_at(text, pat, ci, ww, m.0 as int)
            &&& m.1 == m.0 + pat.len()
        } by {
            if k > 0 {
                assert(head.add(rest)[k] == rest[k - 1]);
            } else {
                assert(head.add(rest)[0] == head[0]);
            }
        }
    } else {
        lemma_matches_from_sound(text, pat, ci, ww, i + 1);
        assert(matches_from(text, pat, ci, ww, i) == matches_from(text, pat, ci, ww, i + 1));
    }
}

/// Law (completeness): the literal matcher misses nothing — any position
/// at or after the scan position where the pattern is accepted lies inside
/// one of the reported ranges. With soundness, the match set is exactly
/// the non-overlapping left-to-right enumeration of the accepted matches.
pub proof fn lemma_matches_from_complete(
    text: Seq<char>,
    pat: Seq<char>,
    ci: bool,
    ww: bool,
    i: int,
    j: int,
)
    requires
        text.len() <= usize::MAX,
        0 <= i <= j,
        accepted_at(text, pat, ci, ww, j),
        pat.len() > 0,
    ensures
        exists|k: int|
            {
                let m = #[trigger] matches_from(text, pat, ci, ww, i)[k];
                &&& 0 <= k < matches_from(text, pat, ci, ww, i).len()
                &&& m.0 <= j < m.1
            },
    decreases text.len() - i,
{
    let ms = matches_from(text, pat, ci, ww, i);
    assert(j + pat.len() <= text.len());
    assert(i + pat.len() <= text.len());
    if accepted_at(text, pat, ci, ww, i) {
        let head = seq![(i as usize, (i + pat.len()) as usize)];
        let rest = matches_from(text, pat, ci, ww, i + pat.len());
        assert(ms == head.add(rest));
        if j < i + pat.len() {
            assert(ms[0] == head[0]);
            assert(ms[0].0 <= j < ms[0].1);
        } else {
            lemma_matches_from_complete(text, pat, ci, ww, i + pat.len() as int, j);
            let k0 = choose|k: int|
                {
                    let m = #[trigger] rest[k];
                    &&& 0 <= k < rest.len()
                    &&& m.0 <= j < m.1
                };
            assert(ms[k0 + 1] == head.add(rest)[k0 + 1]);
            assert(head.add(rest)[k0 + 1] == rest[k0]);
            assert(ms[k0 + 1].0 <= j < ms[k0 + 1].1);
        }
    } else {
        assert(i < j);
        lemma_matches_from_complete(text, pat, ci, ww, i + 1, j);
        let rest = matches_from(text, pat, ci, ww, i + 1);
        let k0 = choose|k: int|
            {
                let m = #[trigger] rest[k];
                &&& 0 <= k < rest.len()
                &&& m.0 <= j < m.1
            };
        assert(ms == rest);
        assert(ms[k0].0 <= j < ms[k0].1);
    }
}

/// Checks whether the pattern matches at position `i`.
fn match_at_exec(text: &Vec<char>, pat: &Vec<char>, ci: bool, i: usize) -> (r: bool)
    requires
        i + pat@.len() <= text@.len(),
    ensures
        r == match_at(text@, pat@, ci, i as int),
{
    let n: usize = text.len();
    let mut j: usize = 0;
    while j < pat.len()
        invariant
            n == text@.len(),
            i + pat@.len() <= text@.len(),
            0 <= j <= pat@.len(),
            forall|k: int| 0 <= k < j ==> fold_cp(text@[i + k], ci) == fold_cp(pat@[k], ci),
        decreases pat@.len() - j,
    {
        if fold_cp_exec(text[i + j], ci) != fold_cp_exec(pat[j], ci) {
            return false;
        }
        j = j + 1;
    }
    true
}

/// Enumerates all accepted matches of a literal pattern over `text`,
/// left to right and non-overlapping.
pub fn literal_find_all(text: &Vec<char>, pat: &Vec<char>, ci: bool, ww: bool) -> (r: Vec<
    (usize, usize),
>)
    ensures
        r@ == literal_matches(text@, pat@, ci, ww),
        matches_wf(r@, text@.len() as int),
{
    let n: usize = text.len();
    proof {
        lemma_matches_from_wf(text@, pat@, ci, ww, 0);
    }
    let mut r: Vec<(usize, usize)> = Vec::new();
    if pat.len() == 0 || pat.len() > text.len() {
        proof {
            assert(literal_matches(text@, pat@, ci, ww) =~= Seq::<(usize, usize)>::empty());
        }
        return r;
    }
    let mut i: usize = 0;
    while i <= text.len() - pat.len()
        invariant
            0 < pat@.len(),
            pat@.len() <= text@.len(),
            0 <= i <= text@.len(),
            literal_matches(text@, pat@, ci, ww) == r@ + matches_from(
                text@,
                pat@,
                ci,
                ww,
                i as int,
            ),
        decreases text@.len() - i,
    {
        if match_at_exec(text, pat, ci, i) && (!ww || on_word_boundary_exec(
            text,
            i,
            i + pat.len(),
        )) {
            r.push((i, i + pat.len()));
            i = i + pat.len();
        } else {
            i = i + 1;
        }
        proof {
            assert(literal_matches(text@, pat@, ci, ww) =~= r@ + matches_from(
                text@,
                pat@,
                ci,
                ww,
                i as int,
            ));
        }
    }
    proof {
        assert(matches_from(text@, pat@, ci, ww, i as int) =~= Seq::<(usize, usize)>::empty());
        assert(r@ =~= r@ + Seq::<(usize, usize)>::empty());
    }
    r
}

} // verus!
