//! The search query: pattern, matching flags, the enumerated match set,
//! and the navigation cursor over it.
//!
//! The match set is an ordered sequence of half-open `(start, end)`
//! character ranges into the buffer, ascending and non-overlapping. It is
//! recomputed whenever the pattern, the flags, or the buffer change; the
//! contracts here pin the recomputed set down exactly, in both matching
//! modes.

use vstd::prelude::*;

use crate::matcher::{
    literal_matches, literal_find_all, matches_wf, on_word_boundary, on_word_boundary_exec,
};
use crate::regex_search::{regex_byte_ranges, regex_find_all, regex_ok};
use crate::text::{
    byte_to_char_index, char_index_of_byte, chars_vec, lemma_char_index_le_len,
    lemma_char_index_monotone,
};

verus! {

/// The independently toggleable matching rules.
#[derive(Clone, Copy, PartialEq, Eq, Structural, Debug)]
pub struct SearchFlags {
    /// Treat the pattern as a regular expression instead of a literal.
    pub regex_enabled: bool,
    /// Match case-sensitively; when off, matching is case-folded.
    pub case_sensitive: bool,
    /// Accept a match only when it sits on word boundaries.
    pub whole_word: bool,
}

/// The byte-offset ranges `rs` turned into character-index ranges of `t`.
pub open spec fn byte_ranges_to_char_ranges(t: Seq<char>, rs: Seq<(usize, usize)>) -> Seq<
    (usize, usize),
> {
    rs.map_values(
        |r: (usize, usize)|
            (
                char_index_of_byte(t, r.0 as int) as usize,
                char_index_of_byte(t, r.1 as int) as usize,
            ),
    )
}

/// The ranges of `rs` that sit on word boundaries of `t`, in order.
pub open spec fn word_filtered(t: Seq<char>, rs: Seq<(usize, usize)>) -> Seq<(usize, usize)>
    decreases rs.len(),
{
    if rs.len() == 0 {
        Seq::empty()
    } else if on_word_boundary(t, rs[0].0 as int, rs[0].1 as int) {
        seq![rs[0]].add(word_filtered(t, rs.drop_first()))
    } else {
        word_filtered(t, rs.drop_first())
    }
}

/// Filtering by word boundary preserves well-formedness of a match set.
pub proof fn lemma_word_filtered_wf(t: Seq<char>, rs: Seq<(usize, usize)>, n: int)
    requires
        matches_wf(rs, n),
    ensures
        matches_wf(word_filtered(t, rs), n),
        word_filtered(t, rs).len() > 0 ==> rs.len() > 0 && rs[0].0 <= word_filtered(t, rs)[0].0,
    decreases rs.len(),
{
    if rs.len() == 0 {
    } else {
        let rest = rs.drop_first();
        assert forall|k: int| 0 <= k < rest.len() implies (#[trigger] rest[k]) == rs[k + 1] by {}
        assert(matches_wf(rest, n));
        lemma_word_filtered_wf(t, rest, n);
        let fr = word_filtered(t, rest);
        if on_word_boundary(t, rs[0].0 as int, rs[0].1 as int) {
            let ms = word_filtered(t, rs);
            let head = seq![rs[0]];
            assert(ms == head.add(fr));
            assert forall|k: int| #![trigger ms[k]] 0 <= k < ms.len() implies ms[k].0 <= ms[k].1 <= n by {
                if k > 0 {
                    assert(head.add(fr)[k] == fr[k - 1]);
                } else {
                    assert(head.add(fr)[0] == rs[0]);
                }
            }
            assert forall|k: int| #![trigger ms[k]] 0 <= k && k + 1 < ms.len() implies ms[k].1 <= ms[k + 1].0 by {
                assert(head.add(fr)[k + 1] == fr[k]);
                if k > 0 {
                    assert(head.add(fr)[k] == fr[k - 1]);
                } else {
                    assert(head.add(fr)[0] == rs[0]);
                    if fr.len() > 0 {
                        assert(rest[0].0 <= fr[0].0);
                        assert(rs[0].1 <= rs[1].0);
                    }
                }
            }
        } else {
            if fr.len() > 0 {
                assert(rs[0].0 <= rs[0].1 <= rs[1].0 == rest[0].0);
            }
        }
    }
}

/// Converts engine byte ranges to character ranges of `text`; the result is
/// a well-formed match set whenever the input ranges are ordered.
fn convert_ranges(text: &Vec<char>, rs: &Vec<(usize, usize)>) -> (r: Vec<(usize, usize)>)
    requires
        forall|k: int| #![trigger rs@[k]] 0 <= k < rs@.len() ==> rs@[k].0 <= rs@[k].1,
        forall|k: int| #![trigger rs@[k]] 0 <= k && k + 1 < rs@.len() ==> rs@[k].1 <= rs@[k + 1].0,
    ensures
        r@ == byte_ranges_to_char_ranges(text@, rs@),
        matches_wf(r@, text@.len() as int),
{
    let n: usize = text.len();
    let mut r: Vec<(usize, usize)> = Vec::new();
    let mut k: usize = 0;
    while k < rs.len()
        invariant
            0 <= k <= rs@.len(),
            forall|j: int| #![trigger rs@[j]] 0 <= j < rs@.len() ==> rs@[j].0 <= rs@[j].1,
            r@ == byte_ranges_to_char_ranges(text@, rs@.take(k as int)),
        decreases rs@.len() - k,
    {
        let (bs, be): (usize, usize) = rs[k];
        let cs: usize = byte_to_char_index(text, bs);
        let ce: usize = byte_to_char_index(text, be);
        r.push((cs, ce));
        k = k + 1;
        proof {
            assert(r@ =~= byte_ranges_to_char_ranges(text@, rs@.take(k as int)));
        }
    }
    proof {
        assert(rs@.take(k as int) =~= rs@);
        assert(n == text@.len());
        assert forall|j: int| 0 <= j < r@.len() implies (#[trigger] r@[j]).0 <= r@[j].1
            <= text@.len() by {
            assert(r@[j] == byte_ranges_to_char_ranges(text@, rs@)[j]);
            assert(byte_ranges_to_char_ranges(text@, rs@)[j] == (
                char_index_of_byte(text@, rs@[j].0 as int) as usize,
                char_index_of_byte(text@, rs@[j].1 as int) as usize,
            ));
            lemma_char_index_monotone(text@, rs@[j].0 as int, rs@[j].1 as int);
            lemma_char_index_le_len(text@, rs@[j].1 as int);
            lemma_char_index_le_len(text@, rs@[j].0 as int);
        }
        assert forall|j: int| 0 <= j && j + 1 < r@.len() implies (#[trigger] r@[j]).1
            <= r@[j + 1].0 by {
            assert(r@[j] == (
                char_index_of_byte(text@, rs@[j].0 as int) as usize,
                char_index_of_byte(text@, rs@[j].1 as int) as usize,
            ));
            assert(r@[j + 1] == (
                char_index_of_byte(text@, rs@[j + 1].0 as int) as usize,
                char_index_of_byte(text@, rs@[j + 1].1 as int) as usize,
            ));
            lemma_char_index_le_len(text@, rs@[j].1 as int);
            lemma_char_index_le_len(text@, rs@[j + 1].0 as int);
            lemma_char_index_monotone(text@, rs@[j].1 as int, rs@[j + 1].0 as int);
        }
    }
    r
}

/// Keeps only the ranges that sit on word boundaries.
fn word_filter_exec(text: &Vec<char>, rs: &Vec<(usize, usize)>) -> (r: Vec<(usize, usize)>)
    requires
        matches_wf(rs@, text@.len() as int),
    ensures
        r@ == word_filtered(text@, rs@),
{
    let mut r: Vec<(usize, usize)> = Vec::new();
    let mut k: usize = 0;
    proof {
        assert(rs@.skip(0) =~= rs@);
    }
    while k < rs.len()
        invariant
            0 <= k <= rs@.len(),
            matches_wf(rs@, text@.len() as int),
            word_filtered(text@, rs@) == r@ + word_filtered(text@, rs@.skip(k as int)),
        decreases rs@.len() - k,
    {
        let (s, e): (usize, usize) = rs[k];
        proof {
            assert(rs@.skip(k as int)[0] == rs@[k as int]);
            assert(rs@.skip(k as int).drop_first() =~= rs@.skip(k as int + 1));
        }
        if on_word_boundary_exec(text, s, e) {
            r.push((s, e));
        }
        k = k + 1;
        proof {
            assert(word_filtered(text@, rs@) =~= r@ + word_filtered(text@, rs@.skip(k as int)));
        }
    }
    proof {
        assert(rs@.skip(k as int) =~= Seq::<(usize, usize)>::empty());
        assert(r@ =~= r@ + Seq::<(usize, usize)>::empty());
    }
    r
}

/// The match set a query yields over `text`: empty for an empty pattern or
/// an invalid regular expression; the literal matcher's set in literal
/// mode; the engine's ranges, converted to character ranges and filtered by
/// word boundary when asked, in regular-expression mode.
pub open spec fn computed_matches(pattern: Seq<char>, flags: SearchFlags, text: Seq<char>) -> Seq<
    (usize, usize),
> {
    if pattern.len() == 0 {
        Seq::empty()
    } else if !flags.regex_enabled {
        literal_matches(text, pattern, !flags.case_sensitive, flags.whole_word)
    } else if regex_ok(pattern, !flags.case_sensitive) {
        let cr = byte_ranges_to_char_ranges(
            text,
            regex_byte_ranges(pattern, !flags.case_sensitive, text),
        );
        if flags.whole_word {
            word_filtered(text, cr)
        } else {
            cr
        }
    } else {
        Seq::empty()
    }
}

/// Whether recomputing the query over some text runs into an invalid
/// regular expression.
pub open spec fn pattern_error_spec(pattern: Seq<char>, flags: SearchFlags) -> bool {
    flags.regex_enabled && pattern.len() > 0 && !regex_ok(pattern, !flags.case_sensitive)
}

/// Where `next` moves the navigation cursor: unchanged over an empty match
/// set; otherwise from nowhere to the first match, forward by one, and from
/// the last match back around to the first.
pub open spec fn next_index(active: Option<usize>, len: nat) -> Option<usize> {
    if len == 0 {
        active
    } else {
        match active {
            None => Some(0usize),
            Some(k) => if k + 1 == len {
                Some(0usize)
            } else {
                Some((k + 1) as usize)
            },
        }
    }
}

/// Where `previous` moves the navigation cursor: unchanged over an empty
/// match set; otherwise from nowhere to the last match, backward by one,
/// and from the first match around to the last.
pub open spec fn previous_index(active: Option<usize>, len: nat) -> Option<usize> {
    if len == 0 {
        active
    } else {
        match active {
            None => Some((len - 1) as usize),
            Some(k) => if k == 0 {
                Some((len - 1) as usize)
            } else {
                Some((k - 1) as usize)
            },
        }
    }
}

/// A compiled search query with its enumerated match set and navigation
/// cursor.
pub struct SearchQuery {
    /// The pattern; empty means search is inactive.
    pub pattern: String,
    /// The matching rules.
    pub flags: SearchFlags,
    /// Half-open character ranges of the current matches, ascending and
    /// non-overlapping.
    pub matches: Vec<(usize, usize)>,
    /// Index into `matches` of the active match; `None` before any
    /// navigation or when there are no matches.
    pub active_index: Option<usize>,
    /// Whether the last recomputation rejected the pattern as an invalid
    /// regular expression (the match set is then empty).
    pub pattern_error: bool,
}

impl SearchQuery {
    /// The navigation cursor is in range, and absent when there is nothing
    /// to navigate.
    pub open spec fn nav_wf(self) -> bool {
        match self.active_index {
            Some(k) => k < self.matches@.len(),
            None => true,
        }
    }

    /// A fresh, inactive query: empty pattern, all flags off.
    pub fn new() -> (q: Self)
        ensures
            q.pattern@ == Seq::<char>::empty(),
            q.flags == (SearchFlags { regex_enabled: false, case_sensitive: false, whole_word: false }),
            q.matches@ == Seq::<(usize, usize)>::empty(),
            q.active_index is None,
            !q.pattern_error,
            q.nav_wf(),
    {
        SearchQuery {
            pattern: String::new(),
            flags: SearchFlags { regex_enabled: false, case_sensitive: false, whole_word: false },
            matches: Vec::new(),
            active_index: None,
            pattern_error: false,
        }
    }

    /// Replaces the pattern; the stale match set is dropped until the next
    /// recomputation.
    pub fn set_pattern(&mut self, pattern: String)
        ensures
            final(self).pattern == pattern,
            final(self).flags == old(self).flags,
            final(self).matches@ == Seq::<(usize, usize)>::empty(),
            final(self).active_index is None,
            !final(self).pattern_error,
            final(self).nav_wf(),
    {
        self.pattern = pattern;
        self.matches = Vec::new();
        self.active_index = None;
        self.pattern_error = false;
    }

    /// Replaces the matching rules; the stale match set is dropped until
    /// the next recomputation.
    pub fn set_flags(&mut self, flags: SearchFlags)
        ensures
            final(self).pattern == old(self).pattern,
            final(self).flags == flags,
            final(self).matches@ == Seq::<(usize, usize)>::empty(),
            final(self).active_index is None,
            !final(self).pattern_error,
            final(self).nav_wf(),
    {
        self.flags = flags;
        self.matches = Vec::new();
        self.active_index = None;
        self.pattern_error = false;
    }

    /// Recomputes the match set against the current buffer content. The
    /// navigation cursor is reset; an invalid regular expression is
    /// reported through `pattern_error` and yields zero matches rather
    /// than an error.
    pub fn recompute(&mut self, content: &str)
        ensures
            final(self).pattern == old(self).pattern,
            final(self).flags == old(self).flags,
            final(self).matches@ == computed_matches(
                old(self).pattern@,
                old(self).flags,
                content@,
            ),
            final(self).active_index is None,
            final(self).pattern_error == pattern_error_spec(old(self).pattern@, old(self).flags),
            matches_wf(final(self).matches@, content@.len() as int),
            final(self).nav_wf(),
    {
        self.active_index = None;
        self.pattern_error = false;
        let text = chars_vec(content);
        let pat = chars_vec(self.pattern.as_str());
        if pat.len() == 0 {
            self.matches = Vec::new();
            return ;
        }
        if !self.flags.regex_enabled {
            self.matches = literal_find_all(&text, &pat, !self.flags.case_sensitive, self.flags.whole_word);
            return ;
        }
        match regex_find_all(self.pattern.as_str(), !self.flags.case_sensitive, content) {
            None => {
                self.pattern_error = true;
                self.matches = Vec::new();
            },
            Some(byte_ranges) => {
                let char_ranges = convert_ranges(&text, &byte_ranges);
                if self.flags.whole_word {
                    proof {
                        lemma_word_filtered_wf(
                            text@,
                            char_ranges@,
                            text@.len() as int,
                        );
                    }
                    self.matches = word_filter_exec(&text, &char_ranges);
                } else {
                    self.matches = char_ranges;
                }
            },
        }
    }

    /// Advances the navigation cursor: from nowhere to the first match,
    /// then forward, wrapping from the last match to the first. A no-op
    /// when there are no matches.
    pub fn next(&mut self)
        requires
            old(self).nav_wf(),
        ensures
            final(self).pattern == old(self).pattern,
            final(self).flags == old(self).flags,
            final(self).matches == old(self).matches,
            final(self).pattern_error == old(self).pattern_error,
            final(self).active_index == next_index(
                old(self).active_index,
                old(self).matches@.len(),
            ),
            final(self).nav_wf(),
    {
        if self.matches.len() == 0 {
            return ;
        }
        let next: usize = match self.active_index {
            None => 0,
            Some(k) => if k + 1 == self.matches.len() {
                0
            } else {
                k + 1
            },
        };
        self.active_index = Some(next);
    }

    /// Moves the navigation cursor backwards: from nowhere to the last
    /// match, then backward, wrapping from the first match to the last.
    /// A no-op when there are no matches.
    pub fn previous(&mut self)
        requires
            old(self).nav_wf(),
        ensures
            final(self).pattern == old(self).pattern,
            final(self).flags == old(self).flags,
            final(self).matches == old(self).matches,
            final(self).pattern_error == old(self).pattern_error,
            final(self).active_index == previous_index(
                old(self).active_index,
                old(self).matches@.len(),
            ),
            final(self).nav_wf(),
    {
        if self.matches.len() == 0 {
            return ;
        }
        let prev: usize = match self.active_index {
            None => self.matches.len() - 1,
            Some(k) => if k == 0 {
                self.matches.len() - 1
            } else {
                k - 1
            },
        };
        self.active_index = Some(prev);
    }

    /// The range of the active match, if navigation has selected one.
    pub fn active_match(&self) -> (r: Option<(usize, usize)>)
        requires
            self.nav_wf(),
        ensures
            match self.active_index {
                None => r is None,
                Some(k) => r == Some(self.matches@[k as int]),
            },
    {
        match self.active_index {
            None => None,
            Some(k) => Some(self.matches[k]),
        }
    }

    /// The number of matches in the current set.
    pub fn match_count(&self) -> (r: usize)
        ensures
            r == self.matches@.len(),
    {
        self.matches.len()
    }
}

} // verus!
