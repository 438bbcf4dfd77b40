//! Character-level text utilities shared by the search and replace engines.
//!
//! The buffer is modelled as a sequence of Unicode scalar values. Match
//! ranges are half-open `(start, end)` pairs of character indices into that
//! sequence. The regular-expression engine reports byte offsets into the
//! UTF-8 encoding of the buffer, so a conversion from byte offsets to
//! character indices is provided here.

use vstd::prelude::*;
use vstd::string::StrSliceExecFns;

verus! {

/// Collects the characters of a string slice into a vector.
pub fn chars_vec(s: &str) -> (r: Vec<char>)
    ensures
        r@ == s@,
{
    let n: usize = s.unicode_len();
    let mut r: Vec<char> = Vec::new();
    let mut i: usize = 0;
    while i < n
        invariant
            n == s@.len(),
            0 <= i <= n,
            r@ == s@.take(i as int),
        decreases n - i,
    {
        r.push(s.get_char(i));
        i = i + 1;
        proof {
            assert(r@ =~= s@.take(i as int));
        }
    }
    proof {
        assert(r@ =~= s@);
    }
    r
}

/// The number of bytes the UTF-8 encoding of one scalar value takes.
pub open spec fn char_byte_len(c: char) -> int {
    vstd::utf8::encode_scalar(c as u32).len() as int
}

/// Executable twin of [`char_byte_len`].
pub fn char_byte_len_exec(c: char) -> (r: usize)
    ensures
        r as int == char_byte_len(c),
{
    proof {
        vstd::utf8::char_is_scalar(c);
    }
    let u: u32 = c as u32;
    if u < 0x80 {
        1
    } else if u < 0x800 {
        2
    } else if u < 0x10000 {
        3
    } else {
        4
    }
}

/// The index of the character of `t` that the byte offset `b` into the
/// UTF-8 encoding of `t` falls in; `t.len()` when `b` is at or past the end.
pub open spec fn char_index_of_byte(t: Seq<char>, b: int) -> int
    decreases t.len(),
{
    if t.len() == 0 || b < char_byte_len(t[0]) {
        0
    } else {
        1 + char_index_of_byte(t.drop_first(), b - char_byte_len(t[0]))
    }
}

/// The character index never exceeds the length of the text.
pub proof fn lemma_char_index_le_len(t: Seq<char>, b: int)
    ensures
        0 <= char_index_of_byte(t, b) <= t.len(),
    decreases t.len(),
{
    if t.len() == 0 || b < char_byte_len(t[0]) {
    } else {
        lemma_char_index_le_len(t.drop_first(), b - char_byte_len(t[0]));
    }
}

/// The character index is monotone in the byte offset.
pub proof fn lemma_char_index_monotone(t: Seq<char>, b1: int, b2: int)
    requires
        b1 <= b2,
    ensures
        char_index_of_byte(t, b1) <= char_index_of_byte(t, b2),
    decreases t.len(),
{
    if t.len() == 0 || b1 < char_byte_len(t[0]) {
        lemma_char_index_le_len(t, b2);
        if t.len() != 0 && b2 >= char_byte_len(t[0]) {
            lemma_char_index_le_len(t.drop_first(), b2 - char_byte_len(t[0]));
        }
    } else {
        lemma_char_index_monotone(t.drop_first(), b1 - char_byte_len(t[0]), b2 - char_byte_len(t[0]));
    }
}

/// Executable twin of [`char_index_of_byte`], over a character vector.
pub fn byte_to_char_index(t: &Vec<char>, b: usize) -> (r: usize)
    ensures
        r as int == char_index_of_byte(t@, b as int),
        r <= t.len(),
{
    let mut i: usize = 0;
    let mut consumed: usize = 0;
    proof {
        assert(t@.skip(0) =~= t@);
    }
    while i < t.len()
        invariant
            0 <= i <= t@.len(),
            consumed <= b,
            char_index_of_byte(t@, b as int) == i + char_index_of_byte(
                t@.skip(i as int),
                b - consumed,
            ),
        decreases t@.len() - i,
    {
        let l: usize = char_byte_len_exec(t[i]);
        proof {
            assert(t@.skip(i as int)[0] == t@[i as int]);
        }
        if l <= b - consumed {
            proof {
                assert(t@.skip(i as int).drop_first() =~= t@.skip(i as int + 1));
            }
            consumed = consumed + l;
            i = i + 1;
        } else {
            proof {
                assert(char_index_of_byte(t@.skip(i as int), b - consumed) == 0);
            }
            proof {
                lemma_char_index_le_len(t@, b as int);
            }
            return i;
        }
    }
    proof {
        assert(t@.skip(i as int) =~= Seq::<char>::empty());
        lemma_char_index_le_len(t@, b as int);
    }
    i
}

} // verus!
