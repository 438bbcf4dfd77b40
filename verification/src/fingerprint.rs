//! Content fingerprints: a deterministic 64-bit hash of the buffer text,
//! used only for change (dirty) detection, never for content addressing.
//!
//! The hash is FNV-1a over the Unicode scalar values of the text.

use vstd::prelude::*;

verus! {

/// FNV-1a 64-bit offset basis.
pub const FNV_OFFSET: u64 = 0xcbf29ce484222325;

/// FNV-1a 64-bit prime.
pub const FNV_PRIME: u64 = 0x100000001b3;

/// One FNV-1a step: fold one scalar value into the running hash.
pub open spec fn fnv_step(h: u64, c: char) -> u64 {
    (((h ^ (c as u64)) * FNV_PRIME) % 0x1_0000_0000_0000_0000) as u64
}

/// The fingerprint of the first `n` characters of `s`.
pub open spec fn fingerprint_prefix(s: Seq<char>, n: int) -> u64
    decreases n,
{
    if n <= 0 {
        FNV_OFFSET
    } else {
        fnv_step(fingerprint_prefix(s, n - 1), s[n - 1])
    }
}

/// The fingerprint of an entire character sequence.
pub open spec fn fingerprint_of(s: Seq<char>) -> u64 {
    fingerprint_prefix(s, s.len() as int)
}

/// Computes the fingerprint of `text`.
pub fn fingerprint(text: &str) -> (r: u64)
    ensures
        r == fingerprint_of(text@),
{
    let n: usize = text.unicode_len();
    let mut h: u64 = FNV_OFFSET;
    let mut i: usize = 0;
    while i < n
        invariant
            n == text@.len(),
            0 <= i <= n,
            h == fingerprint_prefix(text@, i as int),
        decreases n - i,
    {
        let c: char = text.get_char(i);
        h = (h ^ (c as u64)).wrapping_mul(FNV_PRIME);
        i = i + 1;
    }
    h
}

} // verus!
