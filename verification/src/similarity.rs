//! String similarity for the duplicate-account checks.
//!
//! Two display names (or two email addresses) count as duplicates when their
//! normalized Damerau-Levenshtein similarity is at least 0.8, that is, when
//! the edit distance is at most a fifth of the longer string's length
//! (in characters). The distance itself comes from the `strsim` crate; the
//! threshold rule is stated and proved here exactly, over integers.

use vstd::prelude::*;

verus! {

/// The Damerau-Levenshtein edit distance between two character sequences,
/// as `strsim::damerau_levenshtein` computes it. A function of the two
/// sequences alone.
pub uninterp spec fn edit_distance(a: Seq<char>, b: Seq<char>) -> nat;

/// Relies on `strsim::damerau_levenshtein`: the Damerau-Levenshtein edit
/// distance between the two strings' characters, depending on the characters
/// alone.
#[verifier::external_body]
fn damerau_levenshtein(a: &str, b: &str) -> (r: usize)
    ensures
        r as nat == edit_distance(a@, b@),
{
    strsim::damerau_levenshtein(a, b)
}

/// The length of the longer of the two sequences.
pub open spec fn longer_len(a: Seq<char>, b: Seq<char>) -> nat {
    if a.len() >= b.len() {
        a.len()
    } else {
        b.len()
    }
}

/// Whether two strings are similar enough to count as duplicates: the edit
/// distance is at most a fifth of the longer length, i.e. the normalized
/// similarity `1 - distance / longer_len` is at least 0.8. Two empty strings
/// are similar (distance 0, length 0).
pub open spec fn spec_similar(a: Seq<char>, b: Seq<char>) -> bool {
    5 * edit_distance(a, b) <= longer_len(a, b)
}

/// Whether an edit distance `dist` between strings of character lengths
/// `len_a` and `len_b` is within the duplicate threshold: distance at most a
/// fifth of the longer length.
pub fn within_threshold(dist: usize, len_a: usize, len_b: usize) -> (r: bool)
    ensures
        r == (5 * dist as int <= if len_a >= len_b { len_a as int } else { len_b as int }),
{
    let longer: usize = if len_a >= len_b {
        len_a
    } else {
        len_b
    };
    let r = dist <= longer / 5;
    proof {
        assert((dist as int <= longer as int / 5) == (5 * dist as int <= longer as int))
            by (nonlinear_arith);
    }
    r
}

/// Whether two strings are similar enough to count as duplicates, per
/// `spec_similar`.
pub fn similar(a: &str, b: &str) -> (r: bool)
    ensures
        r == spec_similar(a@, b@),
{
    let dist = damerau_levenshtein(a, b);
    let len_a = a.unicode_len();
    let len_b = b.unicode_len();
    within_threshold(dist, len_a, len_b)
}

} // verus!
