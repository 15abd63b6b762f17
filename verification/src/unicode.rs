//! Canonical decomposition and composition of characters, as the
//! `unicode-normalization` crate computes them.

use vstd::prelude::*;
use smallvec::SmallVec;
use unicode_normalization::UnicodeNormalization;

verus! {

/// The canonical decomposition of a character: the characters of its
/// normalization form D, in order.
pub uninterp spec fn canonical_decomposition(c: char) -> Seq<char>;

/// The character that a base and a combining mark compose to canonically,
/// if they compose.
pub uninterp spec fn canonical_composition(base: char, mark: char) -> Option<char>;

/// The characters of a decomposition, held in a `SmallVec` that stores the
/// first two in place.
#[verifier::external_body]
pub struct Decomposition {
    parts: SmallVec<[char; 2]>,
}

/// The characters that a decomposition holds, in order.
pub uninterp spec fn decomposition_chars(d: Decomposition) -> Seq<char>;

/// Decomposes a character.
///
/// Calls `UnicodeNormalization::nfd` on the character and collects the
/// iterator into a `SmallVec`. Not proved: that what is collected is the
/// canonical decomposition of the character.
#[verifier::external_body]
pub(crate) fn decompose(c: char) -> (d: Decomposition)
    ensures
        decomposition_chars(d) == canonical_decomposition(c),
{
    Decomposition { parts: c.nfd().collect() }
}

/// The character at an index of a decomposition.
///
/// Calls `get` on the slice of the `SmallVec`. Not proved: that it returns
/// the character at that index, and `None` from the length on.
#[verifier::external_body]
pub(crate) fn decomposition_part(d: &Decomposition, i: usize) -> (r: Option<char>)
    ensures
        r == if i < decomposition_chars(*d).len() {
            Some(decomposition_chars(*d)[i as int])
        } else {
            None
        },
{
    d.parts.get(i).copied()
}

/// Composes a base and a combining mark.
///
/// Calls `unicode_normalization::char::compose`. Not proved: that it returns
/// the canonical composition of the two, and `None` where they do not compose.
#[verifier::external_body]
pub(crate) fn compose(base: char, mark: char) -> (r: Option<char>)
    ensures
        r == canonical_composition(base, mark),
{
    unicode_normalization::char::compose(base, mark)
}

} // verus!
