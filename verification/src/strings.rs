//! Null-terminated UTF-16 text, as the firmware hands it out.

use vstd::prelude::*;
use vstd::slice::slice_subrange;

verus! {

/// The text that a sequence of UTF-16 code units encodes, where it encodes one:
/// where every surrogate in it is half of a well-formed pair.
pub uninterp spec fn utf16_decoded(units: Seq<u16>) -> Option<Seq<char>>;

/// The characters of a string that may be missing.
pub open spec fn spec_characters(text: Option<String>) -> Option<Seq<char>> {
    match text {
        Some(s) => Some(s@),
        None => None,
    }
}

/// Decodes UTF-16 with `String::from_utf16`, which returns the text that the
/// units encode, or an error where they hold an unpaired surrogate. The contract
/// names that text `utf16_decoded` and claims no more of it.
#[verifier::external_body]
fn decode_utf16(units: &[u16]) -> (r: Option<String>)
    ensures
        spec_characters(r) == utf16_decoded(units@),
{
    String::from_utf16(units).ok()
}

/// Whether `n` is the length of the text at the start of `units`: the units
/// before the first null, or all of them where there is no null.
pub open spec fn is_text_length(units: Seq<u16>, n: int) -> bool {
    &&& 0 <= n <= units.len()
    &&& forall|i: int| 0 <= i < n ==> units[i] != 0
    &&& n < units.len() ==> units[n] == 0
}

/// A sequence of units has one text length and no other.
pub proof fn lemma_text_length_unique(units: Seq<u16>, n: int, m: int)
    requires
        is_text_length(units, n),
        is_text_length(units, m),
    ensures
        n == m,
{
    if n < m {
        assert(units[n] != 0);
    } else if m < n {
        assert(units[m] != 0);
    }
}

/// Counts the units before the first null.
pub fn text_length(units: &[u16]) -> (n: usize)
    ensures
        is_text_length(units@, n as int),
{
    let mut n: usize = 0;
    while n < units.len() && units[n] != 0
        invariant
            n <= units.len(),
            forall|i: int| 0 <= i < n ==> units@[i] != 0,
        decreases units.len() - n,
    {
        n = n + 1;
    }
    n
}

/// What decoding yields for the text of length `n` at the start of `units`.
pub open spec fn spec_text(units: Seq<u16>, n: int) -> Option<Seq<char>> {
    utf16_decoded(units.subrange(0, n))
}

/// Decodes the text that was found to end before index `n`.
///
/// The text is returned where the units before `n` are well-formed UTF-16, and
/// nothing where they are not.
pub fn decode_text(units: &[u16], n: usize) -> (r: Option<String>)
    requires
        n <= units@.len(),
    ensures
        spec_characters(r) == spec_text(units@, n as int),
{
    decode_utf16(slice_subrange(units, 0, n))
}

/// Converts null-terminated UTF-16 to a string
///
/// The text ends before the first null, or with the last unit where there is no
/// null. It is returned where it is well-formed UTF-16, and nothing where it is
/// not.
pub fn utf16_to_str(units: &[u16]) -> (r: Option<String>)
    ensures
        exists|n: int|
            #![trigger is_text_length(units@, n)]
            is_text_length(units@, n) && spec_characters(r) == spec_text(units@, n),
{
    let n = text_length(units);
    decode_text(units, n)
}

} // verus!
