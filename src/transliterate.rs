//! Transliteration of text to ASCII through the `unidecode` crate.

use vstd::prelude::*;

verus! {

/// The ASCII transliteration that `unidecode::unidecode` gives for a text.
pub uninterp spec fn unidecode_of(s: Seq<char>) -> Seq<char>;

/// Whether every character of a text is ASCII (code 127 or below).
pub open spec fn all_ascii(s: Seq<char>) -> bool {
    forall|i: int| 0 <= i < s.len() ==> (#[trigger] s[i]) as u32 <= 127
}

/// Relies on unidecode::unidecode, whose documentation guarantees that the
/// result is ASCII and that every ASCII character is mapped to itself.
#[verifier::external_body]
pub(crate) fn to_ascii(s: &String) -> (r: Vec<char>)
    ensures
        r@ == unidecode_of(s@),
        all_ascii(r@),
        all_ascii(s@) ==> r@ == s@,
{
    unidecode::unidecode(s).chars().collect()
}

} // verus!
