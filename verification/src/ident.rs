//! Server-generated record identifiers.
//!
//! Every row is keyed by an identifier drawn at insert time from a source
//! with negligible collision probability, rendered in its canonical text
//! form. Nothing is assumed about which identifier comes out, only about
//! its shape; freshness is checked against the table, never presumed.

use vstd::prelude::*;

verus! {

/// A lowercase hexadecimal digit.
pub open spec fn is_lower_hex_digit(c: char) -> bool {
    ('0' as u32 <= c as u32 && c as u32 <= '9' as u32) || ('a' as u32 <= c as u32 && c as u32
        <= 'f' as u32)
}

/// The canonical text of a version-4 random identifier: 36 characters,
/// four hyphens separating groups of lowercase hexadecimal digits, the
/// version digit `4`, and a variant digit among `8`, `9`, `a`, `b`.
pub open spec fn is_uuid_text(s: Seq<char>) -> bool {
    &&& s.len() == 36
    &&& s[8] == '-' && s[13] == '-' && s[18] == '-' && s[23] == '-'
    &&& forall|i: int|
        0 <= i < 36 && i != 8 && i != 13 && i != 18 && i != 23 ==> is_lower_hex_digit(
            #[trigger] s[i],
        )
    &&& s[14] == '4'
    &&& (s[19] == '8' || s[19] == '9' || s[19] == 'a' || s[19] == 'b')
}

/// Relies on uuid's `Uuid::new_v4` and its `Display` impl: a random
/// 128-bit identifier with the version nibble set to 4 and the variant
/// bits to the standard layout, printed hyphenated in lowercase.
#[verifier::external_body]
pub(crate) fn fresh_id() -> (r: String)
    ensures
        is_uuid_text(r@),
{
    uuid::Uuid::new_v4().to_string()
}

} // verus!
