//! Fresh identifiers, drawn at random by the `uuid` crate.
use vstd::prelude::*;

verus! {

/// The character is a lower-case hexadecimal digit.
pub open spec fn is_lower_hex(ch: char) -> bool {
    ('0' <= ch && ch <= '9') || ('a' <= ch && ch <= 'f')
}

/// The text of a random (version 4) UUID in its hyphenated lower-case form,
/// such as `67e55044-10b1-426f-9247-bb680e5fe0c8`: 36 characters, hyphens at
/// positions 8, 13, 18 and 23, lower-case hexadecimal digits elsewhere, the
/// version digit `4` at position 14 and a variant digit among `8`, `9`, `a`,
/// `b` at position 19.
pub open spec fn is_v4_uuid_text(s: Seq<char>) -> bool {
    &&& s.len() == 36
    &&& forall|i: int| 0 <= i < 36 ==> (if i == 8 || i == 13 || i == 18 || i == 23 {
        #[trigger] s[i] == '-'
    } else {
        is_lower_hex(s[i])
    })
    &&& s[14] == '4'
    &&& (s[19] == '8' || s[19] == '9' || s[19] == 'a' || s[19] == 'b')
}

/// `uuid::Uuid::new_v4` followed by `to_string`: a random version 4 UUID in
/// its hyphenated lower-case text form. Two calls may return anything that
/// has that form; nothing is said of whether they differ.
#[verifier::external_body]
pub(crate) fn fresh_id() -> (id: String)
    ensures
        is_v4_uuid_text(id@),
{
    uuid::Uuid::new_v4().to_string()
}

} // verus!
