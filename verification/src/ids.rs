//! Fresh random identifiers.

use vstd::prelude::*;

verus! {

/// Whether a character is a lowercase hexadecimal digit.
pub open spec fn is_lower_hex(c: char) -> bool {
    ('0' <= c && c <= '9') || ('a' <= c && c <= 'f')
}

/// Whether a text has the shape of a hyphenated lowercase UUID: 36 characters,
/// hyphens at positions 8, 13, 18 and 23 and lowercase hex digits elsewhere.
pub open spec fn is_uuid_text(s: Seq<char>) -> bool {
    &&& s.len() == 36
    &&& forall|i: int|
        0 <= i < 36 ==> if i == 8 || i == 13 || i == 18 || i == 23 {
            #[trigger] s[i] == '-'
        } else {
            is_lower_hex(s[i])
        }
}

/// A random version-4 UUID in its hyphenated text form.
///
/// Trusted: calls `uuid::Uuid::new_v4` and formats it with `Display`, which the
/// uuid crate (src/fmt.rs) writes as the hyphenated lowercase form: 36
/// characters, hyphens at 8, 13, 18 and 23, lowercase hex digits elsewhere.
/// Which UUID comes out is random and is left unsaid.
#[verifier::external_body]
fn new_v4_text() -> (s: String)
    ensures
        is_uuid_text(s@),
{
    uuid::Uuid::new_v4().to_string()
}

/// A fresh random identifier: a hyphenated lowercase UUID, hence free of underscores.
pub fn new_id() -> (s: String)
    ensures
        is_uuid_text(s@),
        !s@.contains('_'),
{
    let s = new_v4_text();
    assert forall|i: int| 0 <= i < s@.len() implies s@[i] != '_' by {
        assert(s@[i] == '-' || is_lower_hex(s@[i]));
    }
    s
}

} // verus!
