//! Identifiers: fresh random UUIDs and the canonical text of a parsed UUID.

use vstd::prelude::*;

verus! {

/// `c` is a lower-case hexadecimal digit.
pub open spec fn is_lower_hex(c: char) -> bool {
    ('0' <= c && c <= '9') || ('a' <= c && c <= 'f')
}

/// `s` is the hyphenated lower-case text of a UUID: 36 characters, hyphens at
/// positions 8, 13, 18 and 23, lower-case hexadecimal digits elsewhere.
pub open spec fn is_uuid_text(s: Seq<char>) -> bool {
    &&& s.len() == 36
    &&& forall|i: int|
        0 <= i < 36 ==> if i == 8 || i == 13 || i == 18 || i == 23 {
            #[trigger] s[i] == '-'
        } else {
            is_lower_hex(s[i])
        }
}

/// The text an optional string holds.
pub open spec fn text_of(o: Option<String>) -> Option<Seq<char>> {
    match o {
        Some(s) => Some(s@),
        None => None,
    }
}

/// What `uuid::Uuid::parse_str` makes of a text, rendered by `Display`:
/// `None` where the text is refused.
pub uninterp spec fn uuid_canonical(text: Seq<char>) -> Option<Seq<char>>;

/// A fresh version-4 UUID from `uuid::Uuid::new_v4`, as its `Display` text.
/// The value is random; what the contract claims is only the shape that
/// `Display` gives every UUID (hyphenated, lower case). `new_v4` has no error
/// result: where the operating system's random source fails, it panics, a
/// state of the machine that no precondition can rule out.
#[verifier::external_body]
pub(crate) fn new_uuid() -> (r: String)
    ensures
        is_uuid_text(r@),
{
    uuid::Uuid::new_v4().to_string()
}

/// Parses a UUID with `uuid::Uuid::parse_str` and renders it with `Display`.
/// The contract names the result (`uuid_canonical`), and claims two facts the
/// source shows: a rendered UUID is hyphenated lower-case text, and such a
/// text parses back to itself.
#[verifier::external_body]
pub(crate) fn parse_uuid(text: &str) -> (r: Option<String>)
    ensures
        text_of(r) == uuid_canonical(text@),
        r matches Some(c) ==> is_uuid_text(c@),
        is_uuid_text(text@) ==> text_of(r) == Some(text@),
{
    match uuid::Uuid::parse_str(text) {
        Ok(u) => Some(u.to_string()),
        Err(_) => None,
    }
}

} // verus!
