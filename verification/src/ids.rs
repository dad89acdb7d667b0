//! Random and time-ordered identifiers (the `uuid` crate).

use vstd::prelude::*;

verus! {

/// A lowercase hexadecimal digit.
pub open spec fn is_lower_hex(c: char) -> bool {
    ('0' <= c && c <= '9') || ('a' <= c && c <= 'f')
}

/// The hyphenated text form of a UUID (8-4-4-4-12 lowercase hex digits) whose
/// version digit is `version`.
pub open spec fn is_hyphenated_uuid(s: Seq<char>, version: char) -> bool {
    &&& s.len() == 36
    &&& forall|i: int|
        0 <= i < 36 ==> if i == 8 || i == 13 || i == 18 || i == 23 {
            s[i] == '-'
        } else {
            is_lower_hex(#[trigger] s[i])
        }
    &&& s[14] == version
}

/// The simple text form of a UUID (32 lowercase hex digits) whose version
/// digit is `version`.
pub open spec fn is_simple_uuid(s: Seq<char>, version: char) -> bool {
    &&& s.len() == 32
    &&& forall|i: int| 0 <= i < 32 ==> is_lower_hex(#[trigger] s[i])
    &&& s[12] == version
}

/// `uuid::Uuid::new_v4()` formatted with `Display`: a random version-4 UUID
/// in hyphenated lowercase form. Which UUID comes back is left open; the
/// crate panics only when the operating system refuses random bytes.
#[verifier::external_body]
pub(crate) fn new_v4_string() -> (res: String)
    ensures
        is_hyphenated_uuid(res@, '4'),
{
    uuid::Uuid::new_v4().to_string()
}

/// `uuid::Uuid::new_v4().simple()` formatted with `Display`: a random
/// version-4 UUID as 32 lowercase hex digits. Which UUID comes back is left
/// open.
#[verifier::external_body]
pub(crate) fn new_v4_simple_string() -> (res: String)
    ensures
        is_simple_uuid(res@, '4'),
{
    uuid::Uuid::new_v4().simple().to_string()
}

/// `uuid::Uuid::now_v7()` formatted with `Display`: a time-ordered version-7
/// UUID in hyphenated lowercase form. Which UUID comes back (it depends on
/// the clock and on chance) is left open.
#[verifier::external_body]
pub(crate) fn now_v7_string() -> (res: String)
    ensures
        is_hyphenated_uuid(res@, '7'),
{
    uuid::Uuid::now_v7().to_string()
}

} // verus!
