//! Fresh identifiers for new records.

use vstd::prelude::*;

verus! {

/// Whether `c` is one of the digits `0` to `9` or the letters `a` to `f`.
pub open spec fn is_lower_hex(c: char) -> bool {
    ('0' <= c && c <= '9') || ('a' <= c && c <= 'f')
}

/// Whether `s` is a random (version 4) UUID in its usual written form:
/// 32 lower-case hexadecimal digits in groups of 8, 4, 4, 4 and 12 with a
/// hyphen between the groups, the third group starting with `4` and the
/// fourth with `8`, `9`, `a` or `b`.
pub open spec fn is_uuid_v4(s: Seq<char>) -> bool {
    &&& s.len() == 36
    &&& forall|i: int|
        0 <= i < 36 ==> if i == 8 || i == 13 || i == 18 || i == 23 {
            #[trigger] s[i] == '-'
        } else {
            is_lower_hex(s[i])
        }
    &&& s[14] == '4'
    &&& (s[19] == '8' || s[19] == '9' || s[19] == 'a' || s[19] == 'b')
}

/// A new random identifier, from `uuid::Uuid::new_v4` and the `to_string`
/// of the value it returns.
///
/// Trusted: the contract claims that the text is a version 4 UUID in
/// lower-case hyphenated form. Which one it is depends on the random source
/// of the operating system, so nothing more is claimed; two calls may give
/// any two such texts. The call does not return where the operating system
/// gives no random bytes.
#[verifier::external_body]
pub(crate) fn fresh_id() -> (id: String)
    ensures
        is_uuid_v4(id@),
{
    uuid::Uuid::new_v4().to_string()
}

} // verus!
