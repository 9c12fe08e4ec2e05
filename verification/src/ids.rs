//! Random identifiers for todos and audit records.

use vstd::prelude::*;

verus! {

/// A lowercase hexadecimal digit.
pub open spec fn is_lower_hex(c: char) -> bool {
    ('0' <= c && c <= '9') || ('a' <= c && c <= 'f')
}

/// The hyphenated lowercase text of a random (version 4) UUID:
/// `xxxxxxxx-xxxx-4xxx-Nxxx-xxxxxxxxxxxx` with `N` one of `8`, `9`, `a`, `b`.
pub open spec fn is_random_uuid_text(s: Seq<char>) -> bool {
    &&& s.len() == 36
    &&& forall|i: int|
        0 <= i < 36 ==> if i == 8 || i == 13 || i == 18 || i == 23 {
            s[i] == '-'
        } else {
            is_lower_hex(#[trigger] s[i])
        }
    &&& s[14] == '4'
    &&& (s[19] == '8' || s[19] == '9' || s[19] == 'a' || s[19] == 'b')
}

/// A fresh random identifier: `uuid::Uuid::new_v4().to_string()`. Claimed:
/// the text is a hyphenated lowercase version 4 UUID, as the crate's
/// `Display` (lower hex, hyphenated) and `new_v4` (version and variant bits
/// set) produce. Which one comes back is random and not stated; `new_v4`
/// panics when the system offers no random bytes.
#[verifier::external_body]
pub(crate) fn new_id() -> (s: String)
    ensures
        is_random_uuid_text(s@),
{
    uuid::Uuid::new_v4().to_string()
}

/// A fresh random identifier for a stored row (a chat message, a memory,
/// a log entry): a hyphenated lowercase version 4 UUID.
pub fn fresh_id() -> (s: String)
    ensures
        is_random_uuid_text(s@),
{
    new_id()
}

} // verus!
