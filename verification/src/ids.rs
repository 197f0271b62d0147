//! Identifiers and timestamps taken from the system.
use vstd::prelude::*;

verus! {

/// The current time in Unix milliseconds (calls `chrono::Utc::now` and
/// `DateTime::timestamp_millis`).  Nothing is claimed of the value: it is the
/// clock's.
#[verifier::external_body]
pub(crate) fn now_millis() -> i64 {
    chrono::Utc::now().timestamp_millis()
}

/// A lower-case hexadecimal digit.
pub open spec fn is_lower_hex(c: char) -> bool {
    ('0' <= c <= '9') || ('a' <= c <= 'f')
}

/// The hyphenated text form of a UUID: 36 characters, hyphens at 8, 13, 18
/// and 23, lower-case hexadecimal digits elsewhere.
pub open spec fn is_hyphenated_id(s: Seq<char>) -> bool {
    &&& s.len() == 36
    &&& forall|i: int| 0 <= i < 36 ==> if i == 8 || i == 13 || i == 18 || i == 23 {
        #[trigger] s[i] == '-'
    } else {
        is_lower_hex(s[i])
    }
}

/// A fresh random identifier (calls `uuid::Uuid::new_v4`) in its hyphenated
/// text form (`Uuid`'s `Display`).  The contract claims the shape of that
/// form; the value is random.
#[verifier::external_body]
pub(crate) fn new_id() -> (r: String)
    ensures
        is_hyphenated_id(r@),
{
    uuid::Uuid::new_v4().to_string()
}

} // verus!
