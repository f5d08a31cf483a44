//! Identifiers and instants: ULIDs in their 26-character text form, and UTC
//! instants as milliseconds since the Unix epoch.
use vstd::prelude::*;

verus! {

/// Length of a ULID's text form.
pub const ULID_LEN: usize = 26;

/// A character of the Crockford base-32 alphabet that ULIDs are written in.
pub open spec fn is_crockford(c: char) -> bool {
    ('0' <= c <= '9') || ('A' <= c <= 'Z' && c != 'I' && c != 'L' && c != 'O' && c != 'U')
}

/// `s` has the shape of a ULID's text form.
pub open spec fn is_ulid(s: Seq<char>) -> bool {
    &&& s.len() == ULID_LEN
    &&& forall|i: int| 0 <= i < s.len() ==> is_crockford(#[trigger] s[i])
}

/// Whether `s` has the shape of a ULID's text form.
pub fn check_ulid(s: &str) -> (r: bool)
    ensures
        r == is_ulid(s@),
{
    let n = s.unicode_len();
    if n != ULID_LEN {
        return false;
    }
    let mut i: usize = 0;
    while i < n
        invariant
            i <= n,
            n == s@.len(),
            forall|j: int| 0 <= j < i ==> is_crockford(#[trigger] s@[j]),
        decreases n - i,
    {
        let c = s.get_char(i);
        let ok = ('0' <= c && c <= '9') || ('A' <= c && c <= 'Z' && c != 'I' && c != 'L' && c
            != 'O' && c != 'U');
        if !ok {
            return false;
        }
        i = i + 1;
    }
    true
}

/// Relies on `ulid::Ulid::new` for a fresh time-ordered identifier, and on
/// `ulid::Ulid::to_string`, which writes 26 characters of the Crockford alphabet
/// `0123456789ABCDEFGHJKMNPQRSTVWXYZ`.
#[verifier::external_body]
pub(crate) fn fresh_ulid() -> (r: String)
    ensures
        is_ulid(r@),
{
    ulid::Ulid::new().to_string()
}

/// Relies on `chrono::Utc::now` and `DateTime::timestamp_millis`: the current UTC
/// instant in milliseconds since the Unix epoch.
#[verifier::external_body]
pub(crate) fn now_millis() -> (r: i64) {
    chrono::Utc::now().timestamp_millis()
}

} // verus!
