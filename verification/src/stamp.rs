//! What a run takes from the outside world: today's date and a fresh random
//! identifier.

use vstd::prelude::*;
use crate::text::chars_of;

verus! {

/// A digit or one of the letters `a` to `f`.
pub open spec fn is_lower_hex(c: char) -> bool {
    ('0' <= c && c <= '9') || ('a' <= c && c <= 'f')
}

/// The shape of a random (version 4) identifier in its hyphenated lower-case
/// form: 36 characters in groups of 8, 4, 4, 4 and 12 hexadecimal digits with
/// a hyphen between two groups, the third group opening with the version `4`
/// and the fourth with one of `8`, `9`, `a`, `b`.
pub open spec fn is_random_identifier(s: Seq<char>) -> bool {
    &&& s.len() == 36
    &&& forall|i: int|
        0 <= i < 36 ==> if i == 8 || i == 13 || i == 18 || i == 23 {
            #[trigger] s[i] == '-'
        } else {
            is_lower_hex(s[i])
        }
    &&& s[14] == '4'
    &&& (s[19] == '8' || s[19] == '9' || s[19] == 'a' || s[19] == 'b')
}

/// `uuid::Uuid::new_v4`, written out by `Uuid::hyphenated` and its `Display`.
/// The crate draws 128 random bits, sets the version digit to 4 and the two
/// variant bits to `10`, and prints 32 lower-case hexadecimal digits with
/// hyphens behind the 8th, 12th, 16th and 20th. Which digits come out is left
/// open: they differ from call to call. Where the system has no random bytes
/// to give, the crate panics.
#[verifier::external_body]
pub(crate) fn fresh_identifier() -> (out: String)
    ensures
        is_random_identifier(out@),
{
    uuid::Uuid::new_v4().hyphenated().to_string()
}

/// `chrono::Local::now`, formatted with `%Y-%m-%d`: the local date as year,
/// month and day. Nothing is claimed of the text, which depends on the clock
/// and the time zone of the machine. With a clock set before 1970 the crate
/// panics.
#[verifier::external_body]
pub(crate) fn today() -> (out: String) {
    chrono::Local::now().format("%Y-%m-%d").to_string()
}

/// Whether `s` has the shape of a random identifier.
pub fn looks_like_identifier(s: &str) -> (out: bool)
    ensures
        out == is_random_identifier(s@),
{
    let chars = chars_of(s);
    if chars.len() != 36 {
        return false;
    }
    let mut i: usize = 0;
    while i < 36
        invariant
            i <= 36,
            chars.len() == 36,
            chars@ == s@,
            forall|k: int|
                0 <= k < i ==> if k == 8 || k == 13 || k == 18 || k == 23 {
                    #[trigger] s@[k] == '-'
                } else {
                    is_lower_hex(s@[k])
                },
        decreases 36 - i,
    {
        let c = chars[i];
        if i == 8 || i == 13 || i == 18 || i == 23 {
            if c != '-' {
                return false;
            }
        } else if !(('0' <= c && c <= '9') || ('a' <= c && c <= 'f')) {
            return false;
        }
        i += 1;
    }
    let v = chars[19];
    chars[14] == '4' && (v == '8' || v == '9' || v == 'a' || v == 'b')
}

} // verus!
