//! Fresh identifiers: random version 4 UUIDs in their hyphenated text form.

use vstd::prelude::*;

verus! {

/// A small hexadecimal digit: `0`-`9` or `a`-`f`.
pub open spec fn is_lower_hex_digit(c: char) -> bool {
    ('0' <= c && c <= '9') || ('a' <= c && c <= 'f')
}

/// The hyphenated text of a version 4 UUID: 36 characters, hyphens at 8, 13,
/// 18 and 23, small hexadecimal digits elsewhere, the version digit `4` at 14
/// and a variant digit `8`, `9`, `a` or `b` at 19.
pub open spec fn is_uuid_text(s: Seq<char>) -> bool {
    &&& s.len() == 36
    &&& forall|i: int|
        0 <= i < 36 ==> if i == 8 || i == 13 || i == 18 || i == 23 {
            s[i] == '-'
        } else {
            is_lower_hex_digit(#[trigger] s[i])
        }
    &&& s[14] == '4'
    &&& (s[19] == '8' || s[19] == '9' || s[19] == 'a' || s[19] == 'b')
}

/// `uuid::Uuid::new_v4()` written out by its `Display` impl, which writes the
/// hyphenated form with the small-letter alphabet (`format_hyphenated` in
/// uuid's `fmt.rs`). The value is random, so only its shape is stated:
/// `new_v4` masks the random bits so that the version nibble reads `4` and the
/// variant nibble `10xx` (`v4.rs`), which are the hexadecimal digits at 14 and
/// 19 of the hyphenated text. The call panics where the operating system gives
/// no random bytes.
#[verifier::external_body]
pub(crate) fn random_uuid_text() -> (r: String)
    ensures
        is_uuid_text(r@),
{
    uuid::Uuid::new_v4().to_string()
}

} // verus!
