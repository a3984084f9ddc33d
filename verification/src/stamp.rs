//! Fresh record ids and timestamps.
use vstd::prelude::*;

verus! {

/// Whether `c` is a lowercase hexadecimal digit.
pub open spec fn lower_hex(c: char) -> bool {
    ('0' <= c && c <= '9') || ('a' <= c && c <= 'f')
}

/// Whether `s` is the hyphenated text of a random (version 4, RFC 4122
/// variant) UUID: 36 characters in groups of 8, 4, 4, 4 and 12 lowercase
/// hex digits joined by `-`, the version digit `4`, and the variant digit
/// one of `8`, `9`, `a`, `b`.
pub open spec fn uuid_v4_text(s: Seq<char>) -> bool {
    &&& s.len() == 36
    &&& forall|i: int|
        0 <= i < 36 ==> if i == 8 || i == 13 || i == 18 || i == 23 {
            #[trigger] s[i] == '-'
        } else {
            lower_hex(s[i])
        }
    &&& s[14] == '4'
    &&& (s[19] == '8' || s[19] == '9' || s[19] == 'a' || s[19] == 'b')
}

/// A fresh random id: `uuid::Uuid::new_v4()` in its text form. Claimed:
/// the text is that of a random UUID (see `uuid_v4_text`), as `new_v4`
/// sets the version and variant bits and `Display` writes the lowercase
/// hyphenated form; which id comes back is left open.
#[verifier::external_body]
pub(crate) fn new_id() -> (r: String)
    ensures
        uuid_v4_text(r@),
{
    uuid::Uuid::new_v4().to_string()
}

/// Whether `c` is an ASCII decimal digit.
pub open spec fn decimal_digit(c: char) -> bool {
    '0' <= c && c <= '9'
}

/// Whether `s` has the shape of a UTC time written as
/// `%Y-%m-%dT%H:%M:%S%.3fZ`: a year of four digits (or, outside years 0 to
/// 9999, a sign and at least four digits), then `-MM-DDTHH:MM:SS.sssZ`
/// with a digit at each letter.
pub open spec fn timestamp_text(s: Seq<char>) -> bool {
    let n = s.len() as int;
    let y = n - 20;
    &&& n >= 24
    &&& (y == 4 && decimal_digit(s[0])) || (y >= 5 && (s[0] == '+' || s[0] == '-'))
    &&& forall|i: int| 1 <= i < y ==> decimal_digit(#[trigger] s[i])
    &&& s[y] == '-' && s[y + 3] == '-' && s[y + 6] == 'T' && s[y + 9] == ':' && s[y + 12] == ':'
    &&& s[y + 15] == '.' && s[y + 19] == 'Z'
    &&& decimal_digit(s[y + 1]) && decimal_digit(s[y + 2]) && decimal_digit(s[y + 4]) && decimal_digit(s[y + 5])
    &&& decimal_digit(s[y + 7]) && decimal_digit(s[y + 8]) && decimal_digit(s[y + 10]) && decimal_digit(s[y + 11])
    &&& decimal_digit(s[y + 13]) && decimal_digit(s[y + 14])
    &&& decimal_digit(s[y + 16]) && decimal_digit(s[y + 17]) && decimal_digit(s[y + 18])
}

/// The current UTC time, `chrono::Utc::now()`, written as
/// `%Y-%m-%dT%H:%M:%S%.3fZ`. Claimed: the text has that shape (see
/// `timestamp_text`), as chrono writes the year with at least four digits
/// (with a sign outside years 0 to 9999), the other fields with two digits,
/// the milliseconds with three after a `.`; which time it is depends on the
/// clock and is left open.
#[verifier::external_body]
pub(crate) fn now_text() -> (r: String)
    ensures
        timestamp_text(r@),
{
    chrono::Utc::now().format("%Y-%m-%dT%H:%M:%S%.3fZ").to_string()
}

} // verus!
