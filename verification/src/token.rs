//! Session tokens: generation of a fresh random token and a checker for
//! the textual form the generator guarantees (lowercase hyphenated
//! version-4 UUID).

use vstd::prelude::*;

verus! {

/// A lowercase hexadecimal digit.
pub open spec fn is_hex_digit(c: char) -> bool {
    ('0' as u32 <= c as u32 && c as u32 <= '9' as u32) || ('a' as u32 <= c as u32 && c as u32
        <= 'f' as u32)
}

/// What the character at position `i` of a lowercase hyphenated
/// version-4 UUID must be: hyphens at positions 8, 13, 18 and 23, the
/// version digit `4` at position 14, a variant digit in `8..b` at
/// position 19, and lowercase hexadecimal digits everywhere else.
pub open spec fn is_uuid_v4_char(i: int, c: char) -> bool {
    if i == 8 || i == 13 || i == 18 || i == 23 {
        c == '-'
    } else if i == 14 {
        c == '4'
    } else if i == 19 {
        c == '8' || c == '9' || c == 'a' || c == 'b'
    } else {
        is_hex_digit(c)
    }
}

/// The textual form of a version-4 UUID rendered in lowercase
/// hyphenated notation: 36 characters, each as `is_uuid_v4_char` asks.
pub open spec fn is_uuid_v4(s: Seq<char>) -> bool {
    s.len() == 36 && (forall|i: int| 0 <= i < 36 ==> #[trigger] is_uuid_v4_char(i, s[i]))
}

/// Relies on `uuid::Uuid::new_v4` and the `Display` of `uuid::Uuid`:
/// `new_v4` draws random bits and forces the version nibble to `4` and
/// the variant bits to `10`, and `Display` renders the value as 36
/// lowercase hyphenated hexadecimal characters. Nothing is promised
/// about which token comes back beyond its shape: the value is random.
#[verifier::external_body]
pub(crate) fn fresh_token() -> (r: String)
    ensures
        is_uuid_v4(r@),
{
    uuid::Uuid::new_v4().to_string()
}

/// Decide whether one character fits position `i` of a version-4 UUID.
fn uuid_v4_char_ok(i: usize, c: char) -> (r: bool)
    ensures
        r == is_uuid_v4_char(i as int, c),
{
    let u = c as u32;
    if i == 8 || i == 13 || i == 18 || i == 23 {
        c == '-'
    } else if i == 14 {
        c == '4'
    } else if i == 19 {
        c == '8' || c == '9' || c == 'a' || c == 'b'
    } else {
        ('0' as u32 <= u && u <= '9' as u32) || ('a' as u32 <= u && u <= 'f' as u32)
    }
}

/// Decide whether `s` is the textual form of a version-4 UUID in
/// lowercase hyphenated notation.
pub fn is_uuid_v4_token(s: &str) -> (r: bool)
    ensures
        r == is_uuid_v4(s@),
{
    let len = s.unicode_len();
    if len != 36 {
        return false;
    }
    let mut i: usize = 0;
    while i < 36
        invariant
            0 <= i <= 36,
            s@.len() == 36,
            forall|j: int| 0 <= j < i ==> #[trigger] is_uuid_v4_char(j, s@[j]),
        decreases 36 - i,
    {
        let c = s.get_char(i);
        if !uuid_v4_char_ok(i, c) {
            return false;
        }
        i = i + 1;
    }
    true
}

} // verus!
