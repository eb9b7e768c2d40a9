//! Identifiers: UUIDs are carried as their 128-bit values; their text and
//! their parsing come from the `uuid` crate.
use vstd::prelude::*;

verus! {

/// The lower-case hexadecimal digit for `d` (0 to 15).
pub open spec fn hex_char(d: int) -> char {
    if d < 10 {
        (('0' as int) + d) as char
    } else {
        (('a' as int) + d - 10) as char
    }
}

/// The last `n` hexadecimal digits of `v`, most significant first.
pub open spec fn hex_digits(v: nat, n: nat) -> Seq<char>
    decreases n,
{
    if n == 0 {
        seq![]
    } else {
        hex_digits(v / 16, (n - 1) as nat).push(hex_char((v % 16) as int))
    }
}

/// The hyphenated form of a UUID: its 32 hexadecimal digits in lower case,
/// grouped 8-4-4-4-12.
pub open spec fn uuid_text_spec(v: u128) -> Seq<char> {
    let h = hex_digits(v as nat, 32);
    h.subrange(0, 8) + seq!['-'] + h.subrange(8, 12) + seq!['-'] + h.subrange(12, 16) + seq!['-']
        + h.subrange(16, 20) + seq!['-'] + h.subrange(20, 32)
}

/// The value of a hexadecimal digit in either case; none for another character.
pub open spec fn hex_digit_value(c: char) -> Option<int> {
    if '0' <= c && c <= '9' {
        Some(c as int - '0' as int)
    } else if 'a' <= c && c <= 'f' {
        Some(c as int - 'a' as int + 10)
    } else if 'A' <= c && c <= 'F' {
        Some(c as int - 'A' as int + 10)
    } else {
        None
    }
}

/// The number that a run of hexadecimal digits writes, most significant
/// first; none when one of them is no hexadecimal digit.
pub open spec fn hex_value(s: Seq<char>) -> Option<int>
    decreases s.len(),
{
    if s.len() == 0 {
        Some(0)
    } else {
        match (hex_value(s.drop_last()), hex_digit_value(s.last())) {
            (Some(v), Some(d)) => Some(v * 16 + d),
            _ => None,
        }
    }
}

/// The 32 digits of the hyphenated form (8-4-4-4-12, hyphens at 8, 13, 18
/// and 23); none for text of another shape.
pub open spec fn hyphenated_digits(s: Seq<char>) -> Option<Seq<char>> {
    if s.len() == 36 && s[8] == '-' && s[13] == '-' && s[18] == '-' && s[23] == '-' {
        Some(
            s.subrange(0, 8) + s.subrange(9, 13) + s.subrange(14, 18) + s.subrange(19, 23)
                + s.subrange(24, 36),
        )
    } else {
        None
    }
}

/// Whether nine characters spell `urn:uuid:`, ignoring ASCII case.
pub open spec fn is_urn_prefix(p: Seq<char>) -> bool {
    p.len() == 9 && forall|i: int| 0 <= i < 9 ==> #[trigger] crate::text::ascii_lower(p[i]) == "urn:uuid:"@[i]
}

/// The digits of a UUID's text in the four forms `Uuid::parse_str` takes:
/// 32 digits; the hyphenated form; the hyphenated form in braces; and
/// `urn:uuid:` (in any ASCII case) followed by the hyphenated form.
pub open spec fn uuid_digits(s: Seq<char>) -> Option<Seq<char>> {
    if s.len() == 32 {
        Some(s)
    } else if s.len() == 36 {
        hyphenated_digits(s)
    } else if s.len() == 38 && s[0] == '{' && s[37] == '}' {
        hyphenated_digits(s.subrange(1, 37))
    } else if s.len() == 45 && is_urn_prefix(s.subrange(0, 9)) {
        hyphenated_digits(s.subrange(9, 45))
    } else {
        None
    }
}

/// What `Uuid::parse_str` gives for a text, as the UUID's 128-bit value (its
/// digits read as one big-endian number); none when it refuses the text.
/// Every text it accepts is ASCII, so its byte positions are its characters.
pub open spec fn uuid_parsed(s: Seq<char>) -> Option<u128> {
    match uuid_digits(s) {
        Some(d) => match hex_value(d) {
            Some(v) => Some(v as u128),
            None => None,
        },
        None => None,
    }
}

/// Calls `Uuid::from_u128(v).to_string()`, which the crate documents and
/// writes as the hyphenated lower-case form.
#[verifier::external_body]
pub(crate) fn uuid_text(v: u128) -> (res: String)
    ensures
        res@ == uuid_text_spec(v),
{
    uuid::Uuid::from_u128(v).to_string()
}

/// Calls `Uuid::parse_str` and takes the UUID's value (`as_u128`, big-endian):
/// the crate accepts exactly the four forms of `uuid_digits`, with digits in
/// either case, and decodes them as `uuid_parsed` says.
#[verifier::external_body]
pub(crate) fn uuid_parse(s: &str) -> (res: Option<u128>)
    ensures
        res == uuid_parsed(s@),
{
    match uuid::Uuid::parse_str(s) {
        Ok(u) => Some(u.as_u128()),
        Err(_) => None,
    }
}

} // verus!
