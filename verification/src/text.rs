use crate::error::UuidError;
use crate::hex::{
    ascii_lower, hex_decode, hex_digit_value, hex_encode_lower, is_hex_text, lower_hex_digit,
    push_char, push_hex_lower, upper_hex_char, upper_hex_digit,
};
use crate::value::UuidValue;
use vstd::prelude::*;

verus! {

/// The error of `uuid::Uuid::parse_str`, carried through unread.
#[verifier::external_type_specification]
#[verifier::external_body]
pub struct ExParseError(uuid::Error);

/// The 32 digits of a text of 36 characters, with the characters at the four
/// hyphen positions left out.
pub open spec fn hyphenated_digits(s: Seq<char>) -> Seq<char>
    recommends
        s.len() == 36,
{
    s.subrange(0, 8) + s.subrange(9, 13) + s.subrange(14, 18) + s.subrange(19, 23) + s.subrange(
        24,
        36,
    )
}

/// Whether a text has the 8-4-4-4-12 form: 36 characters, hyphens after the
/// groups, hexadecimal digits of either case elsewhere.
pub open spec fn is_hyphenated(s: Seq<char>) -> bool {
    &&& s.len() == 36
    &&& s[8] == '-'
    &&& s[13] == '-'
    &&& s[18] == '-'
    &&& s[23] == '-'
    &&& is_hex_text(hyphenated_digits(s))
}

/// The bytes that a text in the 8-4-4-4-12 form spells.
pub open spec fn hyphenated_bytes(s: Seq<char>) -> Option<Seq<u8>> {
    if is_hyphenated(s) {
        Some(hex_decode(hyphenated_digits(s)))
    } else {
        None
    }
}

/// Whether nine characters spell `urn:uuid:`, in any mix of cases.
pub open spec fn is_urn_prefix(s: Seq<char>) -> bool {
    s.map_values(|c: char| ascii_lower(c)) == seq!['u', 'r', 'n', ':', 'u', 'u', 'i', 'd', ':']
}

/// The bytes that a text spells, in each of the four accepted forms: 32 bare
/// digits; the 8-4-4-4-12 form; that form in braces; that form after
/// `urn:uuid:`. `None` for every other text.
pub open spec fn parse_of(s: Seq<char>) -> Option<Seq<u8>> {
    if s.len() == 32 {
        if is_hex_text(s) {
            Some(hex_decode(s))
        } else {
            None
        }
    } else if s.len() == 36 {
        hyphenated_bytes(s)
    } else if s.len() == 38 && s[0] == '{' && s[37] == '}' {
        hyphenated_bytes(s.subrange(1, 37))
    } else if s.len() == 45 && is_urn_prefix(s.subrange(0, 9)) {
        hyphenated_bytes(s.subrange(9, 45))
    } else {
        None
    }
}

/// The canonical text of sixteen bytes: lower-case digits in groups of 8, 4,
/// 4, 4 and 12, with hyphens between the groups.
pub open spec fn canonical_text(bytes: Seq<u8>) -> Seq<char>
    recommends
        bytes.len() == 16,
{
    hex_encode_lower(bytes.subrange(0, 4)) + seq!['-'] + hex_encode_lower(bytes.subrange(4, 6))
        + seq!['-'] + hex_encode_lower(bytes.subrange(6, 8)) + seq!['-'] + hex_encode_lower(
        bytes.subrange(8, 10),
    ) + seq!['-'] + hex_encode_lower(bytes.subrange(10, 16))
}

/// The text of a node: six pairs of upper-case digits with colons between.
pub open spec fn node_text(node: Seq<u8>) -> Seq<char>
    recommends
        node.len() == 6,
{
    Seq::new(
        17,
        |j: int|
            if j % 3 == 2 {
                ':'
            } else if j % 3 == 0 {
                upper_hex_digit(node[j / 3] as int / 16)
            } else {
                upper_hex_digit(node[j / 3] as int % 16)
            },
    )
}

/// `uuid::Uuid::parse_str`, with the bytes of the UUID it gives. The parser
/// goes by the length of the text: 32 characters are bare digits, 36 the
/// hyphenated form, 38 that form in braces, 45 that form after `urn:uuid:`
/// in any case; every other text is an error, as is a text of a right length
/// with a character out of place. The parser counts and compares UTF-8 bytes
/// where this contract counts characters: the two agree, since every accepted
/// text is ASCII and a character beyond ASCII is out of place wherever it
/// stands.
#[verifier::external_body]
fn parse_str_bytes(input: &str) -> (r: Result<[u8; 16], uuid::Error>)
    ensures
        r is Ok <==> parse_of(input@) is Some,
        r matches Ok(bytes) ==> Some(bytes@) == parse_of(input@),
{
    match uuid::Uuid::parse_str(input) {
        Ok(parsed) => Ok(parsed.into_bytes()),
        Err(e) => Err(e),
    }
}

/// Reads a UUID from text in one of the accepted forms. Every other text is
/// refused as `InvalidFormat`.
pub fn parse_uuid(input: &str) -> (r: Result<UuidValue, UuidError>)
    ensures
        r is Ok <==> parse_of(input@) is Some,
        r matches Ok(u) ==> Some(u@) == parse_of(input@),
        r matches Err(e) ==> e == UuidError::InvalidFormat,
{
    match parse_str_bytes(input) {
        Ok(bytes) => Ok(UuidValue::from_bytes(bytes)),
        Err(_) => Err(UuidError::InvalidFormat),
    }
}

impl UuidValue {
    /// The canonical text: 36 characters, lower case, hyphenated.
    pub fn format(&self) -> (text: String)
        ensures
            text@ == canonical_text(self@),
    {
        let bytes = self.as_bytes();
        let mut text = String::new();
        push_hex_lower(&mut text, &bytes, 0, 4);
        push_char(&mut text, '-');
        push_hex_lower(&mut text, &bytes, 4, 6);
        push_char(&mut text, '-');
        push_hex_lower(&mut text, &bytes, 6, 8);
        push_char(&mut text, '-');
        push_hex_lower(&mut text, &bytes, 8, 10);
        push_char(&mut text, '-');
        push_hex_lower(&mut text, &bytes, 10, 16);
        assert(text@ =~= canonical_text(self@));
        text
    }
}

/// Writes a node as six upper-case pairs of digits with colons between.
pub fn format_node(node: [u8; 6]) -> (text: String)
    ensures
        text@ == node_text(node@),
        text@.len() == 17,
{
    let mut text = String::new();
    let mut i: usize = 0;
    while i < 6
        invariant
            i <= 6,
            text@.len() == (if i == 0 { 0 } else { 3 * i - 1 }),
            text@ == node_text(node@).subrange(0, text@.len() as int),
        decreases 6 - i,
    {
        let ghost before = text@;
        if i > 0 {
            push_char(&mut text, ':');
        }
        let b: u8 = node[i];
        push_char(&mut text, upper_hex_char(b / 16));
        push_char(&mut text, upper_hex_char(b % 16));
        i += 1;
        assert(text@ =~= node_text(node@).subrange(0, text@.len() as int));
    }
    assert(text@ =~= node_text(node@));
    text
}

/// The text with its upper-case ASCII letters folded to lower case.
pub open spec fn ascii_lowercase(s: Seq<char>) -> Seq<char> {
    s.map_values(|c: char| ascii_lower(c))
}

/// A digit of either case, read and written again in lower case, is the digit
/// folded to lower case; a value written as a digit reads as that value.
pub proof fn lemma_hex_digit_roundtrip(c: char, n: int)
    ensures
        hex_digit_value(c) matches Some(v) ==> 0 <= v < 16 && lower_hex_digit(v) == ascii_lower(c),
        0 <= n < 16 ==> hex_digit_value(lower_hex_digit(n)) == Some(n),
        0 <= n < 16 ==> ascii_lower(lower_hex_digit(n)) == lower_hex_digit(n),
{
}

/// Every text that parses spells exactly sixteen bytes.
pub proof fn lemma_parse_gives_sixteen_bytes(s: Seq<char>)
    ensures
        parse_of(s) matches Some(bytes) ==> bytes.len() == 16,
{
}

/// Whatever form a text was read in, the canonical text of its bytes reads
/// as the same bytes.
pub proof fn lemma_parsed_survives_formatting(s: Seq<char>)
    ensures
        parse_of(s) matches Some(bytes) ==> parse_of(canonical_text(bytes)) == Some(bytes),
{
    if let Some(bytes) = parse_of(s) {
        lemma_parse_gives_sixteen_bytes(s);
        lemma_parse_of_formatted(bytes);
    }
}

/// A run of digit pairs, read as bytes and written again in lower case, is
/// the run itself in lower case.
pub proof fn lemma_hex_group_roundtrip(digits: Seq<char>, from: int, to: int)
    requires
        is_hex_text(digits),
        0 <= from <= to,
        2 * to <= digits.len(),
    ensures
        hex_encode_lower(hex_decode(digits).subrange(from, to)) == ascii_lowercase(
            digits.subrange(2 * from, 2 * to),
        ),
{
    let written = hex_encode_lower(hex_decode(digits).subrange(from, to));
    let folded = ascii_lowercase(digits.subrange(2 * from, 2 * to));
    assert forall|j: int| 0 <= j < 2 * (to - from) implies written[j] == folded[j] by {
        let i = from + j / 2;
        let high = digits[2 * i];
        let low = digits[2 * i + 1];
        assert(hex_digit_value(high) is Some);
        assert(hex_digit_value(low) is Some);
        lemma_hex_digit_roundtrip(high, 0);
        lemma_hex_digit_roundtrip(low, 0);
        assert(hex_decode(digits)[i] == hex_digit_value(high).unwrap() * 16 + hex_digit_value(
            low,
        ).unwrap());
    }
    assert(written =~= folded);
}

/// Writing what was read: a text in the 8-4-4-4-12 form parses, and the
/// canonical text of its bytes is the text itself in lower case.
pub proof fn lemma_format_of_parsed(s: Seq<char>)
    requires
        is_hyphenated(s),
    ensures
        parse_of(s) is Some,
        canonical_text(parse_of(s).unwrap()) == ascii_lowercase(s),
{
    let digits = hyphenated_digits(s);
    lemma_hex_group_roundtrip(digits, 0, 4);
    lemma_hex_group_roundtrip(digits, 4, 6);
    lemma_hex_group_roundtrip(digits, 6, 8);
    lemma_hex_group_roundtrip(digits, 8, 10);
    lemma_hex_group_roundtrip(digits, 10, 16);
    assert(digits.subrange(0, 8) =~= s.subrange(0, 8));
    assert(digits.subrange(8, 12) =~= s.subrange(9, 13));
    assert(digits.subrange(12, 16) =~= s.subrange(14, 18));
    assert(digits.subrange(16, 20) =~= s.subrange(19, 23));
    assert(digits.subrange(20, 32) =~= s.subrange(24, 36));
    assert(canonical_text(hex_decode(digits)) =~= ascii_lowercase(s));
}

/// Reading what was written: the canonical text of sixteen bytes parses to
/// those bytes.
pub proof fn lemma_parse_of_formatted(bytes: Seq<u8>)
    requires
        bytes.len() == 16,
    ensures
        parse_of(canonical_text(bytes)) == Some(bytes),
{
    let text = canonical_text(bytes);
    let digits = hyphenated_digits(text);
    assert(digits =~= hex_encode_lower(bytes));
    assert forall|i: int| 0 <= i < digits.len() implies (#[trigger] hex_digit_value(
        digits[i],
    )) is Some by {
        lemma_hex_digit_roundtrip('0', bytes[i / 2] as int / 16);
        lemma_hex_digit_roundtrip('0', bytes[i / 2] as int % 16);
    }
    assert forall|i: int| 0 <= i < 16 implies hex_decode(digits)[i] == bytes[i] by {
        lemma_hex_digit_roundtrip('0', bytes[i] as int / 16);
        lemma_hex_digit_roundtrip('0', bytes[i] as int % 16);
        assert(digits[2 * i] == lower_hex_digit(bytes[i] as int / 16));
        assert(digits[2 * i + 1] == lower_hex_digit(bytes[i] as int % 16));
    }
    assert(hex_decode(digits) =~= bytes);
}

} // verus!
