use vstd::prelude::*;

verus! {

/// The value of a hexadecimal digit of either case; `None` for every other
/// character.
pub open spec fn hex_digit_value(c: char) -> Option<int> {
    if '0' <= c <= '9' {
        Some(c as int - '0' as int)
    } else if 'a' <= c <= 'f' {
        Some(c as int - 'a' as int + 10)
    } else if 'A' <= c <= 'F' {
        Some(c as int - 'A' as int + 10)
    } else {
        None
    }
}

/// The lower-case digit for a value from 0 to 15.
pub open spec fn lower_hex_digit(n: int) -> char
    recommends
        0 <= n < 16,
{
    if n < 10 {
        ('0' as int + n) as char
    } else {
        ('a' as int + n - 10) as char
    }
}

/// The upper-case digit for a value from 0 to 15.
pub open spec fn upper_hex_digit(n: int) -> char
    recommends
        0 <= n < 16,
{
    if n < 10 {
        ('0' as int + n) as char
    } else {
        ('A' as int + n - 10) as char
    }
}

/// A character with the upper-case ASCII letters folded to lower case.
pub open spec fn ascii_lower(c: char) -> char {
    if 'A' <= c <= 'Z' {
        (c as int + 32) as char
    } else {
        c
    }
}

/// Whether every character is a hexadecimal digit.
pub open spec fn is_hex_text(s: Seq<char>) -> bool {
    forall|i: int| 0 <= i < s.len() ==> (#[trigger] hex_digit_value(s[i])) is Some
}

/// The bytes that pairs of hexadecimal digits spell, high digit first.
pub open spec fn hex_decode(s: Seq<char>) -> Seq<u8>
    recommends
        is_hex_text(s),
        s.len() % 2 == 0,
{
    Seq::new(
        s.len() / 2,
        |i: int| (hex_digit_value(s[2 * i]).unwrap() * 16 + hex_digit_value(s[2 * i + 1]).unwrap()) as u8,
    )
}

/// Two lower-case digits for each byte, high digit first.
pub open spec fn hex_encode_lower(bytes: Seq<u8>) -> Seq<char> {
    Seq::new(
        2 * bytes.len(),
        |j: int|
            if j % 2 == 0 {
                lower_hex_digit(bytes[j / 2] as int / 16)
            } else {
                lower_hex_digit(bytes[j / 2] as int % 16)
            },
    )
}

/// The lower-case digit for `n`.
pub(crate) fn lower_hex_char(n: u8) -> (c: char)
    requires
        n < 16,
    ensures
        c == lower_hex_digit(n as int),
{
    if n < 10 {
        (0x30u8 + n) as char
    } else {
        (0x61u8 + (n - 10)) as char
    }
}

/// The upper-case digit for `n`.
pub(crate) fn upper_hex_char(n: u8) -> (c: char)
    requires
        n < 16,
    ensures
        c == upper_hex_digit(n as int),
{
    if n < 10 {
        (0x30u8 + n) as char
    } else {
        (0x41u8 + (n - 10)) as char
    }
}

/// `String::push`: the character is appended, and nothing else changes.
#[verifier::external_body]
pub(crate) fn push_char(text: &mut String, c: char)
    ensures
        final(text)@ == old(text)@.push(c),
{
    text.push(c)
}

/// Appends two lower-case digits for each byte of `bytes[from..to]`.
pub(crate) fn push_hex_lower(text: &mut String, bytes: &[u8; 16], from: usize, to: usize)
    requires
        from <= to <= 16,
    ensures
        final(text)@ == old(text)@ + hex_encode_lower(bytes@.subrange(from as int, to as int)),
{
    let mut i: usize = from;
    while i < to
        invariant
            from <= i <= to <= 16,
            text@ == old(text)@ + hex_encode_lower(bytes@.subrange(from as int, i as int)),
        decreases to - i,
    {
        let b: u8 = bytes[i];
        let ghost before = text@;
        push_char(text, lower_hex_char(b / 16));
        push_char(text, lower_hex_char(b % 16));
        proof {
            let shorter = hex_encode_lower(bytes@.subrange(from as int, i as int));
            let longer = hex_encode_lower(bytes@.subrange(from as int, i + 1));
            assert(longer =~= shorter.push(lower_hex_digit(b as int / 16)).push(
                lower_hex_digit(b as int % 16),
            ));
            assert(text@ =~= old(text)@ + longer);
        }
        i += 1;
    }
    proof {
        assert(bytes@.subrange(from as int, from as int) =~= Seq::<u8>::empty());
    }
}

} // verus!
