//! Hexadecimal text: how 32-bit numbers are written in it and read from it.

use vstd::prelude::*;
use vstd::string::StringExecFns;

verus! {

/// The lower-case hexadecimal digit for a number below sixteen.
pub open spec fn hex_digit(d: int) -> char {
    if d == 0 {
        '0'
    } else if d == 1 {
        '1'
    } else if d == 2 {
        '2'
    } else if d == 3 {
        '3'
    } else if d == 4 {
        '4'
    } else if d == 5 {
        '5'
    } else if d == 6 {
        '6'
    } else if d == 7 {
        '7'
    } else if d == 8 {
        '8'
    } else if d == 9 {
        '9'
    } else if d == 10 {
        'a'
    } else if d == 11 {
        'b'
    } else if d == 12 {
        'c'
    } else if d == 13 {
        'd'
    } else if d == 14 {
        'e'
    } else {
        'f'
    }
}

/// The number that a hexadecimal digit, of either case, stands for.
pub open spec fn digit_value(c: char) -> Option<int> {
    if '0' <= c <= '9' {
        Some(c as int - '0' as int)
    } else if 'a' <= c <= 'f' {
        Some(c as int - 'a' as int + 10)
    } else if 'A' <= c <= 'F' {
        Some(c as int - 'A' as int + 10)
    } else {
        None
    }
}

/// Every character is a hexadecimal digit.
pub open spec fn is_hex_digits(text: Seq<char>) -> bool {
    forall|i: int| 0 <= i < text.len() ==> digit_value(#[trigger] text[i]) is Some
}

/// The number that a sequence of hexadecimal digits stands for, the most
/// significant digit first.
pub open spec fn hex_value(text: Seq<char>) -> nat
    decreases text.len(),
{
    if text.len() == 0 {
        0
    } else {
        (16 * hex_value(text.drop_last()) + digit_value(text.last()).unwrap()) as nat
    }
}

/// `value` in lower-case hexadecimal digits, with zeros in front where it
/// takes fewer than `width` digits.
pub open spec fn hex_text(value: nat, width: nat) -> Seq<char>
    decreases value, width,
{
    if value < 16 && width <= 1 {
        seq![hex_digit(value as int)]
    } else {
        hex_text(value / 16, if width >= 1 {
            (width - 1) as nat
        } else {
            0
        }) + seq![hex_digit((value % 16) as int)]
    }
}

/// The digits of a number that may be written with a plus sign in front.
pub open spec fn without_sign(text: Seq<char>) -> Seq<char> {
    if text.len() > 0 && text[0] == '+' {
        text.skip(1)
    } else {
        text
    }
}

/// The 32-bit number that `text` is in hexadecimal: an optional plus sign,
/// then at least one digit of either case and nothing else. `None` where
/// the text is not of that form or the number does not fit.
pub open spec fn parsed_hex(text: Seq<char>) -> Option<u32> {
    let digits = without_sign(text);
    if digits.len() > 0 && is_hex_digits(digits) && hex_value(digits) <= u32::MAX {
        Some(hex_value(digits) as u32)
    } else {
        None
    }
}

/// `text` without the `#` in front, where it has one.
pub open spec fn without_hash(text: Seq<char>) -> Seq<char> {
    if text.len() > 0 && text[0] == '#' {
        text.skip(1)
    } else {
        text
    }
}

/// The error of the standard library for text that is no number. Nothing
/// is said of what it holds.
#[verifier::external_type_specification]
#[verifier::external_body]
pub struct ExParseIntError(core::num::ParseIntError);

/// `u32::from_str_radix` with radix 16. The standard library reads an
/// optional `+` followed by digits `0-9`, `a-f`, `A-F` and nothing else, and
/// fails on the empty string, on any other character, and on a number
/// beyond `u32::MAX`; the contract says exactly that.
#[verifier::external_body]
pub(crate) fn parse_hex_u32(text: &str) -> (result: Result<u32, core::num::ParseIntError>)
    ensures
        match result {
            Ok(value) => parsed_hex(text@) == Some(value),
            Err(_) => parsed_hex(text@) is None,
        },
{
    u32::from_str_radix(text, 16)
}

/// `str::strip_prefix` with a character as the pattern: the rest of the
/// text where it starts with `prefix`, and `None` where it does not.
#[verifier::external_body]
pub(crate) fn strip_prefix_char<'a>(text: &'a str, prefix: char) -> (rest: Option<&'a str>)
    ensures
        match rest {
            Some(rest) => text@.len() > 0 && text@[0] == prefix && rest@ == text@.skip(1),
            None => text@.len() == 0 || text@[0] != prefix,
        },
{
    text.strip_prefix(prefix)
}

/// `text` without the `#` in front, where it has one.
pub fn strip_hash<'a>(text: &'a str) -> (rest: &'a str)
    ensures
        rest@ == without_hash(text@),
{
    match strip_prefix_char(text, '#') {
        Some(rest) => rest,
        None => text,
    }
}

fn hex_digit_str(d: u32) -> (s: &'static str)
    requires
        d < 16,
    ensures
        s@ == seq![hex_digit(d as int)],
{
    proof {
        reveal_strlit("0");
        reveal_strlit("1");
        reveal_strlit("2");
        reveal_strlit("3");
        reveal_strlit("4");
        reveal_strlit("5");
        reveal_strlit("6");
        reveal_strlit("7");
        reveal_strlit("8");
        reveal_strlit("9");
        reveal_strlit("a");
        reveal_strlit("b");
        reveal_strlit("c");
        reveal_strlit("d");
        reveal_strlit("e");
        reveal_strlit("f");
    }
    let s: &'static str = if d == 0 {
        "0"
    } else if d == 1 {
        "1"
    } else if d == 2 {
        "2"
    } else if d == 3 {
        "3"
    } else if d == 4 {
        "4"
    } else if d == 5 {
        "5"
    } else if d == 6 {
        "6"
    } else if d == 7 {
        "7"
    } else if d == 8 {
        "8"
    } else if d == 9 {
        "9"
    } else if d == 10 {
        "a"
    } else if d == 11 {
        "b"
    } else if d == 12 {
        "c"
    } else if d == 13 {
        "d"
    } else if d == 14 {
        "e"
    } else {
        "f"
    };
    assert(s@ =~= seq![hex_digit(d as int)]);
    s
}

/// Appends `value` in lower-case hexadecimal digits to `text`, with zeros
/// in front where it takes fewer than `width` digits.
pub fn push_hex(text: &mut String, value: u32, width: u32)
    ensures
        final(text)@ == old(text)@ + hex_text(value as nat, width as nat),
    decreases value, width,
{
    if value < 16 && width <= 1 {
        text.append(hex_digit_str(value));
    } else {
        let narrower: u32 = if width >= 1 {
            width - 1
        } else {
            0
        };
        push_hex(text, value / 16, narrower);
        text.append(hex_digit_str(value % 16));
        assert(final(text)@ =~= old(text)@ + hex_text(value as nat, width as nat));
    }
}

/// `#`, then `value` in lower-case hexadecimal digits, with zeros in front
/// where it takes fewer than `width` digits.
pub fn hash_hex(value: u32, width: u32) -> (text: String)
    ensures
        text@ == seq!['#'] + hex_text(value as nat, width as nat),
{
    proof {
        reveal_strlit("#");
    }
    let mut text: String = String::from_str("#");
    assert(text@ =~= seq!['#']);
    push_hex(&mut text, value, width);
    text
}

/// A hexadecimal digit stands for the number it was chosen for.
pub proof fn lemma_digit_roundtrip(d: int)
    requires
        0 <= d < 16,
    ensures
        digit_value(hex_digit(d)) == Some(d),
{
}

/// A number written in hexadecimal is made of digits alone, at least one
/// and at least `width`, and stands for that number.
pub proof fn lemma_hex_text(value: nat, width: nat)
    ensures
        hex_text(value, width).len() >= 1,
        hex_text(value, width).len() >= width,
        is_hex_digits(hex_text(value, width)),
        hex_value(hex_text(value, width)) == value,
        forall|i: int|
            0 <= i < hex_text(value, width).len() ==> (#[trigger] hex_text(value, width)[i]) != '+'
                && hex_text(value, width)[i] != '#',
    decreases value, width,
{
    let text = hex_text(value, width);
    lemma_digit_roundtrip((value % 16) as int);
    if value < 16 && width <= 1 {
        assert(text.drop_last() =~= Seq::<char>::empty());
        assert(hex_value(text.drop_last()) == 0);
        assert(text.last() == hex_digit(value as int));
    } else {
        let narrower: nat = if width >= 1 {
            (width - 1) as nat
        } else {
            0
        };
        let front = hex_text(value / 16, narrower);
        lemma_hex_text(value / 16, narrower);
        assert(text == front + seq![hex_digit((value % 16) as int)]);
        assert(text.drop_last() =~= front);
        assert(text.last() == hex_digit((value % 16) as int));
        assert forall|i: int| 0 <= i < text.len() implies digit_value(#[trigger] text[i])
            is Some && text[i] != '+' && text[i] != '#' by {
            if i < front.len() {
                assert(text[i] == front[i]);
            }
        }
    }
}

/// Sixteen to the power of `exponent`.
pub open spec fn sixteen_to(exponent: nat) -> nat
    decreases exponent,
{
    if exponent == 0 {
        1
    } else {
        16 * sixteen_to((exponent - 1) as nat)
    }
}

/// The width of a number written in hexadecimal: a number below sixteen
/// to the power of `width` takes exactly `width` digits.
pub proof fn lemma_hex_text_len(value: nat, width: nat)
    requires
        width >= 1,
        value < sixteen_to(width),
    ensures
        hex_text(value, width).len() == width,
    decreases value, width,
{
    reveal_with_fuel(sixteen_to, 2);
    if width == 1 {
    } else {
        lemma_hex_text_len(value / 16, (width - 1) as nat);
    }
}

/// Reading what was written gives the number back.
pub proof fn lemma_parse_written(value: u32, width: nat)
    ensures
        parsed_hex(hex_text(value as nat, width)) == Some(value),
        parsed_hex(without_hash(seq!['#'] + hex_text(value as nat, width))) == Some(value),
{
    let text = hex_text(value as nat, width);
    lemma_hex_text(value as nat, width);
    assert(text[0] != '+');
    assert(without_sign(text) == text);
    assert((seq!['#'] + text).skip(1) =~= text);
}

} // verus!
