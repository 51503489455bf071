//! Colors as the registries write them: numbers in code, `#rrggbb` and
//! `#aarrggbb` in text.

use vstd::prelude::*;
use vstd::string::StrSliceExecFns;

use crate::registry::hex::{
    hash_hex,
    hex_text,
    lemma_hex_text_len,
    lemma_parse_written,
    parse_hex_u32,
    parsed_hex,
    sixteen_to,
    strip_hash,
    without_hash,
};

verus! {

/// An RGB color: red in bits 16 to 23, green in bits 8 to 15, blue in the
/// lowest eight bits.
#[derive(Debug, Clone, Copy, PartialEq, Eq, Hash, Structural)]
pub struct RGB(pub u32);

impl RGB {
    /// The color that `text` names: hexadecimal digits, with or without a
    /// `#` in front, of which the lowest 24 bits count.
    pub open spec fn parsed(text: Seq<char>) -> Option<RGB> {
        match parsed_hex(without_hash(text)) {
            Some(value) => Some(RGB(value & 0xFFFFFF)),
            None => None,
        }
    }

    /// The color with the lowest 24 bits of `value`.
    pub fn new(value: u32) -> (color: RGB)
        ensures
            color.0 == value & 0xFFFFFF,
            color.0 <= 0xFFFFFF,
            value <= 0xFFFFFF ==> color.0 == value,
    {
        assert(value & 0xFFFFFF <= 0xFFFFFF && (value <= 0xFFFFFF ==> value & 0xFFFFFF == value))
            by (bit_vector);
        RGB(value & 0xFFFFFF)
    }

    /// The color with the given red, green and blue components.
    pub fn from_rgb(r: u8, g: u8, b: u8) -> (color: RGB)
        ensures
            color.0 == r as u32 * 65536 + g as u32 * 256 + b as u32,
            color.0 == ((r as u32) << 16) | ((g as u32) << 8) | (b as u32),
            color.red() == r,
            color.green() == g,
            color.blue() == b,
    {
        let value: u32 = ((r as u32) << 16) | ((g as u32) << 8) | (b as u32);
        assert({
            let packed = ((r as u32) << 16) | ((g as u32) << 8) | (b as u32);
            &&& packed == r as u32 * 65536 + g as u32 * 256 + b as u32
            &&& (packed >> 16) & 0xFF == r as u32
            &&& (packed >> 8) & 0xFF == g as u32
            &&& packed & 0xFF == b as u32
        }) by (bit_vector);
        RGB(value)
    }

    pub open spec fn spec_red(self) -> u8 {
        ((self.0 >> 16) & 0xFF) as u8
    }

    pub open spec fn spec_green(self) -> u8 {
        ((self.0 >> 8) & 0xFF) as u8
    }

    pub open spec fn spec_blue(self) -> u8 {
        (self.0 & 0xFF) as u8
    }

    /// The red component.
    #[verifier::when_used_as_spec(spec_red)]
    pub fn red(self) -> (r: u8)
        ensures
            r == self.spec_red(),
            r as int == (self.0 as int / 65536) % 256,
    {
        let value: u32 = self.0;
        assert((value >> 16) & 0xFF < 256 && (value >> 16) & 0xFF == (value / 65536) % 256)
            by (bit_vector);
        ((self.0 >> 16) & 0xFF) as u8
    }

    /// The green component.
    #[verifier::when_used_as_spec(spec_green)]
    pub fn green(self) -> (g: u8)
        ensures
            g == self.spec_green(),
            g as int == (self.0 as int / 256) % 256,
    {
        let value: u32 = self.0;
        assert((value >> 8) & 0xFF < 256 && (value >> 8) & 0xFF == (value / 256) % 256)
            by (bit_vector);
        ((self.0 >> 8) & 0xFF) as u8
    }

    /// The blue component.
    #[verifier::when_used_as_spec(spec_blue)]
    pub fn blue(self) -> (b: u8)
        ensures
            b == self.spec_blue(),
            b as int == self.0 as int % 256,
    {
        let value: u32 = self.0;
        assert(value & 0xFF < 256 && value & 0xFF == value % 256) by (bit_vector);
        (self.0 & 0xFF) as u8
    }

    /// The number that holds the color.
    pub fn value(self) -> (value: u32)
        ensures
            value == self.0,
    {
        self.0
    }

    /// The color as `#` and at least six lower-case hexadecimal digits.
    pub fn to_hex_string(self) -> (text: String)
        ensures
            text@ == seq!['#'] + hex_text(self.0 as nat, 6),
    {
        hash_hex(self.0, 6)
    }

    /// Reads a color from hexadecimal digits, with or without a `#` in
    /// front. Of the number read, the lowest 24 bits count.
    pub fn from_hex_string(s: &str) -> (result: Result<RGB, core::num::ParseIntError>)
        ensures
            match result {
                Ok(color) => Self::parsed(s@) == Some(color),
                Err(_) => Self::parsed(s@) is None,
            },
    {
        let hex_str: &str = strip_hash(s);
        match parse_hex_u32(hex_str) {
            Ok(value) => Ok(RGB::new(value)),
            Err(error) => Err(error),
        }
    }
}

/// An ARGB color: alpha in the highest eight bits, then red, green and
/// blue as in [`RGB`].
#[derive(Debug, Clone, Copy, PartialEq, Eq, Hash, Structural)]
pub struct ARGB(pub u32);

impl ARGB {
    /// The color that `text` names: hexadecimal digits, with or without a
    /// `#` in front. Six characters name red, green and blue of an opaque
    /// color; any other number of them names all 32 bits.
    pub open spec fn parsed(text: Seq<char>) -> Option<ARGB> {
        let hex = without_hash(text);
        match parsed_hex(hex) {
            Some(value) => Some(
                if hex.len() == 6 {
                    ARGB(0xFF000000 | value)
                } else {
                    ARGB(value)
                },
            ),
            None => None,
        }
    }

    pub fn new(value: u32) -> (color: ARGB)
        ensures
            color.0 == value,
    {
        ARGB(value)
    }

    /// The color with the given alpha, red, green and blue components.
    pub fn from_argb(a: u8, r: u8, g: u8, b: u8) -> (color: ARGB)
        ensures
            color.0 == a as u32 * 16777216 + r as u32 * 65536 + g as u32 * 256 + b as u32,
            color.0 == ((a as u32) << 24) | ((r as u32) << 16) | ((g as u32) << 8) | (b as u32),
            color.alpha() == a,
            color.red() == r,
            color.green() == g,
            color.blue() == b,
    {
        let value: u32 = ((a as u32) << 24) | ((r as u32) << 16) | ((g as u32) << 8) | (b as u32);
        assert({
            let packed = ((a as u32) << 24) | ((r as u32) << 16) | ((g as u32) << 8) | (b as u32);
            &&& packed == a as u32 * 16777216 + r as u32 * 65536 + g as u32 * 256 + b as u32
            &&& (packed >> 24) & 0xFF == a as u32
            &&& (packed >> 16) & 0xFF == r as u32
            &&& (packed >> 8) & 0xFF == g as u32
            &&& packed & 0xFF == b as u32
        }) by (bit_vector);
        ARGB(value)
    }

    /// The opaque color with the given red, green and blue components.
    pub fn from_rgb(r: u8, g: u8, b: u8) -> (color: ARGB)
        ensures
            color.0 == 0xFF000000 + r as u32 * 65536 + g as u32 * 256 + b as u32,
            color.alpha() == 255,
            color.red() == r,
            color.green() == g,
            color.blue() == b,
    {
        Self::from_argb(255, r, g, b)
    }

    pub open spec fn spec_alpha(self) -> u8 {
        ((self.0 >> 24) & 0xFF) as u8
    }

    pub open spec fn spec_red(self) -> u8 {
        ((self.0 >> 16) & 0xFF) as u8
    }

    pub open spec fn spec_green(self) -> u8 {
        ((self.0 >> 8) & 0xFF) as u8
    }

    pub open spec fn spec_blue(self) -> u8 {
        (self.0 & 0xFF) as u8
    }

    /// The alpha component: 255 for an opaque color, 0 for a transparent
    /// one.
    #[verifier::when_used_as_spec(spec_alpha)]
    pub fn alpha(self) -> (a: u8)
        ensures
            a == self.spec_alpha(),
            a as int == self.0 as int / 16777216,
    {
        let value: u32 = self.0;
        assert((value >> 24) & 0xFF < 256 && (value >> 24) & 0xFF == value / 16777216)
            by (bit_vector);
        ((self.0 >> 24) & 0xFF) as u8
    }

    /// The red component.
    #[verifier::when_used_as_spec(spec_red)]
    pub fn red(self) -> (r: u8)
        ensures
            r == self.spec_red(),
            r as int == (self.0 as int / 65536) % 256,
    {
        let value: u32 = self.0;
        assert((value >> 16) & 0xFF < 256 && (value >> 16) & 0xFF == (value / 65536) % 256)
            by (bit_vector);
        ((self.0 >> 16) & 0xFF) as u8
    }

    /// The green component.
    #[verifier::when_used_as_spec(spec_green)]
    pub fn green(self) -> (g: u8)
        ensures
            g == self.spec_green(),
            g as int == (self.0 as int / 256) % 256,
    {
        let value: u32 = self.0;
        assert((value >> 8) & 0xFF < 256 && (value >> 8) & 0xFF == (value / 256) % 256)
            by (bit_vector);
        ((self.0 >> 8) & 0xFF) as u8
    }

    /// The blue component.
    #[verifier::when_used_as_spec(spec_blue)]
    pub fn blue(self) -> (b: u8)
        ensures
            b == self.spec_blue(),
            b as int == self.0 as int % 256,
    {
        let value: u32 = self.0;
        assert(value & 0xFF < 256 && value & 0xFF == value % 256) by (bit_vector);
        (self.0 & 0xFF) as u8
    }

    /// The number that holds the color.
    pub fn value(self) -> (value: u32)
        ensures
            value == self.0,
    {
        self.0
    }

    /// The color as `#` and eight lower-case hexadecimal digits, alpha
    /// first.
    pub fn to_hex_string(self) -> (text: String)
        ensures
            text@ == seq!['#'] + hex_text(self.0 as nat, 8),
    {
        hash_hex(self.0, 8)
    }

    /// Reads a color from hexadecimal digits, with or without a `#` in
    /// front: six characters are red, green and blue of an opaque color,
    /// any other number of them is alpha, red, green and blue.
    pub fn from_hex_string(s: &str) -> (result: Result<ARGB, core::num::ParseIntError>)
        ensures
            match result {
                Ok(color) => Self::parsed(s@) == Some(color),
                Err(_) => Self::parsed(s@) is None,
            },
    {
        let hex_str: &str = strip_hash(s);
        match parse_hex_u32(hex_str) {
            Ok(value) => {
                if hex_str.unicode_len() == 6 {
                    Ok(ARGB::new(0xFF000000 | value))
                } else {
                    Ok(ARGB::new(value))
                }
            },
            Err(error) => Err(error),
        }
    }

    /// Whether the color is fully opaque.
    pub fn is_opaque(self) -> (b: bool)
        ensures
            b == (self.alpha() == 255),
            b == (self.0 >= 0xFF000000),
    {
        self.alpha() == 255
    }

    /// Whether the color is fully transparent.
    pub fn is_transparent(self) -> (b: bool)
        ensures
            b == (self.alpha() == 0),
            b == (self.0 < 0x01000000),
    {
        self.alpha() == 0
    }
}

impl From<u32> for ARGB {
    fn from(value: u32) -> (color: ARGB) {
        ARGB::new(value)
    }
}

impl vstd::std_specs::convert::FromSpecImpl<u32> for ARGB {
    open spec fn obeys_from_spec() -> bool {
        true
    }

    open spec fn from_spec(value: u32) -> ARGB {
        ARGB(value)
    }
}

impl From<ARGB> for u32 {
    fn from(color: ARGB) -> (value: u32) {
        color.0
    }
}

impl vstd::std_specs::convert::FromSpecImpl<ARGB> for u32 {
    open spec fn obeys_from_spec() -> bool {
        true
    }

    open spec fn from_spec(color: ARGB) -> u32 {
        color.0
    }
}

impl From<RGB> for ARGB {
    fn from(rgb: RGB) -> (color: ARGB) {
        ARGB::new(0xFF000000 | rgb.0)
    }
}

impl vstd::std_specs::convert::FromSpecImpl<RGB> for ARGB {
    open spec fn obeys_from_spec() -> bool {
        true
    }

    open spec fn from_spec(rgb: RGB) -> ARGB {
        ARGB(0xFF000000 | rgb.0)
    }
}

/// Writing a color of 24 bits and reading the text gives the color back;
/// the text is `#` and exactly six digits.
pub proof fn lemma_rgb_text_roundtrip(color: RGB)
    requires
        color.0 <= 0xFFFFFF,
    ensures
        RGB::parsed(seq!['#'] + hex_text(color.0 as nat, 6)) == Some(color),
        (seq!['#'] + hex_text(color.0 as nat, 6)).len() == 7,
{
    let value: u32 = color.0;
    lemma_parse_written(value, 6);
    assert(value <= 0xFFFFFF ==> value & 0xFFFFFF == value) by (bit_vector);
    reveal_with_fuel(sixteen_to, 7);
    lemma_hex_text_len(value as nat, 6);
}

/// Writing a color with alpha and reading the text gives the color back;
/// the text is `#` and exactly eight digits.
pub proof fn lemma_argb_text_roundtrip(color: ARGB)
    ensures
        ARGB::parsed(seq!['#'] + hex_text(color.0 as nat, 8)) == Some(color),
        (seq!['#'] + hex_text(color.0 as nat, 8)).len() == 9,
{
    let value: u32 = color.0;
    lemma_parse_written(value, 8);
    reveal_with_fuel(sixteen_to, 9);
    lemma_hex_text_len(value as nat, 8);
    assert((seq!['#'] + hex_text(value as nat, 8)).skip(1) =~= hex_text(value as nat, 8));
}

/// The text of a color without alpha reads, as a color with alpha, as the
/// same color made opaque.
pub proof fn lemma_rgb_text_reads_opaque(color: RGB)
    requires
        color.0 <= 0xFFFFFF,
    ensures
        ARGB::parsed(seq!['#'] + hex_text(color.0 as nat, 6)) == Some(ARGB(0xFF000000 | color.0)),
{
    let value: u32 = color.0;
    lemma_parse_written(value, 6);
    reveal_with_fuel(sixteen_to, 7);
    lemma_hex_text_len(value as nat, 6);
    assert((seq!['#'] + hex_text(value as nat, 6)).skip(1) =~= hex_text(value as nat, 6));
}

} // verus!
