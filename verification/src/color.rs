//! `#RRGGBB` colour parsing.
use vstd::prelude::*;
use vstd::string::StringSliceAdditionalSpecFns;
use vstd::utf8::is_continuation_byte;

verus! {

/// Why a colour string was refused.
#[derive(Debug, Clone, Copy, PartialEq, Eq, Structural)]
pub enum ColorError {
    /// After an optional leading `#` the text is not six bytes long.
    Format,
    /// A pair of the six bytes is not a hexadecimal number.
    InvalidDigit,
}

impl ColorError {
    /// The message shown to the user.
    pub fn message(&self) -> (text: String)
        ensures
            text@ == self.spec_message(),
    {
        match self {
            ColorError::Format => "색상은 #RRGGBB 형식이어야 합니다.".to_owned(),
            ColorError::InvalidDigit => "잘못된 색상입니다.".to_owned(),
        }
    }

    /// The message shown to the user.
    pub open spec fn spec_message(&self) -> Seq<char> {
        match self {
            ColorError::Format => "색상은 #RRGGBB 형식이어야 합니다."@,
            ColorError::InvalidDigit => "잘못된 색상입니다."@,
        }
    }
}

/// The bytes after one leading `#`, if there is one.
pub open spec fn hex_part(bytes: Seq<u8>) -> Seq<u8> {
    if bytes.len() > 0 && bytes[0] == 0x23 {
        bytes.drop_first()
    } else {
        bytes
    }
}

/// The value of a hexadecimal digit (`0-9`, `a-f`, `A-F`).
pub open spec fn hex_digit(byte: u8) -> Option<u8> {
    if 0x30 <= byte <= 0x39 {
        Some((byte - 0x30) as u8)
    } else if 0x61 <= byte <= 0x66 {
        Some((byte - 0x57) as u8)
    } else if 0x41 <= byte <= 0x46 {
        Some((byte - 0x37) as u8)
    } else {
        None
    }
}

/// Two bytes read as an unsigned hexadecimal number: either two digits, or
/// a `+` sign followed by one digit.
pub open spec fn hex_pair(high: u8, low: u8) -> Option<u8> {
    if high == 0x2b {
        hex_digit(low)
    } else {
        match (hex_digit(high), hex_digit(low)) {
            (Some(h), Some(l)) => Some((16 * h + l) as u8),
            _ => None,
        }
    }
}

/// The text can be cut into its three byte pairs without cutting a
/// character in two: cutting inside a character is not defined.
pub open spec fn hex_color_cuttable(bytes: Seq<u8>) -> bool {
    let hex = hex_part(bytes);
    hex.len() != 6 || (!is_continuation_byte(hex[2]) && !is_continuation_byte(hex[4]))
}

/// The red, green and blue components that `bytes` denote, or why they
/// denote none.
pub open spec fn parsed_hex_color(bytes: Seq<u8>) -> Result<Seq<u8>, ColorError> {
    let hex = hex_part(bytes);
    if hex.len() != 6 {
        Err(ColorError::Format)
    } else {
        match (hex_pair(hex[0], hex[1]), hex_pair(hex[2], hex[3]), hex_pair(hex[4], hex[5])) {
            (Some(r), Some(g), Some(b)) => Ok(seq![r, g, b]),
            _ => Err(ColorError::InvalidDigit),
        }
    }
}

/// Whether a parse result matches its specification.
pub open spec fn color_result_matches(
    result: Result<[u8; 3], ColorError>,
    expected: Result<Seq<u8>, ColorError>,
) -> bool {
    match (result, expected) {
        (Ok(rgb), Ok(components)) => rgb@ == components,
        (Err(e), Err(f)) => e == f,
        _ => false,
    }
}

fn digit_value(byte: u8) -> (value: Option<u8>)
    ensures
        value == hex_digit(byte),
{
    if 0x30 <= byte && byte <= 0x39 {
        Some(byte - 0x30)
    } else if 0x61 <= byte && byte <= 0x66 {
        Some(byte - 0x57)
    } else if 0x41 <= byte && byte <= 0x46 {
        Some(byte - 0x37)
    } else {
        None
    }
}

fn pair_value(high: u8, low: u8) -> (value: Option<u8>)
    ensures
        value == hex_pair(high, low),
{
    if high == 0x2b {
        digit_value(low)
    } else {
        match (digit_value(high), digit_value(low)) {
            (Some(h), Some(l)) => Some(16 * h + l),
            _ => None,
        }
    }
}

/// Parses `#RRGGBB` (the `#` may be left out) into red, green and blue.
pub fn parse_hex_color(value: &str) -> (rgb: Result<[u8; 3], ColorError>)
    requires
        hex_color_cuttable(value.spec_bytes()),
    ensures
        color_result_matches(rgb, parsed_hex_color(value.spec_bytes())),
{
    let bytes = value.as_bytes();
    let n = bytes.len();
    let start: usize = if n > 0 && bytes[0] == 0x23 { 1 } else { 0 };
    if n - start != 6 {
        return Err(ColorError::Format);
    }
    let ghost hex = hex_part(bytes@);
    assert(hex =~= bytes@.skip(start as int));
    let red = pair_value(bytes[start], bytes[start + 1]);
    let green = pair_value(bytes[start + 2], bytes[start + 3]);
    let blue = pair_value(bytes[start + 4], bytes[start + 5]);
    match (red, green, blue) {
        (Some(r), Some(g), Some(b)) => {
            let rgb = [r, g, b];
            assert(rgb@ =~= seq![r, g, b]);
            Ok(rgb)
        },
        _ => Err(ColorError::InvalidDigit),
    }
}

/// The leading `#` is optional: a colour reads the same with and without it.
pub proof fn lemma_hash_optional(bytes: Seq<u8>)
    requires
        bytes.len() == 0 || bytes[0] != 0x23,
    ensures
        parsed_hex_color(seq![0x23u8] + bytes) == parsed_hex_color(bytes),
        hex_color_cuttable(seq![0x23u8] + bytes) == hex_color_cuttable(bytes),
{
    assert((seq![0x23u8] + bytes).drop_first() =~= bytes);
}

/// The ASCII character of the hexadecimal digit `n` (0 to 15): `0`-`9`, then
/// `a`-`f`, or `A`-`F` when `upper` is set.
pub open spec fn hex_char(n: int, upper: bool) -> u8 {
    if n < 10 {
        (48 + n) as u8
    } else if upper {
        (55 + n) as u8
    } else {
        (87 + n) as u8
    }
}

/// `#` followed by the two-digit hexadecimal spellings of `r`, `g` and `b`,
/// high digit first, each digit in the case that `upper` gives it.
pub open spec fn hex_color_text(r: u8, g: u8, b: u8, upper: Seq<bool>) -> Seq<u8> {
    seq![
        0x23u8,
        hex_char((r / 16) as int, upper[0]),
        hex_char((r % 16) as int, upper[1]),
        hex_char((g / 16) as int, upper[2]),
        hex_char((g % 16) as int, upper[3]),
        hex_char((b / 16) as int, upper[4]),
        hex_char((b % 16) as int, upper[5]),
    ]
}

proof fn lemma_hex_char_digit(n: int, upper: bool)
    requires
        0 <= n < 16,
    ensures
        hex_digit(hex_char(n, upper)) == Some(n as u8),
        hex_char(n, upper) != 0x2b,
        hex_char(n, upper) < 0x80,
{
}

/// Every colour round-trips through its hexadecimal spelling: `#` and six
/// digits from `0-9`, `a-f`, `A-F` (either case, digit by digit) always parse,
/// and each component is sixteen times its high digit plus its low digit.
pub proof fn lemma_hex_color_round_trip(r: u8, g: u8, b: u8, upper: Seq<bool>)
    requires
        upper.len() == 6,
    ensures
        hex_color_cuttable(hex_color_text(r, g, b, upper)),
        parsed_hex_color(hex_color_text(r, g, b, upper)) == Ok::<Seq<u8>, ColorError>(seq![r, g, b]),
{
    let text = hex_color_text(r, g, b, upper);
    lemma_hex_char_digit((r / 16) as int, upper[0]);
    lemma_hex_char_digit((r % 16) as int, upper[1]);
    lemma_hex_char_digit((g / 16) as int, upper[2]);
    lemma_hex_char_digit((g % 16) as int, upper[3]);
    lemma_hex_char_digit((b / 16) as int, upper[4]);
    lemma_hex_char_digit((b % 16) as int, upper[5]);
    let hex = hex_part(text);
    assert(hex =~= text.drop_first());
    assert(hex_pair(hex[0], hex[1]) == Some(r));
    assert(hex_pair(hex[2], hex[3]) == Some(g));
    assert(hex_pair(hex[4], hex[5]) == Some(b));
}

/// Whether `value` can be cut into its three byte pairs without cutting a
/// character in two, which `parse_hex_color` needs.
pub fn hex_color_is_cuttable(value: &str) -> (cuttable: bool)
    ensures
        cuttable == hex_color_cuttable(value.spec_bytes()),
{
    let bytes = value.as_bytes();
    let n = bytes.len();
    let start: usize = if n > 0 && bytes[0] == 0x23 { 1 } else { 0 };
    if n - start != 6 {
        return true;
    }
    let ghost hex = hex_part(bytes@);
    assert(hex =~= bytes@.skip(start as int));
    let third = bytes[start + 2];
    let fifth = bytes[start + 4];
    !(0x80 <= third && third <= 0xbf) && !(0x80 <= fifth && fifth <= 0xbf)
}

} // verus!
