//! The color model: an RGB color, independent of any UI toolkit, and how
//! it is read from CSS color text.
use vstd::prelude::*;

verus! {

/// An RGB color, independent of any particular UI toolkit's color type.
///
/// Parsing from a CSS-style hex or named color string (e.g. `"#00cc00"`)
/// is provided by [`Color::from_str`].
#[derive(Clone, Copy, PartialEq, Eq, Structural, Debug)]
pub struct Color {
    pub r: u8,
    pub g: u8,
    pub b: u8,
}

impl Color {
    /// Black: every channel off.
    pub fn black() -> (c: Color)
        ensures
            c == (Color { r: 0, g: 0, b: 0 }),
    {
        Color { r: 0, g: 0, b: 0 }
    }

    /// White: every channel full.
    pub fn white() -> (c: Color)
        ensures
            c == (Color { r: 255, g: 255, b: 255 }),
    {
        Color { r: 255, g: 255, b: 255 }
    }

    /// The default color shown while no session runs: a teal.
    pub fn idle() -> (c: Color)
        ensures
            c == (Color { r: 0, g: 204, b: 204 }),
    {
        Color { r: 0, g: 204, b: 204 }
    }

    /// The color of the red, green and blue channels of `rgba`; the alpha
    /// channel is dropped.
    pub fn from_rgba8(rgba: [u8; 4]) -> (c: Color)
        ensures
            c.r == rgba@[0],
            c.g == rgba@[1],
            c.b == rgba@[2],
    {
        Color { r: rgba[0], g: rgba[1], b: rgba[2] }
    }

    /// Parses a CSS color (hex, named, `rgb()`, `hsl()` and the other CSS
    /// forms) and keeps its red, green and blue channels. A `#` and hex
    /// digits are read as `hex_rgba8` says; a plain word of ASCII letters and
    /// digits as `plain_rgba8` says (`transparent`, hex digits without `#`,
    /// or a named color). Of the functional forms, which the parser computes
    /// in floating point, only the error text is stated.
    pub fn from_str(text: &str) -> (res: Result<Color, ColorParseError>)
        ensures
            in_hex_notation(text@) ==> (res is Ok <==> hex_rgba8(text@.drop_first()) is Some),
            in_hex_notation(text@) ==> (res matches Ok(c) ==> ({
                let rgba = hex_rgba8(text@.drop_first())->0;
                c.r == rgba[0] && c.g == rgba[1] && c.b == rgba[2]
            })),
            in_plain_notation(text@) ==> (res is Ok <==> plain_rgba8(text@) is Some),
            in_plain_notation(text@) ==> (res matches Ok(c) ==> ({
                let rgba = plain_rgba8(text@)->0;
                c.r == rgba[0] && c.g == rgba[1] && c.b == rgba[2]
            })),
            res matches Err(e) ==> is_css_error_message(e.message@),
    {
        match parse_css_rgba8(text) {
            Ok(rgba) => Ok(Color::from_rgba8(rgba)),
            Err(e) => Err(ColorParseError { message: css_error_text(&e) }),
        }
    }
}

impl std::str::FromStr for Color {
    type Err = ColorParseError;

    fn from_str(text: &str) -> (res: Result<Color, ColorParseError>)
        ensures
            in_hex_notation(text@) ==> (res is Ok <==> hex_rgba8(text@.drop_first()) is Some),
            in_hex_notation(text@) ==> (res matches Ok(c) ==> ({
                let rgba = hex_rgba8(text@.drop_first())->0;
                c.r == rgba[0] && c.g == rgba[1] && c.b == rgba[2]
            })),
            in_plain_notation(text@) ==> (res is Ok <==> plain_rgba8(text@) is Some),
            in_plain_notation(text@) ==> (res matches Ok(c) ==> ({
                let rgba = plain_rgba8(text@)->0;
                c.r == rgba[0] && c.g == rgba[1] && c.b == rgba[2]
            })),
            res matches Err(e) ==> is_css_error_message(e.message@),
    {
        Color::from_str(text)
    }
}

/// Why a text is not a CSS color, in words.
pub struct ColorParseError {
    pub message: String,
}

/// How a theme's color is computed between two gradient stops.
///
/// Only `Lerp` is implemented; the other variants exist for future use.
#[derive(Clone, Copy, PartialEq, Eq, Structural, Debug)]
pub enum InterpolationMethod {
    /// Linear interpolation of the `r`, `g`, and `b` channels independently.
    Lerp,
    LinearRGB,
    Oklab,
}

/// Whether `c` is an ASCII letter or digit.
pub open spec fn is_ascii_alphanumeric(c: char) -> bool {
    (48 <= c as int <= 57) || (65 <= c as int <= 90) || (97 <= c as int <= 122)
}

/// Whether `c` is an ASCII hexadecimal digit, in either case.
pub open spec fn is_hex_digit(c: char) -> bool {
    (48 <= c as int <= 57) || (65 <= c as int <= 70) || (97 <= c as int <= 102)
}

/// The value of the hexadecimal digit `c`.
pub open spec fn hex_digit_value(c: char) -> int {
    if 48 <= c as int <= 57 {
        c as int - 48
    } else if 65 <= c as int <= 70 {
        c as int - 55
    } else {
        c as int - 87
    }
}

/// Whether `text` is `#` followed only by ASCII letters and digits: such a
/// text is read as hexadecimal notation and as nothing else.
pub open spec fn in_hex_notation(text: Seq<char>) -> bool {
    &&& text.len() >= 1
    &&& text[0] == '#'
    &&& forall|i: int| 1 <= i < text.len() ==> is_ascii_alphanumeric(#[trigger] text[i])
}

/// The channel written by the single digit `digits[i]`, repeated.
pub open spec fn short_channel(digits: Seq<char>, i: int) -> u8 {
    (hex_digit_value(digits[i]) * 17) as u8
}

/// The channel written by the two digits from `digits[2 * i]`.
pub open spec fn long_channel(digits: Seq<char>, i: int) -> u8 {
    (hex_digit_value(digits[2 * i]) * 16 + hex_digit_value(digits[2 * i + 1])) as u8
}

/// The red, green, blue and alpha bytes of the hexadecimal digits after a
/// `#`: three or four single digits, or six or eight digits in pairs, the
/// alpha full where it is left out; `None` for any other digits.
pub open spec fn hex_rgba8(digits: Seq<char>) -> Option<Seq<u8>> {
    if !(forall|i: int| 0 <= i < digits.len() ==> is_hex_digit(#[trigger] digits[i])) {
        None
    } else if digits.len() == 3 || digits.len() == 4 {
        Some(
            seq![
                short_channel(digits, 0),
                short_channel(digits, 1),
                short_channel(digits, 2),
                if digits.len() == 4 { short_channel(digits, 3) } else { 255u8 },
            ],
        )
    } else if digits.len() == 6 || digits.len() == 8 {
        Some(
            seq![
                long_channel(digits, 0),
                long_channel(digits, 1),
                long_channel(digits, 2),
                if digits.len() == 8 { long_channel(digits, 3) } else { 255u8 },
            ],
        )
    } else {
        None
    }
}

/// Whether `text` is a plain word: ASCII letters and digits only, so that
/// it has no whitespace to trim, no `#` and no parentheses.
pub open spec fn in_plain_notation(text: Seq<char>) -> bool {
    forall|i: int| 0 <= i < text.len() ==> is_ascii_alphanumeric(#[trigger] text[i])
}

/// `c` with an ASCII capital letter made small.
pub open spec fn ascii_lowercase(c: char) -> int {
    if 65 <= c as int <= 90 {
        c as int + 32
    } else {
        c as int
    }
}

/// Whether `text` is `transparent`, ignoring ASCII case.
pub open spec fn is_transparent(text: Seq<char>) -> bool {
    let word = "transparent"@;
    &&& text.len() == word.len()
    &&& forall|i: int| 0 <= i < text.len() ==> ascii_lowercase(#[trigger] text[i]) == word[i] as int
}

/// The red, green and blue bytes that csscolorparser's table of CSS named
/// colors gives `text`, matched without regard to ASCII case, where `text`
/// is 3 to 20 characters long; `None` where the table has no such name.
pub uninterp spec fn css_named_rgb8(text: Seq<char>) -> Option<Seq<u8>>;

/// The red, green, blue and alpha bytes of a plain word: `transparent` is
/// all zeros; hex digits are read as `hex_rgba8` says; otherwise a named
/// color, fully opaque; `None` for any other word.
pub open spec fn plain_rgba8(text: Seq<char>) -> Option<Seq<u8>> {
    if is_transparent(text) {
        Some(seq![0u8, 0u8, 0u8, 0u8])
    } else if hex_rgba8(text) is Some {
        hex_rgba8(text)
    } else {
        match css_named_rgb8(text) {
            Some(rgb) => Some(rgb.push(255u8)),
            None => None,
        }
    }
}

/// Whether `text` is one of the texts that csscolorparser gives its parse
/// errors.
pub open spec fn is_css_error_message(text: Seq<char>) -> bool {
    ||| text == "invalid hex format"@
    ||| text == "invalid rgb format"@
    ||| text == "invalid hsl format"@
    ||| text == "invalid hwb format"@
    ||| text == "invalid hsv format"@
    ||| text == "invalid lab format"@
    ||| text == "invalid lch format"@
    ||| text == "invalid oklab format"@
    ||| text == "invalid oklch format"@
    ||| text == "invalid color format"@
    ||| text == "invalid color function"@
    ||| text == "invalid unknown format"@
}

#[verifier::external_type_specification]
#[verifier::external_body]
pub struct ExParseColorError(csscolorparser::ParseColorError);

/// `csscolorparser::parse`, its color taken as bytes by
/// `csscolorparser::Color::to_rgba8`. A text in hexadecimal notation, and a
/// plain word (`transparent`, hex digits without `#`, a named color), is
/// read with integer arithmetic or a fixed table, and `to_rgba8` gives the
/// bytes back unchanged, so the contract states them: the table's entries
/// through the name `css_named_rgb8`. The functional forms (`rgb()`,
/// `lab()` and the rest) are computed in floating point, partly with
/// functions whose precision std leaves open, so of them nothing is stated.
#[verifier::external_body]
fn parse_css_rgba8(text: &str) -> (res: Result<[u8; 4], csscolorparser::ParseColorError>)
    ensures
        in_hex_notation(text@) ==> (res is Ok <==> hex_rgba8(text@.drop_first()) is Some),
        in_hex_notation(text@) ==> (res matches Ok(rgba) ==> hex_rgba8(text@.drop_first()) == Some(rgba@)),
        in_plain_notation(text@) ==> (res is Ok <==> plain_rgba8(text@) is Some),
        in_plain_notation(text@) ==> (res matches Ok(rgba) ==> plain_rgba8(text@) == Some(rgba@)),
        in_plain_notation(text@) && !is_transparent(text@) && hex_rgba8(text@) is None ==> (res
            is Ok <==> css_named_rgb8(text@) is Some),
        in_plain_notation(text@) && !is_transparent(text@) && hex_rgba8(text@) is None ==> (
        res matches Ok(rgba) ==> css_named_rgb8(text@) == Some(rgba@.take(3)) && rgba@[3] == 255),
{
    match csscolorparser::parse(text) {
        Ok(c) => Ok(c.to_rgba8()),
        Err(e) => Err(e),
    }
}

/// The `Display` text of a `csscolorparser::ParseColorError`: one of the
/// twelve texts that its `Display` writes, one per variant. Which variant
/// an error is stays unstated, since the error type is opaque here.
#[verifier::external_body]
fn css_error_text(e: &csscolorparser::ParseColorError) -> (s: String)
    ensures
        is_css_error_message(s@),
{
    e.to_string()
}

} // verus!
