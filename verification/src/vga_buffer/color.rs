//! The sixteen-colour palette and the attribute byte that pairs a foreground
//! with a background.

use vstd::prelude::*;

verus! {

/// A colour of the text-mode palette. The hardware knows each by a four-bit code,
/// from `0x0` for black to `0xf` for white.
#[derive(Debug, Clone, Copy, PartialEq, Eq, Structural)]
pub enum Color {
    Black,
    Blue,
    Green,
    Cyan,
    Red,
    Magenta,
    Brown,
    LightGrey,
    DarkGray,
    LightBlue,
    LightGreen,
    LightCyan,
    LightRed,
    Pink,
    Yellow,
    White,
}

impl Color {
    /// The four-bit hardware code of this colour.
    pub open spec fn spec_code(self) -> u8 {
        match self {
            Color::Black => 0x0,
            Color::Blue => 0x1,
            Color::Green => 0x2,
            Color::Cyan => 0x3,
            Color::Red => 0x4,
            Color::Magenta => 0x5,
            Color::Brown => 0x6,
            Color::LightGrey => 0x7,
            Color::DarkGray => 0x8,
            Color::LightBlue => 0x9,
            Color::LightGreen => 0xa,
            Color::LightCyan => 0xb,
            Color::LightRed => 0xc,
            Color::Pink => 0xd,
            Color::Yellow => 0xe,
            Color::White => 0xf,
        }
    }

    /// The colour that a four-bit code stands for; `None` for a code above `0xf`.
    pub open spec fn spec_from_code(code: u8) -> Option<Color> {
        if code == 0x0 {
            Some(Color::Black)
        } else if code == 0x1 {
            Some(Color::Blue)
        } else if code == 0x2 {
            Some(Color::Green)
        } else if code == 0x3 {
            Some(Color::Cyan)
        } else if code == 0x4 {
            Some(Color::Red)
        } else if code == 0x5 {
            Some(Color::Magenta)
        } else if code == 0x6 {
            Some(Color::Brown)
        } else if code == 0x7 {
            Some(Color::LightGrey)
        } else if code == 0x8 {
            Some(Color::DarkGray)
        } else if code == 0x9 {
            Some(Color::LightBlue)
        } else if code == 0xa {
            Some(Color::LightGreen)
        } else if code == 0xb {
            Some(Color::LightCyan)
        } else if code == 0xc {
            Some(Color::LightRed)
        } else if code == 0xd {
            Some(Color::Pink)
        } else if code == 0xe {
            Some(Color::Yellow)
        } else if code == 0xf {
            Some(Color::White)
        } else {
            None
        }
    }

    /// The four-bit hardware code of this colour.
    #[verifier::when_used_as_spec(spec_code)]
    pub fn code(self) -> (code: u8)
        ensures
            code == self.spec_code(),
            code <= 0xf,
    {
        match self {
            Color::Black => 0x0,
            Color::Blue => 0x1,
            Color::Green => 0x2,
            Color::Cyan => 0x3,
            Color::Red => 0x4,
            Color::Magenta => 0x5,
            Color::Brown => 0x6,
            Color::LightGrey => 0x7,
            Color::DarkGray => 0x8,
            Color::LightBlue => 0x9,
            Color::LightGreen => 0xa,
            Color::LightCyan => 0xb,
            Color::LightRed => 0xc,
            Color::Pink => 0xd,
            Color::Yellow => 0xe,
            Color::White => 0xf,
        }
    }

    /// The colour that a four-bit code stands for.
    pub fn from_code(code: u8) -> (color: Option<Color>)
        ensures
            color == Color::spec_from_code(code),
            color is Some <==> code <= 0xf,
            color matches Some(c) ==> c.spec_code() == code,
    {
        match code {
            0x0 => Some(Color::Black),
            0x1 => Some(Color::Blue),
            0x2 => Some(Color::Green),
            0x3 => Some(Color::Cyan),
            0x4 => Some(Color::Red),
            0x5 => Some(Color::Magenta),
            0x6 => Some(Color::Brown),
            0x7 => Some(Color::LightGrey),
            0x8 => Some(Color::DarkGray),
            0x9 => Some(Color::LightBlue),
            0xa => Some(Color::LightGreen),
            0xb => Some(Color::LightCyan),
            0xc => Some(Color::LightRed),
            0xd => Some(Color::Pink),
            0xe => Some(Color::Yellow),
            0xf => Some(Color::White),
            _ => None,
        }
    }
}

/// The code table reads the same in both directions: a colour's code names
/// that colour again, and no two colours share a code.
pub proof fn lemma_color_table_bijective(a: Color, b: Color)
    ensures
        a.spec_code() <= 0xf,
        Color::spec_from_code(a.spec_code()) == Some(a),
        a.spec_code() == b.spec_code() ==> a == b,
{
}

/// The attribute byte stored beside each character: the background colour in
/// the high four bits, the foreground colour in the low four.
#[derive(Debug, Clone, Copy, PartialEq, Eq, Structural)]
pub struct ColorCode(pub u8);

impl ColorCode {
    /// The attribute byte for `foreground` on `background`.
    pub open spec fn spec_new(foreground: Color, background: Color) -> ColorCode {
        ColorCode((background.spec_code() << 4) | foreground.spec_code())
    }

    /// The low four bits: the code of the foreground colour.
    pub open spec fn spec_foreground(self) -> u8 {
        self.0 & 0x0f
    }

    /// The high four bits: the code of the background colour.
    pub open spec fn spec_background(self) -> u8 {
        self.0 >> 4
    }

    /// Packs `foreground` and `background` into one attribute byte.
    #[verifier::when_used_as_spec(spec_new)]
    pub fn new(foreground: Color, background: Color) -> (color_code: ColorCode)
        ensures
            color_code == ColorCode::spec_new(foreground, background),
            color_code.0 == background.spec_code() * 16 + foreground.spec_code(),
    {
        let fg: u8 = foreground.code();
        let bg: u8 = background.code();
        proof {
            lemma_pack_nibbles(fg, bg);
        }
        ColorCode((bg << 4) | fg)
    }

    /// The code of the foreground colour.
    #[verifier::when_used_as_spec(spec_foreground)]
    pub fn foreground(self) -> (code: u8)
        ensures
            code == self.spec_foreground(),
            code <= 0xf,
    {
        let byte: u8 = self.0;
        assert(byte & 0x0f <= 0xf) by (bit_vector);
        byte & 0x0f
    }

    /// The code of the background colour.
    #[verifier::when_used_as_spec(spec_background)]
    pub fn background(self) -> (code: u8)
        ensures
            code == self.spec_background(),
            code <= 0xf,
    {
        let byte: u8 = self.0;
        assert(byte >> 4 <= 0xf) by (bit_vector);
        byte >> 4
    }
}

/// Two four-bit values packed into a byte: the byte is `high * 16 + low`, and
/// each value can be read back from its half.
pub proof fn lemma_pack_nibbles(low: u8, high: u8)
    requires
        low <= 0xf,
        high <= 0xf,
    ensures
        ((high << 4) | low) == high * 16 + low,
        ((high << 4) | low) & 0x0f == low,
        ((high << 4) | low) >> 4 == high,
{
    assert(((high << 4) | low) == high * 16 + low) by (bit_vector)
        requires
            low <= 0xf,
            high <= 0xf,
    ;
    assert(((high << 4) | low) & 0x0f == low) by (bit_vector)
        requires
            low <= 0xf,
            high <= 0xf,
    ;
    assert(((high << 4) | low) >> 4 == high) by (bit_vector)
        requires
            low <= 0xf,
            high <= 0xf,
    ;
}

/// An attribute byte gives back the two colours it was packed from.
pub proof fn lemma_color_code_round_trip(foreground: Color, background: Color)
    ensures
        ColorCode::spec_new(foreground, background).spec_foreground() == foreground.spec_code(),
        ColorCode::spec_new(foreground, background).spec_background() == background.spec_code(),
{
    lemma_pack_nibbles(foreground.spec_code(), background.spec_code());
}

/// Every byte is the attribute of exactly one pair of colours: its two halves
/// are codes of the palette, and packing the colours they name gives the byte
/// back.
pub proof fn lemma_every_byte_is_a_color_pair(color_code: ColorCode)
    ensures
        Color::spec_from_code(color_code.spec_foreground()) is Some,
        Color::spec_from_code(color_code.spec_background()) is Some,
        ColorCode::spec_new(
            Color::spec_from_code(color_code.spec_foreground())->0,
            Color::spec_from_code(color_code.spec_background())->0,
        ) == color_code,
{
    let byte = color_code.0;
    assert(byte & 0x0f <= 0xf) by (bit_vector);
    assert(byte >> 4 <= 0xf) by (bit_vector);
    assert(((byte >> 4) << 4) | (byte & 0x0f) == byte) by (bit_vector);
}

} // verus!
