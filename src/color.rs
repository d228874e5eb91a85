use vstd::prelude::*;

verus! {

/// The sixteen palette entries, in the order of their hardware identities
/// (`Black` is 0, `White` is 15).
#[derive(Debug, Clone, Copy, PartialEq, Eq, Structural)]
pub enum Color {
    Black,
    Blue,
    Green,
    Cyan,
    Red,
    Magenta,
    Brown,
    LightGray,
    DarkGray,
    LightBlue,
    LightGreen,
    LightCyan,
    LightRed,
    Pink,
    Yellow,
    White,
}

impl Color {
    /// The hardware identity of a palette entry.
    pub open spec fn spec_id(self) -> u8 {
        match self {
            Color::Black => 0,
            Color::Blue => 1,
            Color::Green => 2,
            Color::Cyan => 3,
            Color::Red => 4,
            Color::Magenta => 5,
            Color::Brown => 6,
            Color::LightGray => 7,
            Color::DarkGray => 8,
            Color::LightBlue => 9,
            Color::LightGreen => 10,
            Color::LightCyan => 11,
            Color::LightRed => 12,
            Color::Pink => 13,
            Color::Yellow => 14,
            Color::White => 15,
        }
    }

    /// The palette entry whose identity is `id`.
    pub open spec fn spec_from_id(id: u8) -> Color
        recommends
            id < 16,
    {
        if id == 0 {
            Color::Black
        } else if id == 1 {
            Color::Blue
        } else if id == 2 {
            Color::Green
        } else if id == 3 {
            Color::Cyan
        } else if id == 4 {
            Color::Red
        } else if id == 5 {
            Color::Magenta
        } else if id == 6 {
            Color::Brown
        } else if id == 7 {
            Color::LightGray
        } else if id == 8 {
            Color::DarkGray
        } else if id == 9 {
            Color::LightBlue
        } else if id == 10 {
            Color::LightGreen
        } else if id == 11 {
            Color::LightCyan
        } else if id == 12 {
            Color::LightRed
        } else if id == 13 {
            Color::Pink
        } else if id == 14 {
            Color::Yellow
        } else {
            Color::White
        }
    }

    /// Returns the hardware identity, 0 through 15.
    pub fn id(self) -> (r: u8)
        ensures
            r == self.spec_id(),
            r < 16,
    {
        match self {
            Color::Black => 0,
            Color::Blue => 1,
            Color::Green => 2,
            Color::Cyan => 3,
            Color::Red => 4,
            Color::Magenta => 5,
            Color::Brown => 6,
            Color::LightGray => 7,
            Color::DarkGray => 8,
            Color::LightBlue => 9,
            Color::LightGreen => 10,
            Color::LightCyan => 11,
            Color::LightRed => 12,
            Color::Pink => 13,
            Color::Yellow => 14,
            Color::White => 15,
        }
    }

    /// Returns the palette entry with identity `id`.
    pub fn from_id(id: u8) -> (r: Color)
        requires
            id < 16,
        ensures
            r == Color::spec_from_id(id),
            r.spec_id() == id,
    {
        match id {
            0 => Color::Black,
            1 => Color::Blue,
            2 => Color::Green,
            3 => Color::Cyan,
            4 => Color::Red,
            5 => Color::Magenta,
            6 => Color::Brown,
            7 => Color::LightGray,
            8 => Color::DarkGray,
            9 => Color::LightBlue,
            10 => Color::LightGreen,
            11 => Color::LightCyan,
            12 => Color::LightRed,
            13 => Color::Pink,
            14 => Color::Yellow,
            _ => Color::White,
        }
    }
}

/// Every identity names back the entry it came from.
pub proof fn lemma_id_round_trip(c: Color)
    ensures
        c.spec_id() < 16,
        Color::spec_from_id(c.spec_id()) == c,
{
}

/// A packed attribute byte: background identity in bits 7..4, foreground
/// identity in bits 3..0.
#[derive(Debug, Clone, Copy, PartialEq, Eq, Structural)]
pub struct ColorCode(pub u8);

/// The attribute byte for a foreground and a background identity.
pub open spec fn packed(foreground: u8, background: u8) -> u8 {
    ((background << 4u8) | foreground) as u8
}

impl ColorCode {
    /// The attribute that `new` packs from two colors.
    pub open spec fn new_spec(foreground: Color, background: Color) -> ColorCode {
        ColorCode(packed(foreground.spec_id(), background.spec_id()))
    }

    /// Packs a foreground and a background color into one attribute byte.
    pub fn new(foreground: Color, background: Color) -> (r: ColorCode)
        ensures
            r == ColorCode::new_spec(foreground, background),
            r.0 == packed(foreground.spec_id(), background.spec_id()),
            r.0 & 0x0f == foreground.spec_id(),
            r.0 >> 4u8 == background.spec_id(),
    {
        let f = foreground.id();
        let b = background.id();
        proof {
            lemma_pack_unpack(f, b);
        }
        ColorCode(b << 4u8 | f)
    }

    /// The foreground color: the low four bits.
    pub fn foreground(self) -> (r: Color)
        ensures
            r == Color::spec_from_id(self.0 & 0x0f),
            r.spec_id() == self.0 & 0x0f,
    {
        let v = self.0;
        let id = v & 0x0f;
        assert(v & 0x0f < 16) by (bit_vector);
        Color::from_id(id)
    }

    /// The background color: the high four bits.
    pub fn background(self) -> (r: Color)
        ensures
            r == Color::spec_from_id(self.0 >> 4u8),
            r.spec_id() == self.0 >> 4u8,
    {
        let v = self.0;
        let id = v >> 4u8;
        assert(v >> 4u8 < 16) by (bit_vector);
        Color::from_id(id)
    }
}

proof fn lemma_pack_unpack(f: u8, b: u8)
    requires
        f < 16,
        b < 16,
    ensures
        (b << 4u8 | f) & 0x0f == f,
        (b << 4u8 | f) >> 4u8 == b,
        (b << 4u8 | f) == packed(f, b),
{
    assert((b << 4u8 | f) & 0x0f == f && (b << 4u8 | f) >> 4u8 == b) by (bit_vector)
        requires
            f < 16,
            b < 16,
    ;
}

/// Decoding an attribute byte with the inverse mask and shift gives back
/// exactly the foreground and background it was packed from.
pub proof fn lemma_color_code_round_trip(foreground: Color, background: Color)
    ensures
        Color::spec_from_id(packed(foreground.spec_id(), background.spec_id()) & 0x0f)
            == foreground,
        Color::spec_from_id(packed(foreground.spec_id(), background.spec_id()) >> 4u8)
            == background,
{
    lemma_pack_unpack(foreground.spec_id(), background.spec_id());
}

} // verus!
