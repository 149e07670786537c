//! Colors: the portable console palette, the device's native palette, and
//! the packed foreground/background attribute byte.
use vstd::prelude::*;

verus! {

/// The sixteen portable console colors, each selected by an ANSI SGR code.
#[derive(Clone, Copy, PartialEq, Eq, Structural, Debug)]
pub enum ConsoleColor {
    Black,
    Red,
    Green,
    Yellow,
    Blue,
    Magenta,
    Cyan,
    White,
    BrightBlack,
    BrightRed,
    BrightGreen,
    BrightYellow,
    BrightBlue,
    BrightMagenta,
    BrightCyan,
    BrightWhite,
}

/// The SGR code that selects a console color: 30..=37, then 90..=97.
pub open spec fn ansi_code(c: ConsoleColor) -> u8 {
    match c {
        ConsoleColor::Black => 30,
        ConsoleColor::Red => 31,
        ConsoleColor::Green => 32,
        ConsoleColor::Yellow => 33,
        ConsoleColor::Blue => 34,
        ConsoleColor::Magenta => 35,
        ConsoleColor::Cyan => 36,
        ConsoleColor::White => 37,
        ConsoleColor::BrightBlack => 90,
        ConsoleColor::BrightRed => 91,
        ConsoleColor::BrightGreen => 92,
        ConsoleColor::BrightYellow => 93,
        ConsoleColor::BrightBlue => 94,
        ConsoleColor::BrightMagenta => 95,
        ConsoleColor::BrightCyan => 96,
        ConsoleColor::BrightWhite => 97,
    }
}

/// The console color that an SGR code selects, if any.
pub open spec fn color_of_ansi(v: u8) -> Option<ConsoleColor> {
    if exists|c: ConsoleColor| ansi_code(c) == v {
        Some(choose|c: ConsoleColor| ansi_code(c) == v)
    } else {
        None
    }
}

impl ConsoleColor {
    /// The SGR code of this color.
    pub fn ansi(&self) -> (r: u8)
        ensures
            r == ansi_code(*self),
    {
        match self {
            ConsoleColor::Black => 30,
            ConsoleColor::Red => 31,
            ConsoleColor::Green => 32,
            ConsoleColor::Yellow => 33,
            ConsoleColor::Blue => 34,
            ConsoleColor::Magenta => 35,
            ConsoleColor::Cyan => 36,
            ConsoleColor::White => 37,
            ConsoleColor::BrightBlack => 90,
            ConsoleColor::BrightRed => 91,
            ConsoleColor::BrightGreen => 92,
            ConsoleColor::BrightYellow => 93,
            ConsoleColor::BrightBlue => 94,
            ConsoleColor::BrightMagenta => 95,
            ConsoleColor::BrightCyan => 96,
            ConsoleColor::BrightWhite => 97,
        }
    }

    /// The color selected by the SGR code `v`, or `None` when `v` selects none.
    pub fn from_ansi(v: u8) -> (r: Option<ConsoleColor>)
        ensures
            r == color_of_ansi(v),
            r matches Some(c) ==> ansi_code(c) == v,
            r is None <==> (forall|c: ConsoleColor| ansi_code(c) != v),
    {
        let r = match v {
            30 => Some(ConsoleColor::Black),
            31 => Some(ConsoleColor::Red),
            32 => Some(ConsoleColor::Green),
            33 => Some(ConsoleColor::Yellow),
            34 => Some(ConsoleColor::Blue),
            35 => Some(ConsoleColor::Magenta),
            36 => Some(ConsoleColor::Cyan),
            37 => Some(ConsoleColor::White),
            90 => Some(ConsoleColor::BrightBlack),
            91 => Some(ConsoleColor::BrightRed),
            92 => Some(ConsoleColor::BrightGreen),
            93 => Some(ConsoleColor::BrightYellow),
            94 => Some(ConsoleColor::BrightBlue),
            95 => Some(ConsoleColor::BrightMagenta),
            96 => Some(ConsoleColor::BrightCyan),
            97 => Some(ConsoleColor::BrightWhite),
            _ => None,
        };
        proof {
            lemma_ansi_code_injective();
            match r {
                Some(c) => {
                    assert(ansi_code(c) == v);
                    assert(color_of_ansi(v) == Some(c));
                },
                None => {
                    assert forall|c: ConsoleColor| ansi_code(c) != v by {}
                },
            }
        }
        r
    }
}

/// Distinct console colors have distinct SGR codes.
pub proof fn lemma_ansi_code_injective()
    ensures
        forall|a: ConsoleColor, b: ConsoleColor| ansi_code(a) == ansi_code(b) ==> a == b,
{
}

/// The device's native sixteen-entry palette.
#[derive(Clone, Copy, PartialEq, Eq, Structural, Debug)]
pub enum VgaTextColor {
    Black,
    Blue,
    Green,
    Cyan,
    Red,
    Purple,
    Brown,
    Gray,
    DarkGray,
    LightBlue,
    LightGreen,
    LightCyan,
    LightRed,
    LightPurple,
    Yellow,
    White,
}

/// The palette slot (0..=15) of a native color.
pub open spec fn palette_index(c: VgaTextColor) -> u8 {
    match c {
        VgaTextColor::Black => 0,
        VgaTextColor::Blue => 1,
        VgaTextColor::Green => 2,
        VgaTextColor::Cyan => 3,
        VgaTextColor::Red => 4,
        VgaTextColor::Purple => 5,
        VgaTextColor::Brown => 6,
        VgaTextColor::Gray => 7,
        VgaTextColor::DarkGray => 8,
        VgaTextColor::LightBlue => 9,
        VgaTextColor::LightGreen => 10,
        VgaTextColor::LightCyan => 11,
        VgaTextColor::LightRed => 12,
        VgaTextColor::LightPurple => 13,
        VgaTextColor::Yellow => 14,
        VgaTextColor::White => 15,
    }
}

/// The native color that shows a console color. Yellow is shown in the
/// brown slot, and both white and bright black in gray.
pub open spec fn to_native(c: ConsoleColor) -> VgaTextColor {
    match c {
        ConsoleColor::Black => VgaTextColor::Black,
        ConsoleColor::Red => VgaTextColor::Red,
        ConsoleColor::Green => VgaTextColor::Green,
        ConsoleColor::Yellow => VgaTextColor::Brown,
        ConsoleColor::Blue => VgaTextColor::Blue,
        ConsoleColor::Magenta => VgaTextColor::Purple,
        ConsoleColor::Cyan => VgaTextColor::Cyan,
        ConsoleColor::White => VgaTextColor::Gray,
        ConsoleColor::BrightBlack => VgaTextColor::Gray,
        ConsoleColor::BrightRed => VgaTextColor::LightRed,
        ConsoleColor::BrightGreen => VgaTextColor::LightGreen,
        ConsoleColor::BrightYellow => VgaTextColor::Yellow,
        ConsoleColor::BrightBlue => VgaTextColor::LightBlue,
        ConsoleColor::BrightMagenta => VgaTextColor::LightPurple,
        ConsoleColor::BrightCyan => VgaTextColor::LightCyan,
        ConsoleColor::BrightWhite => VgaTextColor::White,
    }
}

/// The attribute byte for a foreground and a background color:
/// background slot in the high nibble, foreground slot in the low one.
pub open spec fn pack(fg: VgaTextColor, bg: VgaTextColor) -> u8 {
    (palette_index(bg) * 16 + palette_index(fg)) as u8
}

/// The attribute byte of white on black, the console's default.
pub open spec fn default_attr() -> u8 {
    pack(VgaTextColor::White, VgaTextColor::Black)
}

impl VgaTextColor {
    /// The palette slot of this color.
    pub fn index(&self) -> (r: u8)
        ensures
            r == palette_index(*self),
            r < 16,
    {
        match self {
            VgaTextColor::Black => 0,
            VgaTextColor::Blue => 1,
            VgaTextColor::Green => 2,
            VgaTextColor::Cyan => 3,
            VgaTextColor::Red => 4,
            VgaTextColor::Purple => 5,
            VgaTextColor::Brown => 6,
            VgaTextColor::Gray => 7,
            VgaTextColor::DarkGray => 8,
            VgaTextColor::LightBlue => 9,
            VgaTextColor::LightGreen => 10,
            VgaTextColor::LightCyan => 11,
            VgaTextColor::LightRed => 12,
            VgaTextColor::LightPurple => 13,
            VgaTextColor::Yellow => 14,
            VgaTextColor::White => 15,
        }
    }

    /// The native color that shows the console color `color`.
    pub fn from_console_color(color: ConsoleColor) -> (r: VgaTextColor)
        ensures
            r == to_native(color),
    {
        match color {
            ConsoleColor::Black => VgaTextColor::Black,
            ConsoleColor::Red => VgaTextColor::Red,
            ConsoleColor::Green => VgaTextColor::Green,
            ConsoleColor::Yellow => VgaTextColor::Brown,
            ConsoleColor::Blue => VgaTextColor::Blue,
            ConsoleColor::Magenta => VgaTextColor::Purple,
            ConsoleColor::Cyan => VgaTextColor::Cyan,
            ConsoleColor::White => VgaTextColor::Gray,
            ConsoleColor::BrightBlack => VgaTextColor::Gray,
            ConsoleColor::BrightRed => VgaTextColor::LightRed,
            ConsoleColor::BrightGreen => VgaTextColor::LightGreen,
            ConsoleColor::BrightYellow => VgaTextColor::Yellow,
            ConsoleColor::BrightBlue => VgaTextColor::LightBlue,
            ConsoleColor::BrightMagenta => VgaTextColor::LightPurple,
            ConsoleColor::BrightCyan => VgaTextColor::LightCyan,
            ConsoleColor::BrightWhite => VgaTextColor::White,
        }
    }
}

/// A packed foreground/background attribute byte. Values are made only by
/// packing two palette colors.
#[derive(Clone, Copy, PartialEq, Eq, Structural, Debug)]
pub struct VgaTextColorCode(u8);

impl View for VgaTextColorCode {
    type V = u8;

    closed spec fn view(&self) -> u8 {
        self.0
    }
}

impl VgaTextColorCode {
    /// Packs `fg` and `bg` into one attribute byte.
    pub fn new(fg: VgaTextColor, bg: VgaTextColor) -> (r: VgaTextColorCode)
        ensures
            r@ == pack(fg, bg),
    {
        let f = fg.index();
        let b = bg.index();
        let v: u8 = (b << 4u8) | f;
        assert(v == b * 16 + f) by (bit_vector)
            requires
                v == (b << 4u8) | f,
                b < 16,
                f < 16,
        ;
        VgaTextColorCode(v)
    }

    /// The attribute byte as the device stores it.
    pub fn value(&self) -> (r: u8)
        ensures
            r == self@,
    {
        self.0
    }
}

/// Packing a console color on black is a function of the color alone: its
/// native palette slot, with a zero background nibble.
pub proof fn lemma_pack_on_black(c: ConsoleColor)
    ensures
        pack(to_native(c), VgaTextColor::Black) == palette_index(to_native(c)),
        pack(to_native(c), VgaTextColor::Black) < 16,
{
}

} // verus!
