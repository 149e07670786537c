//! The escape-sequence interpreter: a byte-driven state machine for the
//! `ESC [ <digits> m` color sequence.
use vstd::prelude::*;
use crate::color::{
    ConsoleColor, VgaTextColor, ansi_code, color_of_ansi, default_attr, lemma_ansi_code_injective,
    pack, to_native,
};

verus! {

/// The escape byte that opens a sequence.
pub const ESC: u8 = 0x1b;

/// `[`, the second byte of a sequence.
pub const LEFT_BRACKET: u8 = 0x5b;

/// `m`, the byte that closes a sequence.
pub const SGR_END: u8 = 0x6d;

/// The digit `0`.
pub const DIGIT_ZERO: u8 = 0x30;

/// The digit `9`.
pub const DIGIT_NINE: u8 = 0x39;

/// Progress through one color sequence.
#[derive(Clone, Copy, PartialEq, Eq, Structural, Debug)]
pub enum VgaTextSetColor {
    /// Saw `ESC`; a `[` must follow.
    Start,
    /// Saw `ESC [`; digits or `m` may follow.
    LeftBrackets,
    /// Saw digits with this value (saturating at 255).
    Value(u8),
    /// Saw the closing `m`.
    End,
}

/// What the interpreter makes of the next byte.
#[derive(Clone, Copy, PartialEq, Eq, Structural, Debug)]
pub enum VgaTextState {
    /// The last byte is a character to print.
    PutChar,
    /// The last byte belongs to a color sequence.
    SetColor(VgaTextSetColor),
}

/// An ASCII decimal digit.
pub open spec fn is_digit(ch: u8) -> bool {
    DIGIT_ZERO <= ch <= DIGIT_NINE
}

/// Appends decimal digit `d` to `v`, saturating at 255; every value above
/// the largest color code selects no color, so saturation keeps the meaning.
pub open spec fn accumulate(v: u8, d: u8) -> u8 {
    if v * 10 + d > 255 {
        255
    } else {
        (v * 10 + d) as u8
    }
}

/// The interpreter's state after byte `ch` in state `s`.
pub open spec fn next_state(s: VgaTextState, ch: u8) -> VgaTextState {
    match s {
        VgaTextState::PutChar => if ch == ESC {
            VgaTextState::SetColor(VgaTextSetColor::Start)
        } else {
            VgaTextState::PutChar
        },
        VgaTextState::SetColor(VgaTextSetColor::Start) => if ch == LEFT_BRACKET {
            VgaTextState::SetColor(VgaTextSetColor::LeftBrackets)
        } else {
            VgaTextState::PutChar
        },
        VgaTextState::SetColor(VgaTextSetColor::LeftBrackets) => if ch == SGR_END {
            VgaTextState::SetColor(VgaTextSetColor::End)
        } else if is_digit(ch) {
            VgaTextState::SetColor(VgaTextSetColor::Value((ch - DIGIT_ZERO) as u8))
        } else {
            VgaTextState::PutChar
        },
        VgaTextState::SetColor(VgaTextSetColor::Value(v)) => if ch == SGR_END {
            VgaTextState::SetColor(VgaTextSetColor::End)
        } else if is_digit(ch) {
            VgaTextState::SetColor(VgaTextSetColor::Value(accumulate(v, (ch - DIGIT_ZERO) as u8)))
        } else {
            VgaTextState::PutChar
        },
        VgaTextState::SetColor(VgaTextSetColor::End) => if ch == ESC {
            VgaTextState::SetColor(VgaTextSetColor::Start)
        } else {
            VgaTextState::PutChar
        },
    }
}

/// The attribute that an SGR value selects: its console color on black, or
/// the default when the value selects no color.
pub open spec fn sgr_attr(v: u8) -> u8 {
    match color_of_ansi(v) {
        Some(c) => pack(to_native(c), VgaTextColor::Black),
        None => default_attr(),
    }
}

/// The current attribute after byte `ch` in state `s`: only a closing `m`
/// changes it, to the default after `ESC [` and to the selected color after
/// digits.
pub open spec fn next_attr(s: VgaTextState, attr: u8, ch: u8) -> u8 {
    match s {
        VgaTextState::SetColor(VgaTextSetColor::LeftBrackets) => if ch == SGR_END {
            default_attr()
        } else {
            attr
        },
        VgaTextState::SetColor(VgaTextSetColor::Value(v)) => if ch == SGR_END {
            sgr_attr(v)
        } else {
            attr
        },
        _ => attr,
    }
}

/// Appends decimal digit `d` to `v`, saturating at 255.
pub fn accumulate_digit(v: u8, d: u8) -> (r: u8)
    requires
        d < 10,
    ensures
        r == accumulate(v, d),
{
    let t: u16 = v as u16 * 10 + d as u16;
    if t > 255 {
        255
    } else {
        t as u8
    }
}

/// The SGR values that select a color are exactly 30..=37 and 90..=97:
/// each of them selects its console color on black, and every other value
/// selects the default attribute.
pub proof fn lemma_sgr_cutoff(v: u8)
    ensures
        (30 <= v <= 37 || 90 <= v <= 97) ==> color_of_ansi(v) is Some && sgr_attr(v) == pack(
            to_native(color_of_ansi(v)->Some_0),
            VgaTextColor::Black,
        ) && ansi_code(color_of_ansi(v)->Some_0) == v,
        !(30 <= v <= 37 || 90 <= v <= 97) ==> color_of_ansi(v) is None && sgr_attr(v)
            == default_attr(),
{
    lemma_ansi_code_injective();
    if 30 <= v <= 37 || 90 <= v <= 97 {
        let c = if v == 30 {
            ConsoleColor::Black
        } else if v == 31 {
            ConsoleColor::Red
        } else if v == 32 {
            ConsoleColor::Green
        } else if v == 33 {
            ConsoleColor::Yellow
        } else if v == 34 {
            ConsoleColor::Blue
        } else if v == 35 {
            ConsoleColor::Magenta
        } else if v == 36 {
            ConsoleColor::Cyan
        } else if v == 37 {
            ConsoleColor::White
        } else if v == 90 {
            ConsoleColor::BrightBlack
        } else if v == 91 {
            ConsoleColor::BrightRed
        } else if v == 92 {
            ConsoleColor::BrightGreen
        } else if v == 93 {
            ConsoleColor::BrightYellow
        } else if v == 94 {
            ConsoleColor::BrightBlue
        } else if v == 95 {
            ConsoleColor::BrightMagenta
        } else if v == 96 {
            ConsoleColor::BrightCyan
        } else {
            ConsoleColor::BrightWhite
        };
        assert(ansi_code(c) == v);
    } else {
        assert forall|c: ConsoleColor| ansi_code(c) != v by {}
    }
}

/// The sequence value 92 selects bright green, shown as light green on black.
pub proof fn lemma_sgr_bright_green()
    ensures
        sgr_attr(92) == pack(VgaTextColor::LightGreen, VgaTextColor::Black),
        sgr_attr(92) == 10,
{
    lemma_ansi_code_injective();
    assert(ansi_code(ConsoleColor::BrightGreen) == 92);
    assert(color_of_ansi(92) == Some(ConsoleColor::BrightGreen));
}

} // verus!
