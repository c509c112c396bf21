//! Colors a decoration can select: the eight named terminal colors, a
//! 256-palette index, or a 24-bit RGB triple, together with the SGR parameter
//! groups each one contributes to an escape sequence.

use vstd::prelude::*;
use crate::sgr::{dec_digits, all_param_bytes, is_param_byte, lemma_dec_digits_param, push_decimal,
    SEMICOLON};

verus! {

/// A terminal color, usable for the foreground or the background slot of a
/// decoration.
#[derive(Clone, Copy, Debug, PartialEq, Eq, Structural)]
pub enum Color {
    Black,
    Red,
    Green,
    Yellow,
    Blue,
    Magenta,
    Cyan,
    White,
    /// An index into the terminal's 256-color palette.
    Fixed(u8),
    /// A 24-bit red/green/blue triple.
    Rgb(u8, u8, u8),
}

impl Color {
    /// The offset of a named color within an ANSI color block: `Black` is the
    /// first entry, `White` the last.  Palette and RGB colors do not use it.
    pub open spec fn named_offset(self) -> nat {
        match self {
            Color::Black => 0,
            Color::Red => 1,
            Color::Green => 2,
            Color::Yellow => 3,
            Color::Blue => 4,
            Color::Magenta => 5,
            Color::Cyan => 6,
            Color::White => 7,
            Color::Fixed(_) => 0,
            Color::Rgb(_, _, _) => 0,
        }
    }

    /// The SGR parameter group selecting `self` in the slot whose named-color
    /// block starts at `base` (30 for the foreground, 40 for the background)
    /// and whose extended-color introducer is `base + 8`.
    pub open spec fn params(self, base: nat) -> Seq<u8> {
        match self {
            Color::Fixed(n) => dec_digits(base + 8) + seq![SEMICOLON] + dec_digits(5)
                + seq![SEMICOLON] + dec_digits(n as nat),
            Color::Rgb(r, g, b) => dec_digits(base + 8) + seq![SEMICOLON] + dec_digits(2)
                + seq![SEMICOLON] + dec_digits(r as nat) + seq![SEMICOLON] + dec_digits(g as nat)
                + seq![SEMICOLON] + dec_digits(b as nat),
            _ => dec_digits(base + self.named_offset()),
        }
    }

    /// The parameter group selecting `self` as the foreground color.
    pub open spec fn fg_params(self) -> Seq<u8> {
        self.params(30)
    }

    /// The parameter group selecting `self` as the background color.
    pub open spec fn bg_params(self) -> Seq<u8> {
        self.params(40)
    }

    /// The 256-palette color with index `value`.
    pub fn fixed(value: u8) -> (c: Color)
        ensures
            c == Color::Fixed(value),
    {
        Color::Fixed(value)
    }

    /// The 24-bit color with the given red, green and blue channels.
    pub fn rgb(red: u8, green: u8, blue: u8) -> (c: Color)
        ensures
            c == Color::Rgb(red, green, blue),
    {
        Color::Rgb(red, green, blue)
    }

    /// Appends the parameter group of `self` for the slot starting at `base`.
    fn push_params(&self, v: &mut Vec<u8>, base: u8)
        requires
            base == 30 || base == 40,
        ensures
            final(v)@ == old(v)@ + self.params(base as nat),
    {
        match self {
            Color::Fixed(n) => {
                push_decimal(v, base + 8);
                v.push(SEMICOLON);
                push_decimal(v, 5);
                v.push(SEMICOLON);
                push_decimal(v, *n);
                proof {
                    assert(v@ =~= old(v)@ + self.params(base as nat));
                }
            },
            Color::Rgb(r, g, b) => {
                push_decimal(v, base + 8);
                v.push(SEMICOLON);
                push_decimal(v, 2);
                v.push(SEMICOLON);
                push_decimal(v, *r);
                v.push(SEMICOLON);
                push_decimal(v, *g);
                v.push(SEMICOLON);
                push_decimal(v, *b);
                proof {
                    assert(v@ =~= old(v)@ + self.params(base as nat));
                }
            },
            _ => {
                let offset: u8 = match self {
                    Color::Black => 0,
                    Color::Red => 1,
                    Color::Green => 2,
                    Color::Yellow => 3,
                    Color::Blue => 4,
                    Color::Magenta => 5,
                    Color::Cyan => 6,
                    _ => 7,
                };
                push_decimal(v, base + offset);
            },
        }
    }

    /// Appends the foreground parameter group of `self` to `v`.
    pub fn push_fg_params(&self, v: &mut Vec<u8>)
        ensures
            final(v)@ == old(v)@ + self.fg_params(),
    {
        self.push_params(v, 30);
    }

    /// Appends the background parameter group of `self` to `v`.
    pub fn push_bg_params(&self, v: &mut Vec<u8>)
        ensures
            final(v)@ == old(v)@ + self.bg_params(),
    {
        self.push_params(v, 40);
    }
}

/// A color's parameter group consists of parameter bytes only.
pub proof fn lemma_color_params_param_bytes(c: Color, base: nat)
    ensures
        all_param_bytes(c.params(base)),
        c.params(base).len() >= 1,
{
    lemma_dec_digits_param(base + 8);
    lemma_dec_digits_param(base + c.named_offset());
    lemma_dec_digits_param(5);
    lemma_dec_digits_param(2);
    match c {
        Color::Fixed(n) => {
            lemma_dec_digits_param(n as nat);
        },
        Color::Rgb(r, g, b) => {
            lemma_dec_digits_param(r as nat);
            lemma_dec_digits_param(g as nat);
            lemma_dec_digits_param(b as nat);
        },
        _ => {},
    }
}

} // verus!
