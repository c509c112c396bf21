//! The styled wrapper: a piece of rendered text paired with a decoration
//! record, and the functions that render it to bytes.

use vstd::prelude::*;
use crate::color::Color;
use crate::style::Style;
use crate::decoration::Decoration;
use crate::sgr::{push_all, SPACE};
use crate::strip::{strip_sgr_seq, char_count, strip_sgr, count_chars};

verus! {

/// The bytes a decoration and a piece of text render to: the entry escape
/// sequence, the text, and the exit escape sequence.
pub open spec fn render_of(d: Decoration, text: Seq<u8>) -> Seq<u8> {
    d.entry_seq() + text + d.exit_seq()
}

/// `n` space bytes.
pub open spec fn space_bytes(n: nat) -> Seq<u8>
    decreases n,
{
    if n == 0 {
        Seq::empty()
    } else {
        space_bytes((n - 1) as nat) + seq![SPACE]
    }
}

/// The visible width of `text`: the number of UTF-8 characters left once
/// every recognized escape sequence is removed.
pub open spec fn visible_len(text: Seq<u8>) -> nat {
    char_count(strip_sgr_seq(text))
}

/// The number of padding spaces a minimum width of `width` demands: the
/// missing visible characters, or none when the text is already wide enough.
pub open spec fn pad_of(text: Seq<u8>, width: nat) -> nat {
    if visible_len(text) < width {
        (width - visible_len(text)) as nat
    } else {
        0
    }
}

/// The bytes a decoration and a piece of text render to under a minimum-width
/// right-justify rule: the padding spaces first, then the escape-wrapped
/// text.
pub open spec fn padded_render(d: Decoration, text: Seq<u8>, width: nat) -> Seq<u8> {
    space_bytes(pad_of(text, width)) + render_of(d, text)
}

/// A value wrapped for styling: the text it renders to, plus the decoration
/// accumulated by the chained calls.  Chaining on the same wrapper amends its
/// single record, so the whole chain renders as one entry/exit pair.
#[derive(Debug)]
pub struct Styled {
    /// The plain rendering of the wrapped value.
    pub text: Vec<u8>,
    /// The accumulated decoration.
    pub dec: Decoration,
}

impl Styled {
    /// What the wrapper renders to.
    pub open spec fn rendered(self) -> Seq<u8> {
        render_of(self.dec, self.text@)
    }

    /// Wraps already-rendered text with the identity decoration.
    pub fn new(text: Vec<u8>) -> (s: Styled)
        ensures
            s.text@ == text@,
            s.dec == Decoration::plain_spec(),
    {
        Styled { text, dec: Decoration::plain() }
    }

    /// The plain rendering of the wrapped value, untouched by the wrapper.
    pub fn content(&self) -> (r: &Vec<u8>)
        ensures
            r@ == self.text@,
    {
        &self.text
    }

    /// The decoration accumulated so far.
    pub fn decoration(&self) -> (d: Decoration)
        ensures
            d == self.dec,
    {
        self.dec
    }

    /// Switches the attribute `st` on.
    pub fn style(self, st: Style) -> (r: Styled)
        ensures
            r.text@ == self.text@,
            r.dec == self.dec.with_style_spec(st),
    {
        Styled { text: self.text, dec: self.dec.with_style(st) }
    }

    /// Sets the foreground color; the latest call wins.
    pub fn fg(self, c: Color) -> (r: Styled)
        ensures
            r.text@ == self.text@,
            r.dec == (Decoration { fg: Some(c), ..self.dec }),
    {
        Styled { text: self.text, dec: self.dec.with_fg(c) }
    }

    /// Sets the background color; the latest call wins.
    pub fn bg(self, c: Color) -> (r: Styled)
        ensures
            r.text@ == self.text@,
            r.dec == (Decoration { bg: Some(c), ..self.dec }),
    {
        Styled { text: self.text, dec: self.dec.with_bg(c) }
    }

    /// Switches bold on.
    pub fn bold(self) -> (r: Styled)
        ensures
            r.text@ == self.text@,
            r.dec == self.dec.with_style_spec(Style::Bold),
    {
        self.style(Style::Bold)
    }

    /// Switches dim on.
    pub fn dim(self) -> (r: Styled)
        ensures
            r.text@ == self.text@,
            r.dec == self.dec.with_style_spec(Style::Dim),
    {
        self.style(Style::Dim)
    }

    /// Switches italic on.
    pub fn italic(self) -> (r: Styled)
        ensures
            r.text@ == self.text@,
            r.dec == self.dec.with_style_spec(Style::Italic),
    {
        self.style(Style::Italic)
    }

    /// Switches underline on.
    pub fn underline(self) -> (r: Styled)
        ensures
            r.text@ == self.text@,
            r.dec == self.dec.with_style_spec(Style::Underline),
    {
        self.style(Style::Underline)
    }

    /// Switches blink on.
    pub fn blink(self) -> (r: Styled)
        ensures
            r.text@ == self.text@,
            r.dec == self.dec.with_style_spec(Style::Blink),
    {
        self.style(Style::Blink)
    }

    /// Switches reverse video on.
    pub fn reverse(self) -> (r: Styled)
        ensures
            r.text@ == self.text@,
            r.dec == self.dec.with_style_spec(Style::Reverse),
    {
        self.style(Style::Reverse)
    }

    /// Switches hidden on.
    pub fn hidden(self) -> (r: Styled)
        ensures
            r.text@ == self.text@,
            r.dec == self.dec.with_style_spec(Style::Hidden),
    {
        self.style(Style::Hidden)
    }

    /// Switches strikethrough on.
    pub fn strikethrough(self) -> (r: Styled)
        ensures
            r.text@ == self.text@,
            r.dec == self.dec.with_style_spec(Style::Strikethrough),
    {
        self.style(Style::Strikethrough)
    }

    /// Sets the foreground to black.
    pub fn black(self) -> (r: Styled)
        ensures
            r.text@ == self.text@,
            r.dec == (Decoration { fg: Some(Color::Black), ..self.dec }),
    {
        self.fg(Color::Black)
    }

    /// Sets the foreground to red.
    pub fn red(self) -> (r: Styled)
        ensures
            r.text@ == self.text@,
            r.dec == (Decoration { fg: Some(Color::Red), ..self.dec }),
    {
        self.fg(Color::Red)
    }

    /// Sets the foreground to green.
    pub fn green(self) -> (r: Styled)
        ensures
            r.text@ == self.text@,
            r.dec == (Decoration { fg: Some(Color::Green), ..self.dec }),
    {
        self.fg(Color::Green)
    }

    /// Sets the foreground to yellow.
    pub fn yellow(self) -> (r: Styled)
        ensures
            r.text@ == self.text@,
            r.dec == (Decoration { fg: Some(Color::Yellow), ..self.dec }),
    {
        self.fg(Color::Yellow)
    }

    /// Sets the foreground to blue.
    pub fn blue(self) -> (r: Styled)
        ensures
            r.text@ == self.text@,
            r.dec == (Decoration { fg: Some(Color::Blue), ..self.dec }),
    {
        self.fg(Color::Blue)
    }

    /// Sets the foreground to magenta.
    pub fn magenta(self) -> (r: Styled)
        ensures
            r.text@ == self.text@,
            r.dec == (Decoration { fg: Some(Color::Magenta), ..self.dec }),
    {
        self.fg(Color::Magenta)
    }

    /// Sets the foreground to cyan.
    pub fn cyan(self) -> (r: Styled)
        ensures
            r.text@ == self.text@,
            r.dec == (Decoration { fg: Some(Color::Cyan), ..self.dec }),
    {
        self.fg(Color::Cyan)
    }

    /// Sets the foreground to white.
    pub fn white(self) -> (r: Styled)
        ensures
            r.text@ == self.text@,
            r.dec == (Decoration { fg: Some(Color::White), ..self.dec }),
    {
        self.fg(Color::White)
    }

    /// Renders the wrapper: entry sequence, text, exit sequence.  Rendering
    /// reads the wrapper without consuming it, so it can be repeated and
    /// always yields the same bytes.
    pub fn render(&self) -> (r: Vec<u8>)
        ensures
            r@ == self.rendered(),
    {
        let mut r = self.dec.render_entry();
        push_all(&mut r, &self.text);
        let exit = self.dec.render_exit();
        push_all(&mut r, &exit);
        proof {
            assert(r@ =~= self.rendered());
        }
        r
    }

    /// Renders the wrapper under a minimum-width rule: the padding spaces
    /// come first, then the escape-wrapped text.  The padding is computed
    /// against the visible width — the characters left after every escape
    /// sequence is stripped — never against the byte length or the escape
    /// bytes.
    pub fn render_width(&self, width: usize) -> (r: Vec<u8>)
        ensures
            r@ == padded_render(self.dec, self.text@, width as nat),
    {
        let stripped = strip_sgr(&self.text);
        let visible = count_chars(&stripped);
        let mut r: Vec<u8> = Vec::new();
        proof {
            assert(r@ =~= space_bytes(0));
        }
        if visible < width {
            let pad: usize = width - visible;
            let mut k: usize = 0;
            while k < pad
                invariant
                    k <= pad,
                    r@ == space_bytes(k as nat),
                decreases pad - k,
            {
                r.push(SPACE);
                proof {
                    assert(r@ =~= space_bytes(k as nat + 1));
                }
                k = k + 1;
            }
        }
        proof {
            assert(r@ == space_bytes(pad_of(self.text@, width as nat)));
        }
        let entry = self.dec.render_entry();
        push_all(&mut r, &entry);
        push_all(&mut r, &self.text);
        let exit = self.dec.render_exit();
        push_all(&mut r, &exit);
        proof {
            assert(r@ =~= padded_render(self.dec, self.text@, width as nat));
        }
        r
    }

    /// Seals the current rendering and starts a fresh, undecorated wrapper
    /// around it.  Styling the result decorates the sealed rendering as a
    /// whole, so the two decorations nest instead of merging.
    pub fn nest(self) -> (r: Styled)
        ensures
            r.text@ == self.rendered(),
            r.dec == Decoration::plain_spec(),
    {
        Styled::new(self.render())
    }
}

} // verus!
