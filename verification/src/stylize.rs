//! The fluent extension surface: every plain text value gains the chainable
//! styling methods, each returning a [`Styled`] wrapper.

use vstd::prelude::*;
use vstd::slice::slice_to_vec;
use vstd::string::StringSliceAdditionalSpecFns;
use vstd::utf8::encode_utf8;
use crate::color::Color;
use crate::style::Style;
use crate::decoration::Decoration;
use crate::styled::Styled;

verus! {

/// A value with a textual rendering that the styling methods can wrap.
/// Every method starts a fresh chain: it wraps the value's text with the
/// identity decoration and applies its one amendment.
pub trait Stylize {
    /// The bytes the value renders to.
    spec fn text_bytes(&self) -> Seq<u8>;

    /// Wraps the value with the identity decoration.
    fn styled(&self) -> (r: Styled)
        ensures
            r.text@ == self.text_bytes(),
            r.dec == Decoration::plain_spec(),
    ;

    /// Wraps the value and switches the attribute `st` on.
    fn style(&self, st: Style) -> (r: Styled)
        ensures
            r.text@ == self.text_bytes(),
            r.dec == Decoration::plain_spec().with_style_spec(st),
    ;

    /// Wraps the value and sets the foreground color.
    fn fg(&self, c: Color) -> (r: Styled)
        ensures
            r.text@ == self.text_bytes(),
            r.dec == (Decoration { fg: Some(c), ..Decoration::plain_spec() }),
    ;

    /// Wraps the value and sets the background color.
    fn bg(&self, c: Color) -> (r: Styled)
        ensures
            r.text@ == self.text_bytes(),
            r.dec == (Decoration { bg: Some(c), ..Decoration::plain_spec() }),
    ;

    /// Wraps the value in bold.
    fn bold(&self) -> (r: Styled)
        ensures
            r.text@ == self.text_bytes(),
            r.dec == Decoration::plain_spec().with_style_spec(Style::Bold),
    ;

    /// Wraps the value in dim.
    fn dim(&self) -> (r: Styled)
        ensures
            r.text@ == self.text_bytes(),
            r.dec == Decoration::plain_spec().with_style_spec(Style::Dim),
    ;

    /// Wraps the value in italic.
    fn italic(&self) -> (r: Styled)
        ensures
            r.text@ == self.text_bytes(),
            r.dec == Decoration::plain_spec().with_style_spec(Style::Italic),
    ;

    /// Wraps the value in underline.
    fn underline(&self) -> (r: Styled)
        ensures
            r.text@ == self.text_bytes(),
            r.dec == Decoration::plain_spec().with_style_spec(Style::Underline),
    ;

    /// Wraps the value in blink.
    fn blink(&self) -> (r: Styled)
        ensures
            r.text@ == self.text_bytes(),
            r.dec == Decoration::plain_spec().with_style_spec(Style::Blink),
    ;

    /// Wraps the value in reverse video.
    fn reverse(&self) -> (r: Styled)
        ensures
            r.text@ == self.text_bytes(),
            r.dec == Decoration::plain_spec().with_style_spec(Style::Reverse),
    ;

    /// Wraps the value in hidden.
    fn hidden(&self) -> (r: Styled)
        ensures
            r.text@ == self.text_bytes(),
            r.dec == Decoration::plain_spec().with_style_spec(Style::Hidden),
    ;

    /// Wraps the value in strikethrough.
    fn strikethrough(&self) -> (r: Styled)
        ensures
            r.text@ == self.text_bytes(),
            r.dec == Decoration::plain_spec().with_style_spec(Style::Strikethrough),
    ;

    /// Wraps the value with a black foreground.
    fn black(&self) -> (r: Styled)
        ensures
            r.text@ == self.text_bytes(),
            r.dec == (Decoration { fg: Some(Color::Black), ..Decoration::plain_spec() }),
    ;

    /// Wraps the value with a red foreground.
    fn red(&self) -> (r: Styled)
        ensures
            r.text@ == self.text_bytes(),
            r.dec == (Decoration { fg: Some(Color::Red), ..Decoration::plain_spec() }),
    ;

    /// Wraps the value with a green foreground.
    fn green(&self) -> (r: Styled)
        ensures
            r.text@ == self.text_bytes(),
            r.dec == (Decoration { fg: Some(Color::Green), ..Decoration::plain_spec() }),
    ;

    /// Wraps the value with a yellow foreground.
    fn yellow(&self) -> (r: Styled)
        ensures
            r.text@ == self.text_bytes(),
            r.dec == (Decoration { fg: Some(Color::Yellow), ..Decoration::plain_spec() }),
    ;

    /// Wraps the value with a blue foreground.
    fn blue(&self) -> (r: Styled)
        ensures
            r.text@ == self.text_bytes(),
            r.dec == (Decoration { fg: Some(Color::Blue), ..Decoration::plain_spec() }),
    ;

    /// Wraps the value with a magenta foreground.
    fn magenta(&self) -> (r: Styled)
        ensures
            r.text@ == self.text_bytes(),
            r.dec == (Decoration { fg: Some(Color::Magenta), ..Decoration::plain_spec() }),
    ;

    /// Wraps the value with a cyan foreground.
    fn cyan(&self) -> (r: Styled)
        ensures
            r.text@ == self.text_bytes(),
            r.dec == (Decoration { fg: Some(Color::Cyan), ..Decoration::plain_spec() }),
    ;

    /// Wraps the value with a white foreground.
    fn white(&self) -> (r: Styled)
        ensures
            r.text@ == self.text_bytes(),
            r.dec == (Decoration { fg: Some(Color::White), ..Decoration::plain_spec() }),
    ;
}

impl Stylize for str {
    open spec fn text_bytes(&self) -> Seq<u8> {
        self.spec_bytes()
    }

    fn styled(&self) -> (r: Styled) {
        Styled::new(slice_to_vec(self.as_bytes()))
    }

    fn style(&self, st: Style) -> (r: Styled) {
        self.styled().style(st)
    }

    fn fg(&self, c: Color) -> (r: Styled) {
        self.styled().fg(c)
    }

    fn bg(&self, c: Color) -> (r: Styled) {
        self.styled().bg(c)
    }

    fn bold(&self) -> (r: Styled) {
        self.styled().bold()
    }

    fn dim(&self) -> (r: Styled) {
        self.styled().dim()
    }

    fn italic(&self) -> (r: Styled) {
        self.styled().italic()
    }

    fn underline(&self) -> (r: Styled) {
        self.styled().underline()
    }

    fn blink(&self) -> (r: Styled) {
        self.styled().blink()
    }

    fn reverse(&self) -> (r: Styled) {
        self.styled().reverse()
    }

    fn hidden(&self) -> (r: Styled) {
        self.styled().hidden()
    }

    fn strikethrough(&self) -> (r: Styled) {
        self.styled().strikethrough()
    }

    fn black(&self) -> (r: Styled) {
        self.styled().black()
    }

    fn red(&self) -> (r: Styled) {
        self.styled().red()
    }

    fn green(&self) -> (r: Styled) {
        self.styled().green()
    }

    fn yellow(&self) -> (r: Styled) {
        self.styled().yellow()
    }

    fn blue(&self) -> (r: Styled) {
        self.styled().blue()
    }

    fn magenta(&self) -> (r: Styled) {
        self.styled().magenta()
    }

    fn cyan(&self) -> (r: Styled) {
        self.styled().cyan()
    }

    fn white(&self) -> (r: Styled) {
        self.styled().white()
    }
}

impl Stylize for String {
    open spec fn text_bytes(&self) -> Seq<u8> {
        encode_utf8(self@)
    }

    fn styled(&self) -> (r: Styled) {
        Styled::new(slice_to_vec(self.as_str().as_bytes()))
    }

    fn style(&self, st: Style) -> (r: Styled) {
        self.styled().style(st)
    }

    fn fg(&self, c: Color) -> (r: Styled) {
        self.styled().fg(c)
    }

    fn bg(&self, c: Color) -> (r: Styled) {
        self.styled().bg(c)
    }

    fn bold(&self) -> (r: Styled) {
        self.styled().bold()
    }

    fn dim(&self) -> (r: Styled) {
        self.styled().dim()
    }

    fn italic(&self) -> (r: Styled) {
        self.styled().italic()
    }

    fn underline(&self) -> (r: Styled) {
        self.styled().underline()
    }

    fn blink(&self) -> (r: Styled) {
        self.styled().blink()
    }

    fn reverse(&self) -> (r: Styled) {
        self.styled().reverse()
    }

    fn hidden(&self) -> (r: Styled) {
        self.styled().hidden()
    }

    fn strikethrough(&self) -> (r: Styled) {
        self.styled().strikethrough()
    }

    fn black(&self) -> (r: Styled) {
        self.styled().black()
    }

    fn red(&self) -> (r: Styled) {
        self.styled().red()
    }

    fn green(&self) -> (r: Styled) {
        self.styled().green()
    }

    fn yellow(&self) -> (r: Styled) {
        self.styled().yellow()
    }

    fn blue(&self) -> (r: Styled) {
        self.styled().blue()
    }

    fn magenta(&self) -> (r: Styled) {
        self.styled().magenta()
    }

    fn cyan(&self) -> (r: Styled) {
        self.styled().cyan()
    }

    fn white(&self) -> (r: Styled) {
        self.styled().white()
    }
}

} // verus!
