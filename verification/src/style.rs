//! Text attributes a decoration can switch on, and their SGR codes.

use vstd::prelude::*;

verus! {

/// A text attribute.  Each one is selected by a single SGR code.
#[derive(Clone, Copy, Debug, PartialEq, Eq, Structural)]
pub enum Style {
    Bold,
    Dim,
    Italic,
    Underline,
    Blink,
    Reverse,
    Hidden,
    Strikethrough,
}

impl Style {
    /// The SGR code that switches the attribute on.
    pub open spec fn code(self) -> nat {
        match self {
            Style::Bold => 1,
            Style::Dim => 2,
            Style::Italic => 3,
            Style::Underline => 4,
            Style::Blink => 5,
            Style::Reverse => 7,
            Style::Hidden => 8,
            Style::Strikethrough => 9,
        }
    }
}

} // verus!
