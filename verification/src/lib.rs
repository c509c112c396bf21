//! Fluent ANSI text styling.
//!
//! The crate wraps a piece of renderable text in a [`Decoration`]: a record of
//! text attributes (bold, underline, ...) together with an optional foreground
//! and background color.  Rendering a [`Styled`] value emits a single merged
//! SGR escape sequence, the text, and a reset sequence.  The [`Stylize`] trait
//! offers the chainable entry points (`"text".bold().blue()`), with
//! accumulating semantics: each call on a wrapper amends its decoration record,
//! so a whole chain renders as one entry/exit pair.

pub mod sgr;
pub mod color;
pub mod style;
pub mod decoration;
pub mod styled;
pub mod stylize;
pub mod strip;
pub mod laws;

pub use color::Color;
pub use style::Style;
pub use decoration::Decoration;
pub use styled::Styled;
pub use stylize::Stylize;
pub use strip::strip_sgr;
