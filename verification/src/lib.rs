//! Builds ANSI SGR escape sequences for terminal text styling: foreground and
//! background colors, text attributes, and a builder value that wraps a string
//! with the configured codes.

use vstd::prelude::*;

pub mod color;
mod digits;
pub mod laws;
pub mod style;
pub mod styled;

pub use color::Color;
pub use style::Style;
pub use styled::CLW;

use styled::CLWView;

verus! {

/// Creates a styled value holding the given text, with no foreground, no
/// background and no styles.
pub fn clw(s: &str) -> (r: CLW)
    ensures
        r@ == (CLWView { value: s@, text: None, bg: None, font: Seq::empty() }),
{
    CLW::new(String::from_str(s))
}

} // verus!
