//! Text attributes and their SGR parameter strings.

use crate::digits::dec;
use crate::digits::u8_to_dec;
use vstd::prelude::*;

verus! {

/// A text style attribute for terminal output.
#[derive(Clone, Copy)]
pub enum Style {
    Bold,
    Dim,
    Italic,
    Underline,
    Blink,
    Reverse,
    Hidden,
    Strikethrough,
}

impl Style {
    /// The SGR number of this attribute.
    pub open spec fn code_num(self) -> nat {
        match self {
            Style::Bold => 1,
            Style::Dim => 2,
            Style::Italic => 3,
            Style::Underline => 4,
            Style::Blink => 5,
            Style::Reverse => 7,
            Style::Hidden => 8,
            Style::Strikethrough => 9,
        }
    }

    /// The characters of this attribute's SGR parameter.
    pub open spec fn code_spec(self) -> Seq<char> {
        dec(self.code_num())
    }

    /// This attribute's single SGR parameter string.
    pub fn to_code(self) -> (r: String)
        ensures
            r@ == self.code_spec(),
    {
        let n: u8 = match self {
            Style::Bold => 1,
            Style::Dim => 2,
            Style::Italic => 3,
            Style::Underline => 4,
            Style::Blink => 5,
            Style::Reverse => 7,
            Style::Hidden => 8,
            Style::Strikethrough => 9,
        };
        u8_to_dec(n)
    }
}

} // verus!
