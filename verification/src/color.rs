//! Colors and their SGR parameter strings.

use crate::digits::dec;
use crate::digits::u8_to_dec;
use vstd::prelude::*;

verus! {

/// A color for terminal output: sixteen named colors, an RGB triple,
/// a 256-color palette index, or a 24-bit hexadecimal code.
#[derive(Clone, Copy)]
pub enum Color {
    Black,
    Red,
    Green,
    Yellow,
    Blue,
    Magenta,
    Cyan,
    White,
    BrightBlack,
    BrightRed,
    BrightGreen,
    BrightYellow,
    BrightBlue,
    BrightMagenta,
    BrightCyan,
    BrightWhite,
    /// RGB color with red, green, and blue components.
    Rgb(u8, u8, u8),
    /// 256-color palette index.
    Color256(u8),
    /// Hexadecimal color code, read as `0xRRGGBB`; bits above the low 24 are ignored.
    Hex(u32),
}

/// The red component of a hexadecimal code: bits 16 to 23.
pub open spec fn hex_red(h: u32) -> u8 {
    (h >> 16) as u8
}

/// The green component of a hexadecimal code: bits 8 to 15.
pub open spec fn hex_green(h: u32) -> u8 {
    (h >> 8) as u8
}

/// The blue component of a hexadecimal code: bits 0 to 7.
pub open spec fn hex_blue(h: u32) -> u8 {
    h as u8
}

/// The SGR parameter list `{lead};2;{r};{g};{b}` selecting a direct RGB color.
pub open spec fn rgb_params(lead: nat, r: u8, g: u8, b: u8) -> Seq<char> {
    dec(lead) + seq![';'] + dec(2) + seq![';'] + dec(r as nat) + seq![';'] + dec(g as nat)
        + seq![';'] + dec(b as nat)
}

/// The SGR parameter list `{lead};5;{i}` selecting a palette color.
pub open spec fn palette_params(lead: nat, i: u8) -> Seq<char> {
    dec(lead) + seq![';'] + dec(5) + seq![';'] + dec(i as nat)
}

impl Color {
    /// Whether this is one of the sixteen named colors.
    pub open spec fn is_named(self) -> bool {
        match self {
            Color::Rgb(_, _, _) => false,
            Color::Color256(_) => false,
            Color::Hex(_) => false,
            _ => true,
        }
    }

    /// The SGR foreground number of a named color: 30-37 standard, 90-97 bright.
    pub open spec fn named_code(self) -> nat {
        match self {
            Color::Black => 30,
            Color::Red => 31,
            Color::Green => 32,
            Color::Yellow => 33,
            Color::Blue => 34,
            Color::Magenta => 35,
            Color::Cyan => 36,
            Color::White => 37,
            Color::BrightBlack => 90,
            Color::BrightRed => 91,
            Color::BrightGreen => 92,
            Color::BrightYellow => 93,
            Color::BrightBlue => 94,
            Color::BrightMagenta => 95,
            Color::BrightCyan => 96,
            Color::BrightWhite => 97,
            _ => 30,
        }
    }

    /// The characters of this color's foreground SGR parameter.
    pub open spec fn fg_code_spec(self) -> Seq<char> {
        match self {
            Color::Rgb(r, g, b) => rgb_params(38, r, g, b),
            Color::Color256(i) => palette_params(38, i),
            Color::Hex(h) => rgb_params(38, hex_red(h), hex_green(h), hex_blue(h)),
            _ => dec(self.named_code()),
        }
    }

    /// The characters of this color's background SGR parameter: for a named
    /// color, the foreground number plus ten; otherwise the same shape as the
    /// foreground parameter with lead 48 in place of 38.
    pub open spec fn bg_code_spec(self) -> Seq<char> {
        match self {
            Color::Rgb(r, g, b) => rgb_params(48, r, g, b),
            Color::Color256(i) => palette_params(48, i),
            Color::Hex(h) => rgb_params(48, hex_red(h), hex_green(h), hex_blue(h)),
            _ => dec(self.named_code() + 10),
        }
    }

    fn named_num(self) -> (n: u8)
        requires
            self.is_named(),
        ensures
            n as nat == self.named_code(),
            30 <= n <= 97,
    {
        match self {
            Color::Black => 30,
            Color::Red => 31,
            Color::Green => 32,
            Color::Yellow => 33,
            Color::Blue => 34,
            Color::Magenta => 35,
            Color::Cyan => 36,
            Color::White => 37,
            Color::BrightBlack => 90,
            Color::BrightRed => 91,
            Color::BrightGreen => 92,
            Color::BrightYellow => 93,
            Color::BrightBlue => 94,
            Color::BrightMagenta => 95,
            Color::BrightCyan => 96,
            _ => 97,
        }
    }

    /// This color's SGR parameter string when used as a foreground color.
    pub fn to_foreground_code(self) -> (r: String)
        ensures
            r@ == self.fg_code_spec(),
    {
        match self {
            Color::Rgb(r, g, b) => rgb_code(38, r, g, b),
            Color::Color256(i) => palette_code(38, i),
            Color::Hex(h) => {
                let (r, g, b) = hex_split(h);
                rgb_code(38, r, g, b)
            },
            _ => u8_to_dec(self.named_num()),
        }
    }

    /// This color's SGR parameter string when used as a background color.
    pub fn to_background_code(self) -> (r: String)
        ensures
            r@ == self.bg_code_spec(),
    {
        match self {
            Color::Rgb(r, g, b) => rgb_code(48, r, g, b),
            Color::Color256(i) => palette_code(48, i),
            Color::Hex(h) => {
                let (r, g, b) = hex_split(h);
                rgb_code(48, r, g, b)
            },
            _ => u8_to_dec(self.named_num() + 10),
        }
    }
}

/// Splits a hexadecimal code into its red, green and blue bytes.
fn hex_split(h: u32) -> (t: (u8, u8, u8))
    ensures
        t.0 == hex_red(h),
        t.1 == hex_green(h),
        t.2 == hex_blue(h),
{
    let r = #[verifier::truncate] ((h >> 16) as u8);
    let g = #[verifier::truncate] ((h >> 8) as u8);
    let b = #[verifier::truncate] (h as u8);
    (r, g, b)
}

/// Appends a `;` separator.
fn push_semi(s: &mut String)
    ensures
        final(s)@ == old(s)@ + seq![';'],
{
    proof {
        reveal_strlit(";");
    }
    s.append(";");
}

/// Formats the parameter list `{lead};2;{r};{g};{b}`.
fn rgb_code(lead: u8, r: u8, g: u8, b: u8) -> (s: String)
    ensures
        s@ == rgb_params(lead as nat, r, g, b),
{
    let mut s = u8_to_dec(lead);
    push_semi(&mut s);
    let d = u8_to_dec(2);
    s.append(d.as_str());
    push_semi(&mut s);
    let d = u8_to_dec(r);
    s.append(d.as_str());
    push_semi(&mut s);
    let d = u8_to_dec(g);
    s.append(d.as_str());
    push_semi(&mut s);
    let d = u8_to_dec(b);
    s.append(d.as_str());
    proof {
        assert(s@ =~= rgb_params(lead as nat, r, g, b));
    }
    s
}

/// Formats the parameter list `{lead};5;{i}`.
fn palette_code(lead: u8, i: u8) -> (s: String)
    ensures
        s@ == palette_params(lead as nat, i),
{
    let mut s = u8_to_dec(lead);
    push_semi(&mut s);
    let d = u8_to_dec(5);
    s.append(d.as_str());
    push_semi(&mut s);
    let d = u8_to_dec(i);
    s.append(d.as_str());
    proof {
        assert(s@ =~= palette_params(lead as nat, i));
    }
    s
}

} // verus!
