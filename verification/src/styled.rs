//! The styled-text builder and its rendering to an ANSI escape sequence.

use crate::color::Color;
use crate::style::Style;
use vstd::prelude::*;

verus! {

/// The configuration of a styled value, as mathematical values: the text
/// payload, the optional foreground and background colors, and the ordered
/// list of style attributes.
#[verifier::ext_equal]
pub struct CLWView {
    pub value: Seq<char>,
    pub text: Option<Color>,
    pub bg: Option<Color>,
    pub font: Seq<Style>,
}

/// `v` with the foreground color set to `c`; a second call overwrites.
pub open spec fn with_text(v: CLWView, c: Color) -> CLWView {
    CLWView { value: v.value, text: Some(c), bg: v.bg, font: v.font }
}

/// `v` with the background color set to `c`; a second call overwrites.
pub open spec fn with_bg(v: CLWView, c: Color) -> CLWView {
    CLWView { value: v.value, text: v.text, bg: Some(c), font: v.font }
}

/// `v` with the style `s` appended; earlier styles are kept, in order.
pub open spec fn with_font(v: CLWView, s: Style) -> CLWView {
    CLWView { value: v.value, text: v.text, bg: v.bg, font: v.font.push(s) }
}

/// The SGR parameters of a style list, one per style, in order.
pub open spec fn style_tokens(fs: Seq<Style>) -> Seq<Seq<char>> {
    fs.map_values(|s: Style| s.code_spec())
}

/// The SGR parameters contributed by the two color fields: the foreground
/// parameter if a foreground is set, then the background parameter if a
/// background is set.
pub open spec fn color_tokens(v: CLWView) -> Seq<Seq<char>> {
    (match v.text {
        Some(c) => seq![c.fg_code_spec()],
        None => Seq::empty(),
    }) + (match v.bg {
        Some(c) => seq![c.bg_code_spec()],
        None => Seq::empty(),
    })
}

/// Every SGR parameter of a configuration: foreground, then background,
/// then the styles in the order they were added.
pub open spec fn token_list(v: CLWView) -> Seq<Seq<char>> {
    color_tokens(v) + style_tokens(v.font)
}

/// The given parameter strings joined by `;`.
pub open spec fn join_semi(ts: Seq<Seq<char>>) -> Seq<char>
    decreases ts.len(),
{
    if ts.len() == 0 {
        Seq::empty()
    } else if ts.len() == 1 {
        ts[0]
    } else {
        join_semi(ts.drop_last()) + seq![';'] + ts.last()
    }
}

/// The escape introducer: the ESC control byte followed by `[`.
pub open spec fn esc_lbrack() -> Seq<char> {
    seq!['\x1b', '[']
}

/// The SGR reset sequence `ESC[0m`.
pub open spec fn sgr_reset() -> Seq<char> {
    seq!['\x1b', '[', '0', 'm']
}

/// What rendering a configuration produces: the payload unchanged when no
/// parameter is set, else the payload wrapped between `ESC[<params>m` and
/// `ESC[0m`, with the parameters joined by `;`.
pub open spec fn render_spec(v: CLWView) -> Seq<char> {
    if token_list(v).len() == 0 {
        v.value
    } else {
        esc_lbrack() + join_semi(token_list(v)) + seq!['m'] + v.value + sgr_reset()
    }
}

/// Joining after appending one more parameter adds a `;` separator exactly
/// when some parameter was already present.
pub proof fn lemma_join_push(ts: Seq<Seq<char>>, t: Seq<char>)
    ensures
        ts.len() == 0 ==> join_semi(ts.push(t)) == t,
        ts.len() > 0 ==> join_semi(ts.push(t)) == join_semi(ts) + seq![';'] + t,
{
    assert(ts.push(t).drop_last() =~= ts);
    assert(ts.push(t).last() == t);
}

/// A colored and styled text for terminal output.
pub struct CLW {
    value: String,
    bg: Option<Color>,
    text: Option<Color>,
    font: Vec<Style>,
}

impl View for CLW {
    type V = CLWView;

    closed spec fn view(&self) -> CLWView {
        CLWView { value: self.value@, text: self.text, bg: self.bg, font: self.font@ }
    }
}

impl CLW {
    /// Creates a styled value holding `value`, with no foreground, no
    /// background and no styles.
    pub(crate) fn new(value: String) -> (r: CLW)
        ensures
            r@ == (CLWView { value: value@, text: None, bg: None, font: Seq::empty() }),
    {
        let r = CLW { value, text: None, bg: None, font: Vec::new() };
        proof {
            assert(r@ =~= (CLWView { value: value@, text: None, bg: None, font: Seq::empty() }));
        }
        r
    }

    /// Sets the text color; overwrites any color set before.
    pub fn text(self, color: Color) -> (r: CLW)
        ensures
            r@ == with_text(self@, color),
    {
        let r = CLW { value: self.value, text: Some(color), bg: self.bg, font: self.font };
        proof {
            assert(r@ =~= with_text(self@, color));
        }
        r
    }

    /// Sets the background color; overwrites any color set before.
    pub fn bg(self, color: Color) -> (r: CLW)
        ensures
            r@ == with_bg(self@, color),
    {
        let r = CLW { value: self.value, text: self.text, bg: Some(color), font: self.font };
        proof {
            assert(r@ =~= with_bg(self@, color));
        }
        r
    }

    /// Adds a style to the text; repeated calls accumulate, in call order.
    pub fn font(self, style: Style) -> (r: CLW)
        ensures
            r@ == with_font(self@, style),
    {
        let mut font = self.font;
        font.push(style);
        let r = CLW { value: self.value, text: self.text, bg: self.bg, font };
        proof {
            assert(r@ =~= with_font(self@, style));
        }
        r
    }

    /// Sets the text color to black.
    pub fn text_black(self) -> (r: CLW)
        ensures
            r@ == with_text(self@, Color::Black),
    {
        self.text(Color::Black)
    }

    /// Sets the text color to red.
    pub fn text_red(self) -> (r: CLW)
        ensures
            r@ == with_text(self@, Color::Red),
    {
        self.text(Color::Red)
    }

    /// Sets the text color to green.
    pub fn text_green(self) -> (r: CLW)
        ensures
            r@ == with_text(self@, Color::Green),
    {
        self.text(Color::Green)
    }

    /// Sets the text color to yellow.
    pub fn text_yellow(self) -> (r: CLW)
        ensures
            r@ == with_text(self@, Color::Yellow),
    {
        self.text(Color::Yellow)
    }

    /// Sets the text color to blue.
    pub fn text_blue(self) -> (r: CLW)
        ensures
            r@ == with_text(self@, Color::Blue),
    {
        self.text(Color::Blue)
    }

    /// Sets the text color to magenta.
    pub fn text_magenta(self) -> (r: CLW)
        ensures
            r@ == with_text(self@, Color::Magenta),
    {
        self.text(Color::Magenta)
    }

    /// Sets the text color to cyan.
    pub fn text_cyan(self) -> (r: CLW)
        ensures
            r@ == with_text(self@, Color::Cyan),
    {
        self.text(Color::Cyan)
    }

    /// Sets the text color to white.
    pub fn text_white(self) -> (r: CLW)
        ensures
            r@ == with_text(self@, Color::White),
    {
        self.text(Color::White)
    }

    /// Sets the text color to bright black.
    pub fn text_bright_black(self) -> (r: CLW)
        ensures
            r@ == with_text(self@, Color::BrightBlack),
    {
        self.text(Color::BrightBlack)
    }

    /// Sets the text color to bright red.
    pub fn text_bright_red(self) -> (r: CLW)
        ensures
            r@ == with_text(self@, Color::BrightRed),
    {
        self.text(Color::BrightRed)
    }

    /// Sets the text color to bright green.
    pub fn text_bright_green(self) -> (r: CLW)
        ensures
            r@ == with_text(self@, Color::BrightGreen),
    {
        self.text(Color::BrightGreen)
    }

    /// Sets the text color to bright yellow.
    pub fn text_bright_yellow(self) -> (r: CLW)
        ensures
            r@ == with_text(self@, Color::BrightYellow),
    {
        self.text(Color::BrightYellow)
    }

    /// Sets the text color to bright blue.
    pub fn text_bright_blue(self) -> (r: CLW)
        ensures
            r@ == with_text(self@, Color::BrightBlue),
    {
        self.text(Color::BrightBlue)
    }

    /// Sets the text color to bright magenta.
    pub fn text_bright_magenta(self) -> (r: CLW)
        ensures
            r@ == with_text(self@, Color::BrightMagenta),
    {
        self.text(Color::BrightMagenta)
    }

    /// Sets the text color to bright cyan.
    pub fn text_bright_cyan(self) -> (r: CLW)
        ensures
            r@ == with_text(self@, Color::BrightCyan),
    {
        self.text(Color::BrightCyan)
    }

    /// Sets the text color to bright white.
    pub fn text_bright_white(self) -> (r: CLW)
        ensures
            r@ == with_text(self@, Color::BrightWhite),
    {
        self.text(Color::BrightWhite)
    }

    /// Sets the background color to black.
    pub fn bg_black(self) -> (r: CLW)
        ensures
            r@ == with_bg(self@, Color::Black),
    {
        self.bg(Color::Black)
    }

    /// Sets the background color to red.
    pub fn bg_red(self) -> (r: CLW)
        ensures
            r@ == with_bg(self@, Color::Red),
    {
        self.bg(Color::Red)
    }

    /// Sets the background color to green.
    pub fn bg_green(self) -> (r: CLW)
        ensures
            r@ == with_bg(self@, Color::Green),
    {
        self.bg(Color::Green)
    }

    /// Sets the background color to yellow.
    pub fn bg_yellow(self) -> (r: CLW)
        ensures
            r@ == with_bg(self@, Color::Yellow),
    {
        self.bg(Color::Yellow)
    }

    /// Sets the background color to blue.
    pub fn bg_blue(self) -> (r: CLW)
        ensures
            r@ == with_bg(self@, Color::Blue),
    {
        self.bg(Color::Blue)
    }

    /// Sets the background color to magenta.
    pub fn bg_magenta(self) -> (r: CLW)
        ensures
            r@ == with_bg(self@, Color::Magenta),
    {
        self.bg(Color::Magenta)
    }

    /// Sets the background color to cyan.
    pub fn bg_cyan(self) -> (r: CLW)
        ensures
            r@ == with_bg(self@, Color::Cyan),
    {
        self.bg(Color::Cyan)
    }

    /// Sets the background color to white.
    pub fn bg_white(self) -> (r: CLW)
        ensures
            r@ == with_bg(self@, Color::White),
    {
        self.bg(Color::White)
    }

    /// Sets the background color to bright black.
    pub fn bg_bright_black(self) -> (r: CLW)
        ensures
            r@ == with_bg(self@, Color::BrightBlack),
    {
        self.bg(Color::BrightBlack)
    }

    /// Sets the background color to bright red.
    pub fn bg_bright_red(self) -> (r: CLW)
        ensures
            r@ == with_bg(self@, Color::BrightRed),
    {
        self.bg(Color::BrightRed)
    }

    /// Sets the background color to bright green.
    pub fn bg_bright_green(self) -> (r: CLW)
        ensures
            r@ == with_bg(self@, Color::BrightGreen),
    {
        self.bg(Color::BrightGreen)
    }

    /// Sets the background color to bright yellow.
    pub fn bg_bright_yellow(self) -> (r: CLW)
        ensures
            r@ == with_bg(self@, Color::BrightYellow),
    {
        self.bg(Color::BrightYellow)
    }

    /// Sets the background color to bright blue.
    pub fn bg_bright_blue(self) -> (r: CLW)
        ensures
            r@ == with_bg(self@, Color::BrightBlue),
    {
        self.bg(Color::BrightBlue)
    }

    /// Sets the background color to bright magenta.
    pub fn bg_bright_magenta(self) -> (r: CLW)
        ensures
            r@ == with_bg(self@, Color::BrightMagenta),
    {
        self.bg(Color::BrightMagenta)
    }

    /// Sets the background color to bright cyan.
    pub fn bg_bright_cyan(self) -> (r: CLW)
        ensures
            r@ == with_bg(self@, Color::BrightCyan),
    {
        self.bg(Color::BrightCyan)
    }

    /// Sets the background color to bright white.
    pub fn bg_bright_white(self) -> (r: CLW)
        ensures
            r@ == with_bg(self@, Color::BrightWhite),
    {
        self.bg(Color::BrightWhite)
    }

    /// Sets the font style to bold.
    pub fn font_bold(self) -> (r: CLW)
        ensures
            r@ == with_font(self@, Style::Bold),
    {
        self.font(Style::Bold)
    }

    /// Sets the font style to dim.
    pub fn font_dim(self) -> (r: CLW)
        ensures
            r@ == with_font(self@, Style::Dim),
    {
        self.font(Style::Dim)
    }

    /// Sets the font style to italic.
    pub fn font_italic(self) -> (r: CLW)
        ensures
            r@ == with_font(self@, Style::Italic),
    {
        self.font(Style::Italic)
    }

    /// Sets the font style to underline.
    pub fn font_underline(self) -> (r: CLW)
        ensures
            r@ == with_font(self@, Style::Underline),
    {
        self.font(Style::Underline)
    }

    /// Sets the font style to blink.
    pub fn font_blink(self) -> (r: CLW)
        ensures
            r@ == with_font(self@, Style::Blink),
    {
        self.font(Style::Blink)
    }

    /// Sets the font style to reverse.
    pub fn font_reverse(self) -> (r: CLW)
        ensures
            r@ == with_font(self@, Style::Reverse),
    {
        self.font(Style::Reverse)
    }

    /// Sets the font style to hidden.
    pub fn font_hidden(self) -> (r: CLW)
        ensures
            r@ == with_font(self@, Style::Hidden),
    {
        self.font(Style::Hidden)
    }

    /// Sets the font style to strikethrough.
    pub fn font_strikethrough(self) -> (r: CLW)
        ensures
            r@ == with_font(self@, Style::Strikethrough),
    {
        self.font(Style::Strikethrough)
    }

    /// Renders the configured value: the payload wrapped in its SGR escape
    /// sequence, or unchanged when nothing was configured. Pure; rendering
    /// twice yields the same string.
    pub fn render(&self) -> (r: String)
        ensures
            r@ == render_spec(self@),
    {
        let ghost v = self@;
        let mut params = String::new();
        let mut any: bool = false;
        let ghost mut toks: Seq<Seq<char>> = Seq::empty();
        proof {
            reveal_strlit(";");
        }
        if let Some(c) = self.text {
            let code = c.to_foreground_code();
            params.append(code.as_str());
            any = true;
            proof {
                lemma_join_push(toks, code@);
                toks = toks.push(code@);
                assert(params@ =~= join_semi(toks));
            }
        }
        if let Some(c) = self.bg {
            let code = c.to_background_code();
            if any {
                params.append(";");
            }
            params.append(code.as_str());
            any = true;
            proof {
                lemma_join_push(toks, code@);
                toks = toks.push(code@);
                assert(params@ =~= join_semi(toks));
            }
        }
        proof {
            assert(toks =~= color_tokens(v));
            assert(v.font.take(0) =~= Seq::<Style>::empty());
            assert(style_tokens(v.font.take(0)) =~= Seq::<Seq<char>>::empty());
            assert(toks =~= color_tokens(v) + style_tokens(v.font.take(0)));
        }
        let n = self.font.len();
        let mut i: usize = 0;
        while i < n
            invariant
                n == self.font.len(),
                i <= n,
                v == self@,
                toks =~= color_tokens(v) + style_tokens(v.font.take(i as int)),
                params@ == join_semi(toks),
                any == (toks.len() > 0),
            decreases n - i,
        {
            let st = self.font[i];
            let code = st.to_code();
            if any {
                params.append(";");
            }
            params.append(code.as_str());
            any = true;
            proof {
                reveal_strlit(";");
                lemma_join_push(toks, code@);
                toks = toks.push(code@);
                assert(params@ =~= join_semi(toks));
                assert(v.font.take(i + 1) =~= v.font.take(i as int).push(v.font[i as int]));
                assert(style_tokens(v.font.take(i + 1)) =~= style_tokens(
                    v.font.take(i as int),
                ).push(st.code_spec()));
                assert(toks =~= color_tokens(v) + style_tokens(v.font.take(i + 1)));
            }
            i = i + 1;
        }
        proof {
            assert(v.font.take(n as int) =~= v.font);
            assert(toks =~= token_list(v));
        }
        if any {
            proof {
                reveal_strlit("\x1b[");
                reveal_strlit("m");
                reveal_strlit("\x1b[0m");
            }
            let mut out = String::new();
            out.append("\x1b[");
            out.append(params.as_str());
            out.append("m");
            out.append(self.value.as_str());
            out.append("\x1b[0m");
            proof {
                assert(out@ =~= render_spec(v));
            }
            out
        } else {
            self.value.clone()
        }
    }
}

} // verus!
