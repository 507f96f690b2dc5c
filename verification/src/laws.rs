//! Properties of the color codes, the builder and the rendering algorithm.

use crate::color::Color;
use crate::digits::dec;
use crate::style::Style;
use crate::styled::esc_lbrack;
use crate::styled::join_semi;
use crate::styled::render_spec;
use crate::styled::sgr_reset;
use crate::styled::token_list;
use crate::styled::with_bg;
use crate::styled::with_font;
use crate::styled::with_text;
use crate::styled::CLWView;
use vstd::prelude::*;

verus! {

/// Every named color's foreground parameter is the decimal of its SGR number,
/// which lies in 30-37 or 90-97, and its background parameter is the decimal
/// of that number plus ten.
pub proof fn lemma_named_background_offset(c: Color)
    requires
        c.is_named(),
    ensures
        c.fg_code_spec() == dec(c.named_code()),
        c.bg_code_spec() == dec(c.named_code() + 10),
        30 <= c.named_code() <= 37 || 90 <= c.named_code() <= 97,
{
}

/// Rendering a value with no foreground, no background and no styles yields
/// the payload unchanged, with no escape characters added.
pub proof fn lemma_render_unstyled(v: CLWView)
    requires
        v.text is None,
        v.bg is None,
        v.font.len() == 0,
    ensures
        render_spec(v) == v.value,
{
    assert(token_list(v) =~= Seq::<Seq<char>>::empty());
}

/// With a foreground color and two styles added in order, the rendering is
/// `ESC[<fg>;<a>;<b>m<payload>ESC[0m`: the style parameters keep call order.
pub proof fn lemma_render_order(v: CLWView, c: Color, a: Style, b: Style)
    requires
        v.text == Some(c),
        v.bg is None,
        v.font == seq![a, b],
    ensures
        render_spec(v) == esc_lbrack() + c.fg_code_spec() + seq![';']
            + a.code_spec() + seq![';'] + b.code_spec() + seq!['m'] + v.value
            + sgr_reset(),
{
    let fg = c.fg_code_spec();
    let ca = a.code_spec();
    let cb = b.code_spec();
    let ts = token_list(v);
    assert(ts =~= seq![fg, ca, cb]);
    assert(seq![fg, ca, cb].drop_last() =~= seq![fg, ca]);
    assert(seq![fg, ca].drop_last() =~= seq![fg]);
    assert(join_semi(seq![fg]) == fg);
    assert(join_semi(seq![fg, ca]) == fg + seq![';'] + ca);
    assert(join_semi(ts) == fg + seq![';'] + ca + seq![';'] + cb);
    assert(render_spec(v) =~= esc_lbrack() + fg + seq![';'] + ca + seq![';'] + cb
        + seq!['m'] + v.value + sgr_reset());
}

/// Rendering is a function of the configuration alone: two values that agree
/// on payload, colors and styles render to the same string, so rendering the
/// same value twice yields identical output.
pub proof fn lemma_render_congruent(a: CLWView, b: CLWView)
    requires
        a.value == b.value,
        a.text == b.text,
        a.bg == b.bg,
        a.font == b.font,
    ensures
        render_spec(a) == render_spec(b),
{
    assert(a =~= b);
}

/// The payload appears verbatim in the rendering: the rendered string holds
/// it unchanged as a contiguous run, directly after the opening escape
/// sequence when one is emitted, else as the whole output.
pub proof fn lemma_payload_verbatim(v: CLWView)
    ensures
        ({
            let out = render_spec(v);
            let start: int = if token_list(v).len() == 0 {
                0int
            } else {
                3 + join_semi(token_list(v)).len() as int
            };
            &&& 0 <= start
            &&& start + v.value.len() <= out.len()
            &&& out.subrange(start, start + v.value.len() as int) == v.value
        }),
{
    let out = render_spec(v);
    if token_list(v).len() == 0 {
        assert(out.subrange(0, v.value.len() as int) =~= v.value);
    } else {
        let start: int = 3 + join_semi(token_list(v)).len() as int;
        assert(out.subrange(start, start + v.value.len() as int) =~= v.value);
    }
}

/// Setting the foreground twice keeps only the second color.
pub proof fn lemma_foreground_overwrites(v: CLWView, c1: Color, c2: Color)
    ensures
        with_text(with_text(v, c1), c2) == with_text(v, c2),
{
}

/// Setting the background twice keeps only the second color.
pub proof fn lemma_background_overwrites(v: CLWView, c1: Color, c2: Color)
    ensures
        with_bg(with_bg(v, c1), c2) == with_bg(v, c2),
{
}

/// Adding a style twice appends both, after the styles already present and
/// in call order, and touches nothing else.
pub proof fn lemma_styles_accumulate(v: CLWView, s1: Style, s2: Style)
    ensures
        with_font(with_font(v, s1), s2).font == v.font.push(s1).push(s2),
        with_font(with_font(v, s1), s2).value == v.value,
        with_font(with_font(v, s1), s2).text == v.text,
        with_font(with_font(v, s1), s2).bg == v.bg,
{
}

} // verus!
