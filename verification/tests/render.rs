use clwind::clw;
use clwind::Color;
use clwind::Style;

#[test]
fn plain_text_passes_through() {
    assert_eq!(clw("plain").render(), "plain");
    assert!(!clw("plain").render().contains('\x1b'));
}

#[test]
fn empty_text_passes_through() {
    assert_eq!(clw("").render(), "");
}

#[test]
fn foreground_only() {
    assert_eq!(clw("hi").text(Color::Red).render(), "\x1b[31mhi\x1b[0m");
}

#[test]
fn background_only() {
    assert_eq!(clw("q").bg(Color::Red).render(), "\x1b[41mq\x1b[0m");
}

#[test]
fn style_only() {
    assert_eq!(clw("s").font(Style::Reverse).render(), "\x1b[7ms\x1b[0m");
}

#[test]
fn empty_payload_still_wrapped() {
    assert_eq!(clw("").text(Color::Red).render(), "\x1b[31m\x1b[0m");
}

#[test]
fn foreground_and_two_styles_keep_order() {
    assert_eq!(
        clw("text").text(Color::Red).font(Style::Bold).font(Style::Underline).render(),
        "\x1b[31;1;4mtext\x1b[0m"
    );
    assert_eq!(
        clw("text").text(Color::Red).font(Style::Underline).font(Style::Bold).render(),
        "\x1b[31;4;1mtext\x1b[0m"
    );
}

#[test]
fn foreground_precedes_background_whatever_the_call_order() {
    assert_eq!(clw("x").text(Color::Red).bg(Color::Blue).render(), "\x1b[31;44mx\x1b[0m");
    assert_eq!(clw("x").bg(Color::Blue).text(Color::Red).render(), "\x1b[31;44mx\x1b[0m");
}

#[test]
fn full_chain() {
    let styled = clw("Styled").bg_bright_black().text_cyan().font_bold().font_blink();
    assert_eq!(styled.render(), "\x1b[36;100;1;5mStyled\x1b[0m");
}

#[test]
fn render_is_idempotent() {
    let styled = clw("same").text(Color::Green).font(Style::Dim);
    let first = styled.render();
    let second = styled.render();
    assert_eq!(first, second);
}

#[test]
fn payload_appears_verbatim() {
    let rendered = clw("pay;load[0m").text(Color::Magenta).bg(Color::Cyan).render();
    assert!(rendered.contains("pay;load[0m"));
    assert_eq!(rendered, "\x1b[35;46mpay;load[0m\x1b[0m");
}

#[test]
fn parametric_colors_render() {
    assert_eq!(
        clw("rgb").text(Color::Rgb(1, 2, 3)).bg(Color::Color256(200)).render(),
        "\x1b[38;2;1;2;3;48;5;200mrgb\x1b[0m"
    );
    assert_eq!(clw("hex").text(Color::Hex(0xFF8800)).render(), "\x1b[38;2;255;136;0mhex\x1b[0m");
}

#[test]
fn foreground_overwrite_keeps_second() {
    assert_eq!(clw("x").text(Color::Red).text(Color::Blue).render(), "\x1b[34mx\x1b[0m");
}

#[test]
fn background_overwrite_keeps_second() {
    assert_eq!(clw("x").bg(Color::Red).bg(Color::Blue).render(), "\x1b[44mx\x1b[0m");
}

#[test]
fn styles_accumulate_with_duplicates() {
    assert_eq!(clw("x").font(Style::Bold).font(Style::Bold).render(), "\x1b[1;1mx\x1b[0m");
}
