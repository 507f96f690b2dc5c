use clwind::clw;
use clwind::Color;
use clwind::Style;

#[test]
fn text_convenience_setters_match_general_setter() {
    assert_eq!(clw("t").text_black().render(), clw("t").text(Color::Black).render());
    assert_eq!(clw("t").text_red().render(), clw("t").text(Color::Red).render());
    assert_eq!(clw("t").text_green().render(), clw("t").text(Color::Green).render());
    assert_eq!(clw("t").text_yellow().render(), clw("t").text(Color::Yellow).render());
    assert_eq!(clw("t").text_blue().render(), clw("t").text(Color::Blue).render());
    assert_eq!(clw("t").text_magenta().render(), clw("t").text(Color::Magenta).render());
    assert_eq!(clw("t").text_cyan().render(), clw("t").text(Color::Cyan).render());
    assert_eq!(clw("t").text_white().render(), clw("t").text(Color::White).render());
    assert_eq!(clw("t").text_bright_black().render(), clw("t").text(Color::BrightBlack).render());
    assert_eq!(clw("t").text_bright_red().render(), clw("t").text(Color::BrightRed).render());
    assert_eq!(clw("t").text_bright_green().render(), clw("t").text(Color::BrightGreen).render());
    assert_eq!(clw("t").text_bright_yellow().render(), clw("t").text(Color::BrightYellow).render());
    assert_eq!(clw("t").text_bright_blue().render(), clw("t").text(Color::BrightBlue).render());
    assert_eq!(clw("t").text_bright_magenta().render(), clw("t").text(Color::BrightMagenta).render());
    assert_eq!(clw("t").text_bright_cyan().render(), clw("t").text(Color::BrightCyan).render());
    assert_eq!(clw("t").text_bright_white().render(), clw("t").text(Color::BrightWhite).render());
}

#[test]
fn bg_convenience_setters_match_general_setter() {
    assert_eq!(clw("t").bg_black().render(), clw("t").bg(Color::Black).render());
    assert_eq!(clw("t").bg_red().render(), clw("t").bg(Color::Red).render());
    assert_eq!(clw("t").bg_green().render(), clw("t").bg(Color::Green).render());
    assert_eq!(clw("t").bg_yellow().render(), clw("t").bg(Color::Yellow).render());
    assert_eq!(clw("t").bg_blue().render(), clw("t").bg(Color::Blue).render());
    assert_eq!(clw("t").bg_magenta().render(), clw("t").bg(Color::Magenta).render());
    assert_eq!(clw("t").bg_cyan().render(), clw("t").bg(Color::Cyan).render());
    assert_eq!(clw("t").bg_white().render(), clw("t").bg(Color::White).render());
    assert_eq!(clw("t").bg_bright_black().render(), clw("t").bg(Color::BrightBlack).render());
    assert_eq!(clw("t").bg_bright_red().render(), clw("t").bg(Color::BrightRed).render());
    assert_eq!(clw("t").bg_bright_green().render(), clw("t").bg(Color::BrightGreen).render());
    assert_eq!(clw("t").bg_bright_yellow().render(), clw("t").bg(Color::BrightYellow).render());
    assert_eq!(clw("t").bg_bright_blue().render(), clw("t").bg(Color::BrightBlue).render());
    assert_eq!(clw("t").bg_bright_magenta().render(), clw("t").bg(Color::BrightMagenta).render());
    assert_eq!(clw("t").bg_bright_cyan().render(), clw("t").bg(Color::BrightCyan).render());
    assert_eq!(clw("t").bg_bright_white().render(), clw("t").bg(Color::BrightWhite).render());
}

#[test]
fn font_convenience_setters_match_general_setter() {
    assert_eq!(clw("t").font_bold().render(), clw("t").font(Style::Bold).render());
    assert_eq!(clw("t").font_dim().render(), clw("t").font(Style::Dim).render());
    assert_eq!(clw("t").font_italic().render(), clw("t").font(Style::Italic).render());
    assert_eq!(clw("t").font_underline().render(), clw("t").font(Style::Underline).render());
    assert_eq!(clw("t").font_blink().render(), clw("t").font(Style::Blink).render());
    assert_eq!(clw("t").font_reverse().render(), clw("t").font(Style::Reverse).render());
    assert_eq!(clw("t").font_hidden().render(), clw("t").font(Style::Hidden).render());
    assert_eq!(clw("t").font_strikethrough().render(), clw("t").font(Style::Strikethrough).render());
}

#[test]
fn convenience_setters_compose_like_general_setters() {
    assert_eq!(
        clw("t").text_bright_cyan().bg_white().font_strikethrough().render(),
        clw("t").text(Color::BrightCyan).bg(Color::White).font(Style::Strikethrough).render()
    );
}
