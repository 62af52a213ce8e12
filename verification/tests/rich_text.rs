use tcp_server::rich_text::colorize::Colorize;
use tcp_server::rich_text::format::Formatize;
use tcp_server::rich_text::text::{
    color_text, format_text, get_string_for_color, get_string_for_format, Color, Format,
};

#[test]
fn color_text_wraps_in_code_and_reset() {
    assert_eq!(color_text("hi", Color::RED), "\x1b[31mhi\x1b[0m");
    assert_eq!(color_text("hi", Color::GREEN), "\x1b[32mhi\x1b[0m");
    assert_eq!(color_text("hi", Color::BLUE), "\x1b[34mhi\x1b[0m");
    assert_eq!(color_text("hi", Color::BLACK), "\x1b[30mhi\x1b[0m");
    assert_eq!(color_text("hi", Color::WHITE), "\x1b[37mhi\x1b[0m");
    assert_eq!(color_text("hi", Color::YELLOW), "\x1b[33mhi\x1b[0m");
    assert_eq!(color_text("hi", Color::MAGENTA), "\x1b[35mhi\x1b[0m");
    assert_eq!(color_text("hi", Color::CYAN), "\x1b[36mhi\x1b[0m");
}

#[test]
fn color_text_of_empty_text() {
    assert_eq!(color_text("", Color::RED), "\x1b[31m\x1b[0m");
}

#[test]
fn format_text_wraps_in_code_and_reset() {
    assert_eq!(format_text("a b", Format::BOLD), "\x1b[1ma b\x1b[0m");
    assert_eq!(format_text("a b", Format::DIM), "\x1b[2ma b\x1b[0m");
    assert_eq!(format_text("a b", Format::ITALIC), "\x1b[3ma b\x1b[0m");
    assert_eq!(format_text("a b", Format::Underline), "\x1b[4ma b\x1b[0m");
}

#[test]
fn colorize_on_str() {
    let s: &str = "x";
    assert_eq!(s.red(), "\x1b[31mx\x1b[0m");
    assert_eq!(s.green(), "\x1b[32mx\x1b[0m");
    assert_eq!(s.blue(), "\x1b[34mx\x1b[0m");
    assert_eq!(s.black(), "\x1b[30mx\x1b[0m");
    assert_eq!(s.white(), "\x1b[37mx\x1b[0m");
    assert_eq!(s.yellow(), "\x1b[33mx\x1b[0m");
    assert_eq!(s.magenta(), "\x1b[35mx\x1b[0m");
    assert_eq!(s.cyan(), "\x1b[36mx\x1b[0m");
}

#[test]
fn colorize_on_string() {
    let s = String::from("ünï");
    assert_eq!(s.red(), "\x1b[31münï\x1b[0m");
    assert_eq!(s.green(), "\x1b[32münï\x1b[0m");
    assert_eq!(s.blue(), "\x1b[34münï\x1b[0m");
    assert_eq!(s.black(), "\x1b[30münï\x1b[0m");
    assert_eq!(s.white(), "\x1b[37münï\x1b[0m");
    assert_eq!(s.yellow(), "\x1b[33münï\x1b[0m");
    assert_eq!(s.magenta(), "\x1b[35münï\x1b[0m");
    assert_eq!(s.cyan(), "\x1b[36münï\x1b[0m");
}

#[test]
fn formatize_on_str_and_string() {
    let s: &str = "t";
    assert_eq!(s.bold(), "\x1b[1mt\x1b[0m");
    assert_eq!(s.italic(), "\x1b[3mt\x1b[0m");
    assert_eq!(s.underline(), "\x1b[4mt\x1b[0m");
    assert_eq!(s.dime(), "\x1b[2mt\x1b[0m");
    let o = String::from("t");
    assert_eq!(o.bold(), "\x1b[1mt\x1b[0m");
    assert_eq!(o.italic(), "\x1b[3mt\x1b[0m");
    assert_eq!(o.underline(), "\x1b[4mt\x1b[0m");
    assert_eq!(o.dime(), "\x1b[2mt\x1b[0m");
}

#[test]
fn every_colour_and_format_has_its_own_code() {
    let colours = vec![
        color_text("", Color::RED),
        color_text("", Color::GREEN),
        color_text("", Color::BLUE),
        color_text("", Color::BLACK),
        color_text("", Color::WHITE),
        color_text("", Color::YELLOW),
        color_text("", Color::MAGENTA),
        color_text("", Color::CYAN),
    ];
    for i in 0..colours.len() {
        for j in 0..colours.len() {
            assert_eq!(i == j, colours[i] == colours[j]);
        }
    }
    let formats = vec![
        format_text("", Format::BOLD),
        format_text("", Format::ITALIC),
        format_text("", Format::DIM),
        format_text("", Format::Underline),
    ];
    for i in 0..formats.len() {
        for j in 0..formats.len() {
            assert_eq!(i == j, formats[i] == formats[j]);
        }
    }
}

#[test]
fn escape_codes() {
    assert_eq!(get_string_for_color(Color::CYAN), "\x1b[36m");
    assert_eq!(get_string_for_color(Color::BLACK), "\x1b[30m");
    assert_eq!(get_string_for_format(Format::Underline), "\x1b[4m");
    assert_eq!(get_string_for_format(Format::DIM), "\x1b[2m");
}
