use vstd::prelude::*;

verus! {

/// The foreground colours a piece of text can be rendered in.
pub enum Color {
    RED,
    GREEN,
    BLUE,
    BLACK,
    WHITE,
    YELLOW,
    MAGENTA,
    CYAN,
}

/// The text attributes a piece of text can be rendered with.
pub enum Format {
    BOLD,
    ITALIC,
    DIM,
    Underline,
}

/// The ANSI escape sequence `ESC [ <code> m` for a select-graphic-rendition code.
pub open spec fn sgr(code: Seq<char>) -> Seq<char> {
    seq!['\x1b', '['] + code + seq!['m']
}

/// The sequence that resets all attributes.
pub open spec fn reset_seq() -> Seq<char> {
    sgr(seq!['0'])
}

/// The escape sequence that selects `color`.
pub open spec fn color_seq(color: Color) -> Seq<char> {
    match color {
        Color::RED => sgr(seq!['3', '1']),
        Color::GREEN => sgr(seq!['3', '2']),
        Color::BLUE => sgr(seq!['3', '4']),
        Color::BLACK => sgr(seq!['3', '0']),
        Color::WHITE => sgr(seq!['3', '7']),
        Color::YELLOW => sgr(seq!['3', '3']),
        Color::MAGENTA => sgr(seq!['3', '5']),
        Color::CYAN => sgr(seq!['3', '6']),
    }
}

/// The escape sequence that selects `format`.
pub open spec fn format_seq(format: Format) -> Seq<char> {
    match format {
        Format::BOLD => sgr(seq!['1']),
        Format::DIM => sgr(seq!['2']),
        Format::ITALIC => sgr(seq!['3']),
        Format::Underline => sgr(seq!['4']),
    }
}

/// `text` rendered in `color`: the colour's sequence, the text, then the reset sequence.
pub open spec fn colored(text: Seq<char>, color: Color) -> Seq<char> {
    color_seq(color) + text + reset_seq()
}

/// `text` rendered with `format`: the format's sequence, the text, then the reset sequence.
pub open spec fn formatted(text: Seq<char>, format: Format) -> Seq<char> {
    format_seq(format) + text + reset_seq()
}

/// Every colour has a code of its own: the escape sequences of two colours are equal only
/// when the colours are, and each one is `ESC [ 3`, a digit from 0 to 7, then `m`.
pub proof fn lemma_color_codes_distinct(c1: Color, c2: Color)
    ensures
        color_seq(c1) == color_seq(c2) <==> c1 == c2,
        color_seq(c1).len() == 5,
        color_seq(c1).subrange(0, 3) == seq!['\x1b', '[', '3'],
        '0' <= color_seq(c1)[3] <= '7',
        color_seq(c1)[4] == 'm',
{
    if color_seq(c1) == color_seq(c2) {
        assert(color_seq(c1)[3] == color_seq(c2)[3]);
    }
    assert(color_seq(c1).subrange(0, 3) =~= seq!['\x1b', '[', '3']);
}

/// Every text attribute has a code of its own: the escape sequences of two attributes are
/// equal only when the attributes are, and each one is `ESC [`, a digit from 1 to 4, then `m`.
pub proof fn lemma_format_codes_distinct(f1: Format, f2: Format)
    ensures
        format_seq(f1) == format_seq(f2) <==> f1 == f2,
        format_seq(f1).len() == 4,
        format_seq(f1).subrange(0, 2) == seq!['\x1b', '['],
        '1' <= format_seq(f1)[2] <= '4',
        format_seq(f1)[3] == 'm',
{
    if format_seq(f1) == format_seq(f2) {
        assert(format_seq(f1)[2] == format_seq(f2)[2]);
    }
    assert(format_seq(f1).subrange(0, 2) =~= seq!['\x1b', '[']);
}

/// The escape code of each colour and text attribute, written out: colours are `ESC [ 3x m`
/// (black 0, red 1, green 2, yellow 3, blue 4, magenta 5, cyan 6, white 7), attributes
/// `ESC [ x m` (bold 1, dim 2, italic 3, underline 4), and the reset is `ESC [ 0 m`.
pub proof fn lemma_escape_codes()
    ensures
        color_seq(Color::RED) == seq!['\x1b', '[', '3', '1', 'm'],
        color_seq(Color::GREEN) == seq!['\x1b', '[', '3', '2', 'm'],
        color_seq(Color::BLUE) == seq!['\x1b', '[', '3', '4', 'm'],
        color_seq(Color::BLACK) == seq!['\x1b', '[', '3', '0', 'm'],
        color_seq(Color::WHITE) == seq!['\x1b', '[', '3', '7', 'm'],
        color_seq(Color::YELLOW) == seq!['\x1b', '[', '3', '3', 'm'],
        color_seq(Color::MAGENTA) == seq!['\x1b', '[', '3', '5', 'm'],
        color_seq(Color::CYAN) == seq!['\x1b', '[', '3', '6', 'm'],
        format_seq(Format::BOLD) == seq!['\x1b', '[', '1', 'm'],
        format_seq(Format::DIM) == seq!['\x1b', '[', '2', 'm'],
        format_seq(Format::ITALIC) == seq!['\x1b', '[', '3', 'm'],
        format_seq(Format::Underline) == seq!['\x1b', '[', '4', 'm'],
        reset_seq() == seq!['\x1b', '[', '0', 'm'],
{
}

/// Coloured text is the colour's code, then the whole text unchanged, then the reset: it is
/// nine characters longer than the text, starts with the colour's code and ends with the
/// reset, for every text and colour.
pub proof fn lemma_colored_shape(text: Seq<char>, color: Color)
    ensures
        colored(text, color) == color_seq(color) + text + seq!['\x1b', '[', '0', 'm'],
        colored(text, color).len() == text.len() + 9,
        colored(text, color).subrange(0, 5) == color_seq(color),
        colored(text, color).subrange(5, 5 + text.len() as int) == text,
        colored(text, color).subrange(text.len() as int + 5, text.len() as int + 9) == seq!['\x1b', '[', '0', 'm'],
{
    lemma_color_codes_distinct(color, color);
    let c = colored(text, color);
    assert(c.subrange(0, 5) =~= color_seq(color));
    assert(c.subrange(5, 5 + text.len() as int) =~= text);
    assert(c.subrange(text.len() as int + 5, text.len() as int + 9) =~= seq!['\x1b', '[', '0', 'm']);
}

/// Formatted text is the attribute's code, then the whole text unchanged, then the reset: it
/// is eight characters longer than the text, starts with the attribute's code and ends with
/// the reset, for every text and attribute.
pub proof fn lemma_formatted_shape(text: Seq<char>, format: Format)
    ensures
        formatted(text, format) == format_seq(format) + text + seq!['\x1b', '[', '0', 'm'],
        formatted(text, format).len() == text.len() + 8,
        formatted(text, format).subrange(0, 4) == format_seq(format),
        formatted(text, format).subrange(4, 4 + text.len() as int) == text,
        formatted(text, format).subrange(text.len() as int + 4, text.len() as int + 8) == seq!['\x1b', '[', '0', 'm'],
{
    lemma_format_codes_distinct(format, format);
    let f = formatted(text, format);
    assert(f.subrange(0, 4) =~= format_seq(format));
    assert(f.subrange(4, 4 + text.len() as int) =~= text);
    assert(f.subrange(text.len() as int + 4, text.len() as int + 8) =~= seq!['\x1b', '[', '0', 'm']);
}

const RESET: &'static str = "\x1b[0m";

fn reset_str() -> (res: &'static str)
    ensures
        res@ == reset_seq(),
{
    proof {
        reveal_strlit("\x1b[0m");
    }
    RESET
}

/// Renders `text` in `color`, followed by the reset sequence.
pub fn color_text(text: &str, color: Color) -> (res: String)
    ensures
        res@ == colored(text@, color),
        res@ == color_seq(color) + text@ + seq!['\x1b', '[', '0', 'm'],
{
    let mut s = String::from_str(get_string_for_color(color));
    s.append(text);
    s.append(reset_str());
    s
}

/// Renders `text` with `format`, followed by the reset sequence.
pub fn format_text(text: &str, format: Format) -> (res: String)
    ensures
        res@ == formatted(text@, format),
        res@ == format_seq(format) + text@ + seq!['\x1b', '[', '0', 'm'],
{
    let mut s = String::from_str(get_string_for_format(format));
    s.append(text);
    s.append(reset_str());
    s
}

/// The escape sequence that selects `color`.
pub fn get_string_for_color(color: Color) -> (res: &'static str)
    ensures
        res@ == color_seq(color),
{
    match color {
        Color::RED => {
            proof { reveal_strlit("\x1b[31m"); }
            "\x1b[31m"
        },
        Color::GREEN => {
            proof { reveal_strlit("\x1b[32m"); }
            "\x1b[32m"
        },
        Color::BLUE => {
            proof { reveal_strlit("\x1b[34m"); }
            "\x1b[34m"
        },
        Color::BLACK => {
            proof { reveal_strlit("\x1b[30m"); }
            "\x1b[30m"
        },
        Color::WHITE => {
            proof { reveal_strlit("\x1b[37m"); }
            "\x1b[37m"
        },
        Color::YELLOW => {
            proof { reveal_strlit("\x1b[33m"); }
            "\x1b[33m"
        },
        Color::MAGENTA => {
            proof { reveal_strlit("\x1b[35m"); }
            "\x1b[35m"
        },
        Color::CYAN => {
            proof { reveal_strlit("\x1b[36m"); }
            "\x1b[36m"
        },
    }
}

/// The escape sequence that selects `format`.
pub fn get_string_for_format(format: Format) -> (res: &'static str)
    ensures
        res@ == format_seq(format),
{
    match format {
        Format::BOLD => {
            proof { reveal_strlit("\x1b[1m"); }
            "\x1b[1m"
        },
        Format::DIM => {
            proof { reveal_strlit("\x1b[2m"); }
            "\x1b[2m"
        },
        Format::ITALIC => {
            proof { reveal_strlit("\x1b[3m"); }
            "\x1b[3m"
        },
        Format::Underline => {
            proof { reveal_strlit("\x1b[4m"); }
            "\x1b[4m"
        },
    }
}

} // verus!
