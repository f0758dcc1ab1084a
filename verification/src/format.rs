//! The notations a picked colour can be copied in.
use crate::color::Rgb8;
use crate::text::{
    decimal_text, digit_char, hex_byte_text, hex_bytes_read_back, hex_value, is_decimal_digit,
    is_hex_digit, lemma_same_three_numbers, natural_text, natural_texts_read_back, push_hex_byte,
    push_natural, writes,
};
use vstd::prelude::*;
use vstd::string::*;

verus! {

#[derive(Debug, Clone, Copy, PartialEq, Eq, Hash, Structural)]
pub enum ColorFormat {
    Hex,
    Rgb,
    CssRgb,
    Hsl,
}

/// Number of notations.
pub const FORMAT_COUNT: usize = 4;

impl ColorFormat {
    /// Position of the notation in menus and lists.
    pub open spec fn position(self) -> int {
        match self {
            ColorFormat::Hex => 0,
            ColorFormat::Rgb => 1,
            ColorFormat::CssRgb => 2,
            ColorFormat::Hsl => 3,
        }
    }

    pub fn index(&self) -> (r: usize)
        ensures
            r == self.position(),
            r < FORMAT_COUNT,
    {
        match self {
            ColorFormat::Hex => 0,
            ColorFormat::Rgb => 1,
            ColorFormat::CssRgb => 2,
            ColorFormat::Hsl => 3,
        }
    }

    /// The notation at a position, if there is one.
    pub fn from_index(index: usize) -> (r: Option<ColorFormat>)
        ensures
            r matches Some(format) ==> format.position() == index,
            r is Some <==> index < FORMAT_COUNT,
    {
        match index {
            0 => Some(ColorFormat::Hex),
            1 => Some(ColorFormat::Rgb),
            2 => Some(ColorFormat::CssRgb),
            3 => Some(ColorFormat::Hsl),
            _ => None,
        }
    }

    pub open spec fn spec_label(self) -> Seq<char> {
        match self {
            ColorFormat::Hex => "HEX"@,
            ColorFormat::Rgb => "RGB"@,
            ColorFormat::CssRgb => "CSS RGB"@,
            ColorFormat::Hsl => "HSL"@,
        }
    }

    pub fn label(&self) -> (r: &'static str)
        ensures
            r@ == self.spec_label(),
    {
        match self {
            ColorFormat::Hex => "HEX",
            ColorFormat::Rgb => "RGB",
            ColorFormat::CssRgb => "CSS RGB",
            ColorFormat::Hsl => "HSL",
        }
    }
}

/// `#RRGGBB`, upper case.
pub open spec fn hex_text(rgb: Rgb8) -> Seq<char> {
    seq!['#'] + hex_byte_text(rgb.r) + hex_byte_text(rgb.g) + hex_byte_text(rgb.b)
}

/// `r, g, b`.
pub open spec fn rgb_text(rgb: Rgb8) -> Seq<char> {
    decimal_text(rgb.r as int) + seq![',', ' '] + decimal_text(rgb.g as int) + seq![',', ' ']
        + decimal_text(rgb.b as int)
}

/// `rgb(r g b)`.
pub open spec fn css_rgb_text(rgb: Rgb8) -> Seq<char> {
    seq!['r', 'g', 'b', '('] + decimal_text(rgb.r as int) + seq![' '] + decimal_text(rgb.g as int)
        + seq![' '] + decimal_text(rgb.b as int) + seq![')']
}

/// The text of a colour in every notation but HSL, whose text rests on
/// floating-point hue and lightness and is supplied by the caller.
pub open spec fn color_text(rgb: Rgb8, format: ColorFormat, hsl: Seq<char>) -> Seq<char> {
    match format {
        ColorFormat::Hex => hex_text(rgb),
        ColorFormat::Rgb => rgb_text(rgb),
        ColorFormat::CssRgb => css_rgb_text(rgb),
        ColorFormat::Hsl => hsl,
    }
}

pub fn format_hex(rgb: Rgb8) -> (r: String)
    ensures
        r@ == hex_text(rgb),
{
    proof {
        reveal_strlit("#");
    }
    let mut text = String::from_str("#");
    push_hex_byte(&mut text, rgb.r);
    push_hex_byte(&mut text, rgb.g);
    push_hex_byte(&mut text, rgb.b);
    assert("#"@ =~= seq!['#']);
    text
}

pub fn format_rgb(rgb: Rgb8) -> (r: String)
    ensures
        r@ == rgb_text(rgb),
{
    proof {
        reveal_strlit(", ");
    }
    let mut text = String::new();
    push_natural(&mut text, rgb.r as u32);
    text.append(", ");
    push_natural(&mut text, rgb.g as u32);
    text.append(", ");
    push_natural(&mut text, rgb.b as u32);
    assert(", "@ =~= seq![',', ' ']);
    assert(text@ =~= rgb_text(rgb));
    text
}

pub fn format_css_rgb(rgb: Rgb8) -> (r: String)
    ensures
        r@ == css_rgb_text(rgb),
{
    proof {
        reveal_strlit("rgb(");
        reveal_strlit(" ");
        reveal_strlit(")");
    }
    let mut text = String::from_str("rgb(");
    push_natural(&mut text, rgb.r as u32);
    text.append(" ");
    push_natural(&mut text, rgb.g as u32);
    text.append(" ");
    push_natural(&mut text, rgb.b as u32);
    text.append(")");
    assert("rgb("@ =~= seq!['r', 'g', 'b', '(']);
    assert(" "@ =~= seq![' ']);
    assert(")"@ =~= seq![')']);
    assert(text@ =~= css_rgb_text(rgb));
    text
}

/// The text to show and copy for a colour. `hsl` is its HSL notation.
pub fn format_color(rgb: Rgb8, format: ColorFormat, hsl: &str) -> (r: String)
    ensures
        r@ == color_text(rgb, format, hsl@),
{
    match format {
        ColorFormat::Hex => format_hex(rgb),
        ColorFormat::Rgb => format_rgb(rgb),
        ColorFormat::CssRgb => format_css_rgb(rgb),
        ColorFormat::Hsl => String::from_str(hsl),
    }
}

/// Two colours with the same hexadecimal text are the same colour.
pub proof fn hex_text_identifies_the_colour(a: Rgb8, b: Rgb8)
    requires
        hex_text(a) == hex_text(b),
    ensures
        a == b,
{
    let s = hex_text(a);
    let t = hex_text(b);
    assert(forall|i: int| 0 <= i < 7 ==> s[i] == t[i]);
    assert(s[1] == digit_char(a.r as int / 16) && s[2] == digit_char(a.r as int % 16));
    assert(t[1] == digit_char(b.r as int / 16) && t[2] == digit_char(b.r as int % 16));
    assert(s[3] == digit_char(a.g as int / 16) && s[4] == digit_char(a.g as int % 16));
    assert(t[3] == digit_char(b.g as int / 16) && t[4] == digit_char(b.g as int % 16));
    assert(s[5] == digit_char(a.b as int / 16) && s[6] == digit_char(a.b as int % 16));
    assert(t[5] == digit_char(b.b as int / 16) && t[6] == digit_char(b.b as int % 16));
}

/// The hexadecimal text is `#` and two digits for red, for green and for blue, in
/// this order.
pub proof fn hex_text_lists_the_channels(rgb: Rgb8)
    ensures
        ({
            let text = hex_text(rgb);
            &&& text.len() == 7
            &&& text[0] == '#'
            &&& forall|i: int| 1 <= i < 7 ==> is_hex_digit(#[trigger] text[i])
            &&& hex_value(text[1]) * 16 + hex_value(text[2]) == rgb.r
            &&& hex_value(text[3]) * 16 + hex_value(text[4]) == rgb.g
            &&& hex_value(text[5]) * 16 + hex_value(text[6]) == rgb.b
        }),
{
    hex_bytes_read_back(rgb.r);
    hex_bytes_read_back(rgb.g);
    hex_bytes_read_back(rgb.b);
    let text = hex_text(rgb);
    assert(text[1] == hex_byte_text(rgb.r)[0] && text[2] == hex_byte_text(rgb.r)[1]);
    assert(text[3] == hex_byte_text(rgb.g)[0] && text[4] == hex_byte_text(rgb.g)[1]);
    assert(text[5] == hex_byte_text(rgb.b)[0] && text[6] == hex_byte_text(rgb.b)[1]);
}

/// The RGB text is three decimal numbers with a comma and a space between them:
/// red, green and blue, in this order. The numbers are handed out.
pub proof fn rgb_text_lists_the_channels(rgb: Rgb8) -> (parts: (Seq<char>, Seq<char>, Seq<char>))
    ensures
        rgb_text(rgb) == parts.0 + seq![',', ' '] + parts.1 + seq![',', ' '] + parts.2,
        writes(parts.0, rgb.r as int),
        writes(parts.1, rgb.g as int),
        writes(parts.2, rgb.b as int),
{
    natural_texts_read_back(rgb.r as nat);
    natural_texts_read_back(rgb.g as nat);
    natural_texts_read_back(rgb.b as nat);
    let parts = (
        natural_text(rgb.r as nat),
        natural_text(rgb.g as nat),
        natural_text(rgb.b as nat),
    );
    assert(rgb_text(rgb) =~= parts.0 + seq![',', ' '] + parts.1 + seq![',', ' '] + parts.2);
    parts
}

/// The CSS text is three decimal numbers with a space between them, in `rgb(` and
/// `)`: red, green and blue, in this order. The numbers are handed out.
pub proof fn css_rgb_text_lists_the_channels(rgb: Rgb8) -> (parts: (
    Seq<char>,
    Seq<char>,
    Seq<char>,
))
    ensures
        css_rgb_text(rgb) == seq!['r', 'g', 'b', '('] + parts.0 + seq![' '] + parts.1 + seq![' ']
            + parts.2 + seq![')'],
        writes(parts.0, rgb.r as int),
        writes(parts.1, rgb.g as int),
        writes(parts.2, rgb.b as int),
{
    natural_texts_read_back(rgb.r as nat);
    natural_texts_read_back(rgb.g as nat);
    natural_texts_read_back(rgb.b as nat);
    let parts = (
        natural_text(rgb.r as nat),
        natural_text(rgb.g as nat),
        natural_text(rgb.b as nat),
    );
    assert(css_rgb_text(rgb) =~= seq!['r', 'g', 'b', '('] + parts.0 + seq![' '] + parts.1 + seq![' ']
        + parts.2 + seq![')']);
    parts
}

/// Two colours with the same RGB text are the same colour.
pub proof fn rgb_text_identifies_the_colour(a: Rgb8, b: Rgb8)
    requires
        rgb_text(a) == rgb_text(b),
    ensures
        a == b,
{
    let p = rgb_text_lists_the_channels(a);
    let q = rgb_text_lists_the_channels(b);
    let comma = seq![',', ' '];
    let end = Seq::<char>::empty();
    assert(p.0 + (comma + (p.1 + (comma + (p.2 + end)))) =~= rgb_text(a));
    assert(q.0 + (comma + (q.1 + (comma + (q.2 + end)))) =~= rgb_text(b));
    lemma_same_three_numbers(p, q, comma, end);
}

/// Two colours with the same CSS text are the same colour.
pub proof fn css_rgb_text_identifies_the_colour(a: Rgb8, b: Rgb8)
    requires
        css_rgb_text(a) == css_rgb_text(b),
    ensures
        a == b,
{
    let p = css_rgb_text_lists_the_channels(a);
    let q = css_rgb_text_lists_the_channels(b);
    let space = seq![' '];
    let close = seq![')'];
    lemma_css_numbers(css_rgb_text(a), p);
    lemma_css_numbers(css_rgb_text(b), q);
    lemma_same_three_numbers(p, q, space, close);
}

proof fn lemma_css_numbers(text: Seq<char>, parts: (Seq<char>, Seq<char>, Seq<char>))
    requires
        text == seq!['r', 'g', 'b', '('] + parts.0 + seq![' '] + parts.1 + seq![' '] + parts.2
            + seq![')'],
    ensures
        text.skip(4) == parts.0 + (seq![' '] + (parts.1 + (seq![' '] + (parts.2 + seq![')'])))),
{
    assert(text.skip(4) =~= parts.0 + (seq![' '] + (parts.1 + (seq![' '] + (parts.2 + seq![
        ')',
    ])))));
}

/// Every notation but HSL shows which one it is and tells the colour: HEX begins
/// with `#`, CSS RGB with a letter and RGB with a digit, and no two colours share a
/// text. HSL is the text that was supplied.
pub proof fn notations_tell_the_colour(
    a: Rgb8,
    b: Rgb8,
    format: ColorFormat,
    hsl_a: Seq<char>,
    hsl_b: Seq<char>,
)
    ensures
        color_text(a, ColorFormat::Hex, hsl_a)[0] == '#',
        color_text(a, ColorFormat::CssRgb, hsl_a)[0] == 'r',
        is_decimal_digit(color_text(a, ColorFormat::Rgb, hsl_a)[0]),
        color_text(a, ColorFormat::Hsl, hsl_a) == hsl_a,
        format != ColorFormat::Hsl && color_text(a, format, hsl_a) == color_text(b, format, hsl_b)
            ==> a == b,
{
    hex_text_lists_the_channels(a);
    let rgb = rgb_text_lists_the_channels(a);
    assert(rgb_text(a)[0] == rgb.0[0]);
    let css = css_rgb_text_lists_the_channels(a);
    assert(css_rgb_text(a)[0] == 'r');
    if format != ColorFormat::Hsl && color_text(a, format, hsl_a) == color_text(b, format, hsl_b) {
        match format {
            ColorFormat::Hex => hex_text_identifies_the_colour(a, b),
            ColorFormat::Rgb => rgb_text_identifies_the_colour(a, b),
            ColorFormat::CssRgb => css_rgb_text_identifies_the_colour(a, b),
            ColorFormat::Hsl => {},
        }
    }
}

} // verus!
