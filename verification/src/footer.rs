//! The magnifier's information bar: its texts, and their places for the text
//! sizes that were measured.
use crate::arith::{greater, lesser, max_i32, min_i32, quotient};
use crate::color::{color_ref_of_hex, Rgb8};
use crate::drawing::{OverlayFont, OverlayText, Palette};
use crate::format::{format_hex, hex_text};
use crate::geometry::Rect;
use crate::magnifier::footer_height;
use crate::text::{
    decimal_text, decimal_texts_read_back, natural_text, natural_texts_read_back,
    plain_texts_keep_their_characters, push_decimal, push_natural, utf16, wide, writes,
    writes_signed,
};
use crate::zoom::SourcePixel;
use vstd::prelude::*;
use vstd::string::*;

verus! {

/// The texts of the information bar, as native drawing takes them.
#[derive(Debug)]
pub struct Footer {
    pub rgb: Option<Rgb8>,
    pub hex: Vec<u16>,
    pub scale: Vec<u16>,
    pub coordinates: Vec<u16>,
    pub compact_coordinates: Vec<u16>,
}

/// The colour text; a dash where no pixel is hovered.
pub open spec fn hex_label(hover: Option<SourcePixel>) -> Seq<char> {
    match hover {
        Some(pixel) => hex_text(pixel.rgb),
        None => seq!['—'],
    }
}

/// A source coordinate; a dash where no pixel is hovered.
pub open spec fn coordinate_label(value: Option<i32>) -> Seq<char> {
    match value {
        Some(value) => decimal_text(value as int),
        None => seq!['—'],
    }
}

pub open spec fn hover_x(hover: Option<SourcePixel>) -> Option<i32> {
    match hover {
        Some(pixel) => Some(pixel.source.x),
        None => None,
    }
}

pub open spec fn hover_y(hover: Option<SourcePixel>) -> Option<i32> {
    match hover {
        Some(pixel) => Some(pixel.source.y),
        None => None,
    }
}

/// `X 12  Y 34`.
pub open spec fn coordinates_text(hover: Option<SourcePixel>) -> Seq<char> {
    "X "@ + coordinate_label(hover_x(hover)) + "  "@ + "Y "@ + coordinate_label(hover_y(hover))
}

/// `X12 Y34`.
pub open spec fn compact_coordinates_text(hover: Option<SourcePixel>) -> Seq<char> {
    "X"@ + coordinate_label(hover_x(hover)) + " "@ + "Y"@ + coordinate_label(hover_y(hover))
}

/// `4×`.
pub open spec fn scale_text(factor: u32) -> Seq<char> {
    natural_text(factor as nat) + "×"@
}

impl Footer {
    /// Whether the texts describe this hover at this scale.
    pub open spec fn describes(self, hover: Option<SourcePixel>, factor: u32) -> bool {
        &&& self.rgb == (match hover {
            Some(pixel) => Some(pixel.rgb),
            None => None,
        })
        &&& self.hex@ == utf16(hex_label(hover))
        &&& self.scale@ == utf16(scale_text(factor))
        &&& self.coordinates@ == utf16(coordinates_text(hover))
        &&& self.compact_coordinates@ == utf16(compact_coordinates_text(hover))
    }

    /// What a label of the bar shows.
    pub open spec fn shown_text(self, text: OverlayText) -> Seq<u16> {
        match text {
            OverlayText::Color => self.hex@,
            OverlayText::Scale => self.scale@,
            OverlayText::Coordinates => self.coordinates@,
            OverlayText::CompactCoordinates => self.compact_coordinates@,
        }
    }

    /// The text that a label of the bar shows.
    pub fn text(&self, text: OverlayText) -> (r: &Vec<u16>)
        ensures
            r@ == self.shown_text(text),
    {
        match text {
            OverlayText::Color => &self.hex,
            OverlayText::Scale => &self.scale,
            OverlayText::Coordinates => &self.coordinates,
            OverlayText::CompactCoordinates => &self.compact_coordinates,
        }
    }
}

fn push_coordinate(text: &mut String, value: Option<i32>)
    ensures
        final(text)@ == old(text)@ + coordinate_label(value),
{
    match value {
        Some(value) => push_decimal(text, value),
        None => {
            proof {
                reveal_strlit("—");
            }
            text.append("—");
            assert("—"@ =~= seq!['—']);
        },
    }
}

/// The texts for a hovered pixel, or for none.
pub fn footer_for(hover: Option<SourcePixel>, factor: u32) -> (r: Footer)
    ensures
        r.describes(hover, factor),
{
    let hex = match hover {
        Some(pixel) => format_hex(pixel.rgb),
        None => {
            proof {
                reveal_strlit("—");
                assert("—"@ =~= seq!['—']);
            }
            String::from_str("—")
        },
    };
    let rgb = match hover {
        Some(pixel) => Some(pixel.rgb),
        None => None,
    };
    let x: Option<i32> = match hover {
        Some(pixel) => Some(pixel.source.x),
        None => None,
    };
    let y: Option<i32> = match hover {
        Some(pixel) => Some(pixel.source.y),
        None => None,
    };
    let mut scale = String::new();
    push_natural(&mut scale, factor);
    scale.append("×");
    assert(scale@ =~= scale_text(factor));
    let mut coordinates = String::from_str("X ");
    push_coordinate(&mut coordinates, x);
    coordinates.append("  ");
    coordinates.append("Y ");
    push_coordinate(&mut coordinates, y);
    assert(coordinates@ =~= coordinates_text(hover));
    let mut compact = String::from_str("X");
    push_coordinate(&mut compact, x);
    compact.append(" ");
    compact.append("Y");
    push_coordinate(&mut compact, y);
    assert(compact@ =~= compact_coordinates_text(hover));
    Footer {
        rgb,
        hex: wide(hex.as_str()),
        scale: wide(scale.as_str()),
        coordinates: wide(coordinates.as_str()),
        compact_coordinates: wide(compact.as_str()),
    }
}

/// Size of a text in a font.
#[derive(Debug, Clone, Copy, PartialEq, Eq, Structural)]
pub struct TextSize {
    pub cx: i32,
    pub cy: i32,
}

/// The measured texts of one choice of fonts: the widest colour text, the
/// coordinates and the scale.
#[derive(Debug, Clone, Copy, PartialEq, Eq, Structural)]
pub struct FooterMeasure {
    pub hex: TextSize,
    pub position: TextSize,
    pub scale: TextSize,
}

/// Number of font choices, from the most readable to the smallest.
pub const FOOTER_CHOICES: usize = 4;

/// One text of the information bar.
#[derive(Debug, Clone, Copy, PartialEq, Eq, Structural)]
pub struct FooterLabel {
    pub rect: Rect,
    pub font: OverlayFont,
    pub color: u32,
    pub text: OverlayText,
    /// Whether the text is drawn at all.
    pub shown: bool,
}

/// A length that can be added to a few others without leaving 32 bits.
pub open spec fn moderate(value: int) -> bool {
    -0x0800_0000 <= value <= 0x0800_0000
}

pub open spec fn moderate_measure(measure: FooterMeasure) -> bool {
    &&& moderate(measure.hex.cx as int) && moderate(measure.hex.cy as int)
    &&& moderate(measure.position.cx as int) && moderate(measure.position.cy as int)
    &&& moderate(measure.scale.cx as int) && moderate(measure.scale.cy as int)
}

/// A width of two such texts side by side.
pub open spec fn fits_text_width(value: int) -> bool {
    -0x1000_0000 <= value <= 0x1000_0000
}

/// Width of the colour text and the coordinates in the smallest fonts.
pub open spec fn smallest_text_width(measures: Seq<FooterMeasure>) -> int {
    measures[3].hex.cx + measures[3].position.cx
}

pub fn smallest_width(measures: &[FooterMeasure; 4]) -> (r: i32)
    requires
        moderate_measure(measures@[3]),
    ensures
        r == smallest_text_width(measures@),
{
    measures[3].hex.cx + measures[3].position.cx
}

/// Width of the swatch: as wide as the bar is high, less on narrow snapshots, so
/// that the smallest texts still fit. `text_width` is their width.
pub open spec fn swatch_extent(width: int, dpi: u32, border: int, text_width: int) -> int {
    greater(
        lesser(
            lesser(footer_height(dpi) - border, quotient(width - border, 8)),
            width - border - text_width - 8,
        ),
        0,
    )
}

pub fn footer_swatch_width(width: i32, dpi: u32, border: i32, text_width: i32) -> (r: i32)
    requires
        moderate(width as int),
        moderate(border as int),
        fits_text_width(text_width as int),
        moderate(footer_height(dpi) as int),
    ensures
        r == swatch_extent(width as int, dpi, border as int, text_width as int),
{
    let remaining: i32 = width - border - text_width - 8;
    max_i32(min_i32(min_i32(footer_height(dpi) - border, (width - border) / 8), remaining), 0)
}

/// The first choice of fonts whose colour text and coordinates fit side by side;
/// the smallest is taken though it be clipped.
pub open spec fn footer_choice(measures: Seq<FooterMeasure>, available: int) -> int {
    if measures[0].hex.cx + 4 + measures[0].position.cx <= available {
        0
    } else if measures[1].hex.cx + 4 + measures[1].position.cx <= available {
        1
    } else if measures[2].hex.cx + 4 + measures[2].position.cx <= available {
        2
    } else {
        3
    }
}

pub open spec fn hex_font(choice: int) -> OverlayFont {
    if choice == 0 {
        OverlayFont::Heading
    } else if choice == 1 {
        OverlayFont::Body
    } else if choice == 2 {
        OverlayFont::Compact
    } else {
        OverlayFont::Narrow
    }
}

pub open spec fn info_font(choice: int) -> OverlayFont {
    if choice <= 1 {
        OverlayFont::Body
    } else if choice == 2 {
        OverlayFont::Compact
    } else {
        OverlayFont::Narrow
    }
}

/// The coordinates are written out only in the most readable fonts.
pub open spec fn position_text(choice: int) -> OverlayText {
    if choice == 0 {
        OverlayText::Coordinates
    } else {
        OverlayText::CompactCoordinates
    }
}

/// The fonts and the coordinates of one choice.
#[derive(Debug, Clone, Copy, PartialEq, Eq, Structural)]
pub struct FooterFonts {
    pub hex: OverlayFont,
    pub info: OverlayFont,
    pub position: OverlayText,
}

/// What is measured and shown for a choice: the colour text in the one font, the
/// coordinates and the scale in the other.
pub fn footer_fonts(choice: usize) -> (r: FooterFonts)
    ensures
        r.hex == hex_font(choice as int),
        r.info == info_font(choice as int),
        r.position == position_text(choice as int),
{
    match choice {
        0 => FooterFonts {
            hex: OverlayFont::Heading,
            info: OverlayFont::Body,
            position: OverlayText::Coordinates,
        },
        1 => FooterFonts {
            hex: OverlayFont::Body,
            info: OverlayFont::Body,
            position: OverlayText::CompactCoordinates,
        },
        2 => FooterFonts {
            hex: OverlayFont::Compact,
            info: OverlayFont::Compact,
            position: OverlayText::CompactCoordinates,
        },
        _ => FooterFonts {
            hex: OverlayFont::Narrow,
            info: OverlayFont::Narrow,
            position: OverlayText::CompactCoordinates,
        },
    }
}

/// The colour text that is measured for every colour, so that the other texts stay
/// where they are while the colour changes.
pub fn widest_hex() -> (r: Vec<u16>)
    ensures
        r@ == utf16("#DDDDDD"@),
{
    wide("#DDDDDD")
}

/// A text of the given height, centred in the row and cut at `right`.
pub open spec fn footer_rect(from: int, to: int, height: int, right: int, row_height: int) -> Rect {
    Rect {
        left: lesser(from, right) as i32,
        top: greater(quotient(row_height - height, 2), 0) as i32,
        right: lesser(to, right) as i32,
        bottom: row_height as i32,
    }
}

/// The colour text at the left, the coordinates at the right and the scale
/// between them, where there is room for it.
pub open spec fn footer_places(
    width: int,
    dpi: u32,
    border: int,
    swatch: int,
    measures: Seq<FooterMeasure>,
) -> (FooterLabel, FooterLabel, FooterLabel) {
    let left = swatch + 2;
    let right = greater(width - border - 2, left);
    let available = right - left;
    let choice = footer_choice(measures, available);
    let hex = measures[choice].hex;
    let position = measures[choice].position;
    let scale = measures[choice].scale;
    let coordinate_left = greater(
        greater(right - position.cx, left),
        left + lesser(available, hex.cx + 4),
    );
    let row_height = greater(footer_height(dpi) - border, 0);
    (
        FooterLabel {
            rect: footer_rect(
                left,
                lesser(left + hex.cx, coordinate_left - 4),
                hex.cy as int,
                right,
                row_height,
            ),
            font: hex_font(choice),
            color: color_ref_of_hex(Palette::Text.hex()) as u32,
            text: OverlayText::Color,
            shown: true,
        },
        FooterLabel {
            rect: footer_rect(
                left + hex.cx + 4,
                coordinate_left - 4,
                scale.cy as int,
                right,
                row_height,
            ),
            font: info_font(choice),
            color: color_ref_of_hex(Palette::Accent.hex()) as u32,
            text: OverlayText::Scale,
            shown: hex.cx + position.cx + scale.cx + 12 <= available,
        },
        FooterLabel {
            rect: footer_rect(coordinate_left, right, position.cy as int, right, row_height),
            font: info_font(choice),
            color: color_ref_of_hex(Palette::Secondary.hex()) as u32,
            text: position_text(choice),
            shown: true,
        },
    )
}

fn place_label(from: i32, to: i32, height: i32, right: i32, row_height: i32) -> (r: Rect)
    requires
        -0x4000_0000 <= height <= 0x1000_0000,
        0 <= row_height <= 0x1000_0000,
    ensures
        r == footer_rect(from as int, to as int, height as int, right as int, row_height as int),
{
    Rect {
        left: min_i32(from, right),
        top: max_i32((row_height - height) / 2, 0),
        right: min_i32(to, right),
        bottom: row_height,
    }
}

fn choose_measure(measures: &[FooterMeasure; 4], available: i32) -> (r: usize)
    requires
        forall|i: int| 0 <= i < 4 ==> moderate_measure(#[trigger] measures@[i]),
    ensures
        r < 4,
        r == footer_choice(measures@, available as int),
{
    assert(moderate_measure(measures@[0]) && moderate_measure(measures@[1]) && moderate_measure(
        measures@[2],
    ));
    if measures[0].hex.cx + 4 + measures[0].position.cx <= available {
        0
    } else if measures[1].hex.cx + 4 + measures[1].position.cx <= available {
        1
    } else if measures[2].hex.cx + 4 + measures[2].position.cx <= available {
        2
    } else {
        3
    }
}

/// Places the texts of the information bar. `swatch` is the width of the swatch.
pub fn footer_labels(
    width: i32,
    dpi: u32,
    border: i32,
    swatch: i32,
    measures: &[FooterMeasure; 4],
) -> (r: (FooterLabel, FooterLabel, FooterLabel))
    requires
        moderate(width as int),
        moderate(border as int),
        moderate(swatch as int),
        moderate(footer_height(dpi) as int),
        forall|i: int| 0 <= i < 4 ==> moderate_measure(#[trigger] measures@[i]),
    ensures
        r == footer_places(width as int, dpi, border as int, swatch as int, measures@),
{
    let left: i32 = swatch + 2;
    let right: i32 = max_i32(width - border - 2, left);
    let available: i32 = right - left;
    let choice: usize = choose_measure(measures, available);
    let measure: FooterMeasure = measures[choice];
    assert(moderate_measure(measures@[choice as int]));
    let hex = measure.hex;
    let position = measure.position;
    let scale = measure.scale;
    let coordinate_left: i32 = max_i32(
        max_i32(right - position.cx, left),
        left + min_i32(available, hex.cx + 4),
    );
    let row_height: i32 = max_i32(footer_height(dpi) - border, 0);
    let fonts = footer_fonts(choice);
    (
        FooterLabel {
            rect: place_label(
                left,
                min_i32(left + hex.cx, coordinate_left - 4),
                hex.cy,
                right,
                row_height,
            ),
            font: fonts.hex,
            color: Palette::Text.color(),
            text: OverlayText::Color,
            shown: true,
        },
        FooterLabel {
            rect: place_label(
                left + hex.cx + 4,
                coordinate_left - 4,
                scale.cy,
                right,
                row_height,
            ),
            font: fonts.info,
            color: Palette::Accent.color(),
            text: OverlayText::Scale,
            shown: hex.cx + position.cx + scale.cx + 12 <= available,
        },
        FooterLabel {
            rect: place_label(coordinate_left, right, position.cy, right, row_height),
            font: fonts.info,
            color: Palette::Secondary.color(),
            text: fonts.position,
            shown: true,
        },
    )
}

/// The texts never overlap and never leave the bar: the colour text ends before
/// the coordinates begin, a shown scale lies between them, and nothing passes the
/// border. Where the colour text and the coordinates fit, both are complete.
pub proof fn footer_texts_keep_apart(
    width: int,
    dpi: u32,
    border: int,
    swatch: int,
    measures: Seq<FooterMeasure>,
)
    requires
        measures.len() == 4,
        moderate(width),
        0 <= border,
        moderate(border),
        0 <= swatch,
        moderate(swatch),
        moderate(footer_height(dpi) as int),
        forall|i: int| 0 <= i < 4 ==> moderate_measure(#[trigger] measures[i]),
        forall|i: int|
            0 <= i < 4 ==> (#[trigger] measures[i]).hex.cx >= 0 && measures[i].position.cx >= 0
                && measures[i].scale.cx >= 0,
        swatch + 4 <= width - border,
    ensures
        ({
            let (hex, scale, position) = footer_places(width, dpi, border, swatch, measures);
            let right = width - border - 2;
            let choice = footer_choice(measures, right - swatch - 2);
            &&& hex.rect.right < position.rect.left
            &&& scale.shown ==> hex.rect.right <= scale.rect.left && scale.rect.right
                < position.rect.left && scale.rect.right - scale.rect.left
                >= measures[choice].scale.cx
            &&& 0 <= hex.rect.left && position.rect.right <= width - border
            &&& hex.rect.bottom <= greater(footer_height(dpi) - border, 0)
            &&& measures[choice].hex.cx + 4 + measures[choice].position.cx <= right - swatch - 2
                ==> {
                &&& hex.rect.right - hex.rect.left == measures[choice].hex.cx
                &&& position.rect.right - position.rect.left >= measures[choice].position.cx
            }
        }),
{
    let choice = footer_choice(measures, width - border - 2 - swatch - 2);
    assert(moderate_measure(measures[choice]));
    assert(measures[choice].hex.cx >= 0);
}

/// The coordinates name the hovered pixel in both lengths: the column after `X`, the
/// row after `Y`. The two numbers are handed out.
pub proof fn coordinate_texts_name_the_pixel(pixel: SourcePixel) -> (parts: (Seq<char>, Seq<char>))
    ensures
        coordinates_text(Some(pixel)) == seq!['X', ' '] + parts.0 + seq![' ', ' ', 'Y', ' ']
            + parts.1,
        compact_coordinates_text(Some(pixel)) == seq!['X'] + parts.0 + seq![' ', 'Y'] + parts.1,
        writes_signed(parts.0, pixel.source.x as int),
        writes_signed(parts.1, pixel.source.y as int),
{
    reveal_strlit("X ");
    reveal_strlit("Y ");
    reveal_strlit("  ");
    reveal_strlit("X");
    reveal_strlit("Y");
    reveal_strlit(" ");
    let parts = (decimal_text(pixel.source.x as int), decimal_text(pixel.source.y as int));
    decimal_texts_read_back(pixel.source.x as int, 0);
    decimal_texts_read_back(pixel.source.y as int, 0);
    assert(coordinates_text(Some(pixel)) =~= seq!['X', ' '] + parts.0 + seq![' ', ' ', 'Y', ' ']
        + parts.1);
    assert(compact_coordinates_text(Some(pixel)) =~= seq!['X'] + parts.0 + seq![' ', 'Y']
        + parts.1);
    parts
}

/// The bar shows the hovered pixel's own colour, swatch and text, and the factor as
/// a number before a multiplication sign; without a pixel it shows a dash and no
/// colour. The factor's digits are handed out.
pub proof fn bars_show_the_hovered_pixel(
    footer: Footer,
    hover: Option<SourcePixel>,
    factor: u32,
) -> (digits: Seq<char>)
    requires
        footer.describes(hover, factor),
    ensures
        writes(digits, factor as int),
        footer.shown_text(OverlayText::Scale) == utf16(digits + seq!['×']),
        hover matches Some(pixel) ==> {
            &&& footer.rgb == Some(pixel.rgb)
            &&& footer.shown_text(OverlayText::Color) == utf16(hex_text(pixel.rgb))
            &&& footer.shown_text(OverlayText::Coordinates) == utf16(coordinates_text(Some(pixel)))
            &&& footer.shown_text(OverlayText::CompactCoordinates) == utf16(
                compact_coordinates_text(Some(pixel)),
            )
        },
        hover is None ==> footer.rgb is None && footer.shown_text(OverlayText::Color) == seq![
            0x2014u16,
        ],
{
    reveal_strlit("×");
    natural_texts_read_back(factor as nat);
    let digits = natural_text(factor as nat);
    assert("×"@ =~= seq!['×']);
    let dash = seq!['—'];
    plain_texts_keep_their_characters(dash);
    assert(utf16(dash) =~= seq![0x2014u16]);
    digits
}

/// Whether the colour text and the coordinates of a choice of fonts fit side by
/// side, four pixels apart.
pub open spec fn texts_fit(measure: FooterMeasure, available: int) -> bool {
    measure.hex.cx + 4 + measure.position.cx <= available
}

/// The fonts are the most readable ones that fit: no earlier choice fits, and only
/// the last one is taken without fitting. More room never makes them smaller.
pub proof fn the_most_readable_fonts_are_taken(
    measures: Seq<FooterMeasure>,
    available: int,
    more: int,
    earlier: int,
)
    requires
        available <= more,
    ensures
        ({
            let choice = footer_choice(measures, available);
            &&& 0 <= choice < 4
            &&& 0 <= earlier < choice ==> !texts_fit(measures[earlier], available)
            &&& choice < 3 ==> texts_fit(measures[choice], available)
            &&& footer_choice(measures, more) <= choice
        }),
{
}

/// The swatch leaves room for the smallest texts, is no wider than the bar is high
/// and than an eighth of it, and is the widest that is all of this.
pub proof fn swatches_are_as_wide_as_allowed(
    width: int,
    dpi: u32,
    border: int,
    text_width: int,
    other: int,
)
    requires
        border <= width,
    ensures
        ({
            let swatch = swatch_extent(width, dpi, border, text_width);
            &&& swatch >= 0
            &&& swatch > 0 ==> swatch + border <= footer_height(dpi) && 8 * swatch + border
                <= width && border + swatch + text_width + 8 <= width
            &&& other + border <= footer_height(dpi) && 8 * other + border <= width && border
                + other + text_width + 8 <= width ==> other <= swatch
        }),
{
}

/// Whether a text of this height stands in the middle of a row, to the nearest
/// pixel.
pub open spec fn stands_in_the_middle(rect: Rect, height: int, row_height: int) -> bool {
    0 <= row_height - (rect.top + height) - rect.top <= 1
}

/// Where the texts fit, the colour begins right of the swatch, the coordinates end
/// left of the border, and both are as wide as measured; the scale is shown exactly
/// where it fits between them with four pixels to every side. Texts that are not
/// higher than the row stand in its middle.
pub proof fn footer_texts_stand_in_their_places(
    width: int,
    dpi: u32,
    border: int,
    swatch: int,
    measures: Seq<FooterMeasure>,
)
    requires
        measures.len() == 4,
        moderate(width),
        0 <= border,
        moderate(border),
        0 <= swatch,
        moderate(swatch),
        moderate(footer_height(dpi) as int),
        border <= footer_height(dpi),
        forall|i: int| 0 <= i < 4 ==> moderate_measure(#[trigger] measures[i]),
        forall|i: int|
            0 <= i < 4 ==> (#[trigger] measures[i]).hex.cx >= 0 && measures[i].position.cx >= 0
                && measures[i].scale.cx >= 0,
        swatch + 4 <= width - border,
        texts_fit(
            measures[footer_choice(measures, width - border - swatch - 4)],
            width - border - swatch - 4,
        ),
    ensures
        ({
            let (hex, scale, position) = footer_places(width, dpi, border, swatch, measures);
            let measure = measures[footer_choice(measures, width - border - swatch - 4)];
            let row = footer_height(dpi) - border;
            &&& hex.shown && position.shown
            &&& hex.rect.left == swatch + 2
            &&& hex.rect.right - hex.rect.left == measure.hex.cx
            &&& position.rect.right == width - border - 2
            &&& position.rect.right - position.rect.left == measure.position.cx
            &&& scale.shown <==> hex.rect.right + 4 + measure.scale.cx + 4 + 4
                <= position.rect.left
            &&& scale.shown ==> scale.rect.left == hex.rect.right + 4 && scale.rect.right
                == position.rect.left - 4
            &&& 0 <= measure.hex.cy <= row ==> stands_in_the_middle(
                hex.rect,
                measure.hex.cy as int,
                row,
            )
            &&& 0 <= measure.scale.cy <= row ==> stands_in_the_middle(
                scale.rect,
                measure.scale.cy as int,
                row,
            )
            &&& 0 <= measure.position.cy <= row ==> stands_in_the_middle(
                position.rect,
                measure.position.cy as int,
                row,
            )
            &&& hex.rect.bottom == row && scale.rect.bottom == row && position.rect.bottom == row
        }),
{
    let choice = footer_choice(measures, width - border - swatch - 4);
    assert(moderate_measure(measures[choice]));
    assert(measures[choice].hex.cx >= 0);
}

/// Every label shows its own text in its own colour: the colour in the text colour,
/// the scale in the accent colour and the coordinates in the secondary one. They are
/// written out exactly where the most readable fonts are taken, and the scale has
/// the font of the coordinates.
pub proof fn footer_labels_show_their_texts(
    width: int,
    dpi: u32,
    border: int,
    swatch: int,
    measures: Seq<FooterMeasure>,
)
    requires
        swatch + 4 <= width - border,
    ensures
        ({
            let (hex, scale, position) = footer_places(width, dpi, border, swatch, measures);
            let first = texts_fit(measures[0], width - border - swatch - 4);
            &&& hex.text == OverlayText::Color
            &&& scale.text == OverlayText::Scale
            &&& position.text == OverlayText::Coordinates <==> first
            &&& position.text == OverlayText::CompactCoordinates <==> !first
            &&& hex.color == color_ref_of_hex(Palette::Text.hex())
            &&& scale.color == color_ref_of_hex(Palette::Accent.hex())
            &&& position.color == color_ref_of_hex(Palette::Secondary.hex())
            &&& scale.font == position.font
            &&& hex.font == OverlayFont::Heading <==> first
            &&& hex.font != OverlayFont::Heading ==> hex.font == position.font
            &&& position.font != OverlayFont::Heading
        }),
{
}

/// Beside the swatch there is always room for the smallest texts, unless there would be
/// none without it.
pub proof fn swatches_leave_room_for_the_smallest_texts(
    width: int,
    dpi: u32,
    border: int,
    measures: Seq<FooterMeasure>,
)
    requires
        border <= width,
    ensures
        ({
            let swatch = swatch_extent(width, dpi, border, smallest_text_width(measures));
            let smallest = measures[3];
            &&& swatch > 0 ==> texts_fit(smallest, width - border - swatch - 4)
            &&& smallest_text_width(measures) == smallest.hex.cx + smallest.position.cx
        }),
{
}

} // verus!
