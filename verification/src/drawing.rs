//! What the live preview draws, and the measures that all overlays share.
use crate::arith::{fits_i32, greater, lesser, max_i32, min_i32, quotient};
use crate::color::{color_ref, color_ref_of_hex, rgb, Rgb8};
use crate::config::AppearanceConfig;
use crate::frost::{panel_fault, FrostedPanel};
use crate::geometry::Rect;
use crate::i18n::Language;
use crate::pixel_effects::tint;
use crate::zoom::SourceView;
use vstd::prelude::*;

verus! {

/// A length in device-independent pixels, in physical pixels: rounded to the
/// nearest, halves up.
pub open spec fn dip_px(value: int, dpi: int) -> int {
    quotient(value * dpi + 48, 96)
}

/// Scales a device-independent length to physical pixels. A length that does not
/// fit keeps its low 32 bits.
#[verifier::allow_in_spec]
pub fn dip(value: i32, dpi: u32) -> (r: i32)
    returns
        dip_px(value as int, dpi as int) as i32,
{
    proof {
        assert(-0x8000_0000 * 0xffff_ffff <= value * dpi <= 0x7fff_ffff * 0xffff_ffff)
            by (nonlinear_arith)
            requires
                -0x8000_0000 <= value <= 0x7fff_ffff,
                0 <= dpi <= 0xffff_ffff,
        ;
    }
    let wide: i64 = (value as i64 * dpi as i64 + 48) / 96;
    #[verifier::truncate]
    (wide as i32)
}

/// A longer length, or a finer display, never gives fewer pixels.
pub proof fn dip_is_monotone(a: int, b: int, dpi: int, finer: int)
    requires
        0 <= a <= b,
        0 <= dpi <= finer,
    ensures
        0 <= dip_px(a, dpi) <= dip_px(b, dpi),
        dip_px(a, dpi) <= dip_px(a, finer),
{
    assert(0 <= a * dpi <= b * dpi && a * dpi <= a * finer) by (nonlinear_arith)
        requires
            0 <= a <= b,
            0 <= dpi <= finer,
    ;
}

/// At 96 DPI one device-independent pixel is one physical pixel.
pub proof fn dip_is_identity_at_96(value: int)
    requires
        value >= 0,
    ensures
        dip_px(value, 96) == value,
{
}

/// Height that keeps the default footprint while reserving space for wider
/// bottom borders. The text keeps its baseline and readable area.
pub fn live_preview_height_dip(border_width_dip: u8) -> (r: i32)
    ensures
        r == preview_height_dip(border_width_dip),
{
    if border_width_dip > 2 {
        38 + (border_width_dip as i32 - 2)
    } else {
        38
    }
}

pub open spec fn preview_height_dip(border_width_dip: u8) -> int {
    if border_width_dip > 2 {
        36 + border_width_dip
    } else {
        38
    }
}

/// The sampling overlays deliberately stay dark, so they remain distinct from
/// both the sampled pixels and the normal result and settings windows.
#[derive(Debug, Clone, Copy, PartialEq, Eq, Structural)]
pub enum Palette {
    Background,
    Panel,
    Border,
    Text,
    Secondary,
    Accent,
    Empty,
}

impl Palette {
    /// The colour as it is usually written.
    pub open spec fn hex(self) -> int {
        match self {
            Palette::Background => 0x111827,
            Palette::Panel => 0x172033,
            Palette::Border => 0x334155,
            Palette::Text => 0xf8fafc,
            Palette::Secondary => 0xcbd5e1,
            Palette::Accent => 0x93c5fd,
            Palette::Empty => 0x475569,
        }
    }

    /// The native colour value.
    pub fn color(&self) -> (r: u32)
        ensures
            r == color_ref_of_hex(self.hex()),
    {
        match self {
            Palette::Background => rgb(0x111827),
            Palette::Panel => rgb(0x172033),
            Palette::Border => rgb(0x334155),
            Palette::Text => rgb(0xf8fafc),
            Palette::Secondary => rgb(0xcbd5e1),
            Palette::Accent => rgb(0x93c5fd),
            Palette::Empty => rgb(0x475569),
        }
    }
}

/// The tint that the backdrop effect mixes in is the panel colour.
pub proof fn backdrop_tint_is_the_panel_colour()
    ensures
        Palette::Panel.hex() == tint(2) * 0x10000
            + tint(1) * 0x100 + tint(0),
{
}

/// The colour of a swatch: the sample, or a neutral one where there is none.
pub open spec fn swatch_color(sample: Option<Rgb8>) -> int {
    match sample {
        Some(rgb) => color_ref(rgb.r as int, rgb.g as int, rgb.b as int),
        None => color_ref_of_hex(Palette::Empty.hex()),
    }
}

pub fn swatch(sample: Option<Rgb8>) -> (r: u32)
    ensures
        r == swatch_color(sample),
{
    match sample {
        Some(rgb) => rgb.to_color_ref(),
        None => Palette::Empty.color(),
    }
}

/// The font families of the overlays.
pub open spec fn overlay_face(language: Language) -> Seq<char> {
    match language {
        Language::SimplifiedChinese => "Microsoft YaHei UI"@,
        Language::English => "Segoe UI"@,
    }
}

/// A font as native creation takes it: a negative height asks for that character
/// height.
#[derive(Debug, Clone, Copy)]
pub struct FontRequest {
    pub height: i32,
    pub weight: i32,
    pub face: &'static str,
}

/// The font of an overlay text.
pub fn overlay_font(size: i32, weight: i32, dpi: u32, language: Language) -> (r: FontRequest)
    requires
        dip(size, dpi) > i32::MIN,
    ensures
        r.height == -dip(size, dpi),
        r.weight == weight,
        r.face@ == overlay_face(language),
{
    FontRequest {
        height: -dip(size, dpi),
        weight,
        face: match language {
            Language::SimplifiedChinese => "Microsoft YaHei UI",
            Language::English => "Segoe UI",
        },
    }
}

/// The cached fonts of an overlay.
#[derive(Debug, Clone, Copy, PartialEq, Eq, Structural)]
pub enum OverlayFont {
    Heading,
    Body,
    Compact,
    Narrow,
}

/// Size in pixels, weight and DPI of an overlay font. Edge-cropped snapshots can be
/// narrow even on fine displays: the two smallest fonts do not grow with them.
pub open spec fn overlay_font_size(font: OverlayFont, dpi: u32) -> (i32, i32, u32) {
    match font {
        OverlayFont::Heading => (13, 600, dpi),
        OverlayFont::Body => (10, 400, dpi),
        OverlayFont::Compact => (lesser(dip(8, dpi) as int, 12) as i32, 400, 96),
        OverlayFont::Narrow => (8, 400, 96),
    }
}

/// One of the overlay fonts on a display of this DPI.
pub fn overlay_font_for(font: OverlayFont, dpi: u32, language: Language) -> (r: FontRequest)
    requires
        dpi <= 9600,
    ensures
        ({
            let (size, weight, scale) = overlay_font_size(font, dpi);
            &&& r.height == -dip(size, scale)
            &&& r.weight == weight
            &&& r.face@ == overlay_face(language)
        }),
{
    proof {
        dip_is_monotone(13, 13, dpi as int, 9600);
        dip_is_monotone(10, 10, dpi as int, 9600);
        dip_is_monotone(8, 8, dpi as int, 9600);
    }
    match font {
        OverlayFont::Heading => overlay_font(13, 600, dpi, language),
        OverlayFont::Body => overlay_font(10, 400, dpi, language),
        OverlayFont::Compact => overlay_font(min_i32(dip(8, dpi), 12), 400, 96, language),
        OverlayFont::Narrow => overlay_font(8, 400, 96, language),
    }
}

/// The texts of an overlay.
#[derive(Debug, Clone, Copy, PartialEq, Eq, Structural)]
pub enum OverlayText {
    Color,
    Coordinates,
    CompactCoordinates,
    Scale,
}

/// One step of drawing into an overlay's buffer.
#[derive(Debug, Clone, Copy, PartialEq, Eq, Structural)]
pub enum DrawStep {
    /// Fill a rectangle with a native colour.
    Fill { rect: Rect, color: u32 },
    /// Paint the blurred backdrop; where that fails, fill with the colour.
    Backdrop { rect: Rect, fallback: u32 },
    /// Stretch snapshot rows to a rectangle, nearest neighbour. The bytes are those
    /// of the shown rows alone.
    Pixels { dest: Rect, source: SourceView, first_byte: usize, end_byte: usize },
    /// Draw a clipped text.
    Label { font: OverlayFont, rect: Rect, color: u32, text: OverlayText },
}

impl DrawStep {
    /// Whether a step can change a pixel.
    pub open spec fn covers(self, x: int, y: int) -> bool {
        match self {
            DrawStep::Fill { rect, .. } => rect.has(x, y),
            DrawStep::Backdrop { rect, .. } => rect.has(x, y),
            DrawStep::Pixels { dest, .. } => dest.has(x, y),
            DrawStep::Label { rect, .. } => rect.has(x, y),
        }
    }
}

/// The row or column of the source that stands at a distance from the edge of a
/// stretched extent.
pub open spec fn stretched(distance: int, source: int, dest: int) -> int {
    distance * source / dest
}

/// The colour that stretched rows of `width` BGRX pixels show at a point. The first
/// of the rows is the first one shown.
pub open spec fn stretched_color(
    dest: Rect,
    source: SourceView,
    rows: Seq<u8>,
    width: int,
    x: int,
    y: int,
) -> Rgb8 {
    let column = source.x + stretched(
        x - dest.left,
        source.width as int,
        dest.right - dest.left,
    );
    let row = stretched(y - dest.top, source.height as int, dest.bottom - dest.top);
    let first = (row * width + column) * 4;
    Rgb8 { r: rows[first + 2], g: rows[first + 1], b: rows[first] }
}

/// A fill of a rectangle that covers any pixel.
pub open spec fn fill_steps(rect: Rect, color: u32) -> Seq<DrawStep> {
    if rect.empty() {
        Seq::empty()
    } else {
        seq![DrawStep::Fill { rect, color }]
    }
}

/// Appends a fill where it covers any pixel.
pub fn push_fill(steps: &mut Vec<DrawStep>, rect: Rect, color: u32)
    ensures
        final(steps)@ == old(steps)@ + fill_steps(rect, color),
{
    if !rect.is_empty() {
        steps.push(DrawStep::Fill { rect, color });
    }
    assert(steps@ =~= old(steps)@ + fill_steps(rect, color));
}

/// Whether a text draws anything: it needs a character and a place.
pub open spec fn text_shows(rect: Rect, length: int) -> bool {
    !rect.empty() && length > 0
}

/// Appends a text step where it draws anything.
pub fn push_label(
    steps: &mut Vec<DrawStep>,
    font: OverlayFont,
    rect: Rect,
    color: u32,
    text: OverlayText,
    length: usize,
)
    ensures
        final(steps)@ == old(steps)@ + label_steps(font, rect, color, text, length as int),
{
    if !rect.is_empty() && length > 0 {
        steps.push(DrawStep::Label { font, rect, color, text });
    }
    assert(steps@ =~= old(steps)@ + label_steps(font, rect, color, text, length as int));
}

pub open spec fn label_steps(
    font: OverlayFont,
    rect: Rect,
    color: u32,
    text: OverlayText,
    length: int,
) -> Seq<DrawStep> {
    if text_shows(rect, length) {
        seq![DrawStep::Label { font, rect, color, text }]
    } else {
        Seq::empty()
    }
}

/// Thickness of the right and bottom border: at least one pixel where there is
/// one, and never more than the window.
pub open spec fn border_px(width: int, height: int, dpi: u32, width_dip: u8) -> int {
    if width_dip == 0 || width <= 0 || height <= 0 {
        0
    } else {
        lesser(lesser(greater(dip(width_dip as i32, dpi) as int, 1), width), height)
    }
}

pub fn border_thickness(width: i32, height: i32, dpi: u32, width_dip: u8) -> (r: i32)
    ensures
        r == border_px(width as int, height as int, dpi, width_dip),
{
    if width_dip == 0 || width <= 0 || height <= 0 {
        0
    } else {
        min_i32(min_i32(max_i32(dip(width_dip as i32, dpi), 1), width), height)
    }
}

/// The bottom edge and the right edge of the border, inside the window bounds.
/// The top and left stay open.
pub open spec fn border_edges(width: i32, height: i32, dpi: u32, width_dip: u8) -> Option<(Rect, Rect)> {
    let thickness = border_px(width as int, height as int, dpi, width_dip);
    if thickness == 0 {
        None
    } else {
        Some(
            (
                Rect { left: 0, top: (height - thickness) as i32, right: width, bottom: height },
                Rect { left: (width - thickness) as i32, top: 0, right: width, bottom: height },
            ),
        )
    }
}

pub fn bottom_right_border(width: i32, height: i32, dpi: u32, width_dip: u8) -> (r: Option<(Rect, Rect)>)
    ensures
        r == border_edges(width, height, dpi, width_dip),
{
    let thickness: i32 = border_thickness(width, height, dpi, width_dip);
    if thickness == 0 {
        return None;
    }
    Some(
        (
            Rect { left: 0, top: height - thickness, right: width, bottom: height },
            Rect { left: width - thickness, top: 0, right: width, bottom: height },
        ),
    )
}

pub open spec fn border_steps(width: i32, height: i32, dpi: u32, width_dip: u8) -> Seq<DrawStep> {
    let color = color_ref_of_hex(Palette::Border.hex()) as u32;
    match border_edges(width, height, dpi, width_dip) {
        Some((bottom, right)) => seq![
            DrawStep::Fill { rect: bottom, color },
            DrawStep::Fill { rect: right, color },
        ],
        None => Seq::empty(),
    }
}

/// Appends the border of an overlay.
pub fn push_border(steps: &mut Vec<DrawStep>, width: i32, height: i32, dpi: u32, width_dip: u8)
    ensures
        final(steps)@ == old(steps)@ + border_steps(width, height, dpi, width_dip),
{
    if let Some((bottom, right)) = bottom_right_border(width, height, dpi, width_dip) {
        steps.push(DrawStep::Fill { rect: bottom, color: Palette::Border.color() });
        steps.push(DrawStep::Fill { rect: right, color: Palette::Border.color() });
    }
    assert(steps@ =~= old(steps)@ + border_steps(width, height, dpi, width_dip));
}

/// The border lies inside the window, and a border of zero width is not drawn.
pub proof fn borders_stay_inside(width: i32, height: i32, dpi: u32, width_dip: u8)
    ensures
        width_dip == 0 ==> border_edges(width, height, dpi, width_dip) is None,
        border_edges(width, height, dpi, width_dip) matches Some((bottom, right)) ==> {
            let window = Rect { left: 0, top: 0, right: width, bottom: height };
            bottom.inside(window) && right.inside(window) && !bottom.empty() && !right.empty()
        },
{
}

/// A wider bottom border takes its own room: whatever its width, the rows above
/// 36 device-independent pixels stay free, up to one pixel of rounding.
pub proof fn wide_borders_reserve_their_own_room(dpi: u32, width_dip: u8, width: int)
    requires
        96 <= dpi <= 9600,
        width_dip <= 6,
        width > 0,
    ensures
        ({
            let height = dip_px(preview_height_dip(width_dip), dpi as int);
            height - border_px(width, height, dpi, width_dip) >= dip_px(36, dpi as int) - 1
        }),
{
    let b = width_dip as int;
    let d = dpi as int;
    assert((36 + b) * d == 36 * d + b * d) by (nonlinear_arith);
    assert(0 <= b * d <= 6 * 9600) by (nonlinear_arith)
        requires
            0 <= b <= 6,
            0 <= d <= 9600,
    ;
    assert(b >= 1 ==> b * d >= d) by (nonlinear_arith)
        requires
            d >= 0,
    ;
    assert(b <= 2 ==> b * d <= 2 * d) by (nonlinear_arith)
        requires
            d >= 0,
    ;
}

/// The texts and the sample of the live preview.
#[derive(Debug)]
pub struct Content {
    pub rgb: Option<Rgb8>,
    pub color_text: Vec<u16>,
    pub coordinates: Vec<u16>,
}

impl Content {
    /// What a label of the preview shows; it has no scale and no short coordinates.
    pub open spec fn shown_text(self, text: OverlayText) -> Seq<u16> {
        match text {
            OverlayText::Color => self.color_text@,
            OverlayText::Coordinates => self.coordinates@,
            _ => Seq::empty(),
        }
    }

    /// The text that a label of the preview shows.
    pub fn text(&self, text: OverlayText) -> (r: &[u16])
        ensures
            r@ == self.shown_text(text),
    {
        match text {
            OverlayText::Color => self.color_text.as_slice(),
            OverlayText::Coordinates => self.coordinates.as_slice(),
            _ => &[],
        }
    }
}

/// The drawing surface of the live preview.
#[derive(Debug)]
pub struct Surface {
    pub width: i32,
    pub height: i32,
    pub dpi: u32,
    pub appearance: AppearanceConfig,
    pub frost: Option<FrostedPanel>,
}

/// Scales every edge of a rectangle to physical pixels.
pub open spec fn scaled(rect: Rect, dpi: u32) -> Rect {
    Rect {
        left: dip(rect.left, dpi),
        top: dip(rect.top, dpi),
        right: dip(rect.right, dpi),
        bottom: dip(rect.bottom, dpi),
    }
}

pub fn scale_rect(rect: Rect, dpi: u32) -> (r: Rect)
    ensures
        r == scaled(rect, dpi),
{
    Rect {
        left: dip(rect.left, dpi),
        top: dip(rect.top, dpi),
        right: dip(rect.right, dpi),
        bottom: dip(rect.bottom, dpi),
    }
}

/// Everything that the live preview draws, in order: an opaque base, the backdrop
/// right of the swatch, the swatch flush to the window edges, two lines of text,
/// and the border.
pub open spec fn preview_steps(
    width: i32,
    height: i32,
    dpi: u32,
    border_width_dip: u8,
    frosted: bool,
    content: Content,
) -> Seq<DrawStep> {
    let panel = color_ref_of_hex(Palette::Panel.hex()) as u32;
    seq![DrawStep::Fill { rect: Rect { left: 0, top: 0, right: width, bottom: height }, color: panel }]
        + (if frosted {
        seq![
            DrawStep::Backdrop {
                rect: Rect { left: dip(38, dpi), top: 0, right: width, bottom: height },
                fallback: panel,
            },
        ]
    } else {
        Seq::empty()
    }) + seq![
        DrawStep::Fill {
            rect: Rect { left: 0, top: 0, right: dip(38, dpi), bottom: height },
            color: swatch_color(content.rgb) as u32,
        },
    ] + label_steps(
        OverlayFont::Heading,
        scaled(Rect { left: 44, top: 2, right: 164, bottom: 21 }, dpi),
        color_ref_of_hex(Palette::Text.hex()) as u32,
        OverlayText::Color,
        content.color_text@.len() as int,
    ) + label_steps(
        OverlayFont::Body,
        scaled(Rect { left: 44, top: 21, right: 164, bottom: 37 }, dpi),
        color_ref_of_hex(Palette::Secondary.hex()) as u32,
        OverlayText::Coordinates,
        content.coordinates@.len() as int,
    ) + border_steps(width, height, dpi, border_width_dip)
}

impl Surface {
    /// What a new surface of this size holds. The backdrop lies right of the
    /// swatch.
    pub open spec fn made_for(
        &self,
        width: int,
        height: int,
        dpi: u32,
        capture_excluded: bool,
        appearance: AppearanceConfig,
    ) -> bool {
        let transparency = appearance.background_transparency_percent;
        &&& self.width == width
        &&& self.height == height
        &&& self.dpi == dpi
        &&& self.appearance == appearance
        &&& self.frost is Some <==> capture_excluded && transparency != 0 && panel_fault(
            width - dip(38, dpi),
            height,
            transparency,
        ) is None
        &&& self.frost matches Some(panel) ==> panel.wf() && panel.ready_for() is None
            && panel.made_for(width - dip(38, dpi), height, dip(8, dpi) as int, transparency)
    }

    /// A surface of this size. The backdrop is used only where the overlay is
    /// excluded from captures and its background is not opaque; a backdrop that
    /// cannot be made leaves the plain panel.
    pub fn new(
        width: i32,
        height: i32,
        dpi: u32,
        capture_excluded: bool,
        appearance: AppearanceConfig,
    ) -> (r: Self)
        requires
            fits_i32(width - dip(38, dpi)),
        ensures
            r.made_for(width as int, height as int, dpi, capture_excluded, appearance),
    {
        let frost = if capture_excluded && appearance.background_transparency_percent != 0 {
            match FrostedPanel::new(
                width - dip(38, dpi),
                height,
                dip(8, dpi),
                appearance.background_transparency_percent,
            ) {
                Ok(panel) => Some(panel),
                Err(_) => None,
            }
        } else {
            None
        };
        Surface { width, height, dpi, appearance, frost }
    }

    /// The steps that draw the preview.
    pub fn draw(&self, content: &Content) -> (r: Vec<DrawStep>)
        ensures
            r@ == preview_steps(
                self.width,
                self.height,
                self.dpi,
                self.appearance.border_width_dip,
                self.frost is Some,
                *content,
            ),
    {
        let mut steps: Vec<DrawStep> = Vec::new();
        let rect = Rect { left: 0, top: 0, right: self.width, bottom: self.height };
        steps.push(DrawStep::Fill { rect, color: Palette::Panel.color() });
        if self.frost.is_some() {
            steps.push(
                DrawStep::Backdrop {
                    rect: Rect {
                        left: dip(38, self.dpi),
                        top: 0,
                        right: self.width,
                        bottom: self.height,
                    },
                    fallback: Palette::Panel.color(),
                },
            );
        }
        // The swatch remains flush to the window edges, without inset padding.
        steps.push(
            DrawStep::Fill {
                rect: Rect { left: 0, top: 0, right: dip(38, self.dpi), bottom: self.height },
                color: swatch(content.rgb),
            },
        );
        push_label(
            &mut steps,
            OverlayFont::Heading,
            scale_rect(Rect { left: 44, top: 2, right: 164, bottom: 21 }, self.dpi),
            Palette::Text.color(),
            OverlayText::Color,
            content.color_text.len(),
        );
        push_label(
            &mut steps,
            OverlayFont::Body,
            scale_rect(Rect { left: 44, top: 21, right: 164, bottom: 37 }, self.dpi),
            Palette::Secondary.color(),
            OverlayText::Coordinates,
            content.coordinates.len(),
        );
        push_border(
            &mut steps,
            self.width,
            self.height,
            self.dpi,
            self.appearance.border_width_dip,
        );
        assert(steps@ =~= preview_steps(
            self.width,
            self.height,
            self.dpi,
            self.appearance.border_width_dip,
            self.frost is Some,
            *content,
        ));
        steps
    }
}

/// Whether selecting a native drawing object failed: a null or an all-ones
/// handle came back.
pub fn invalid_selection(object: isize) -> (r: bool)
    ensures
        r == (object == 0 || object == -1),
{
    object == 0 || object == -1
}

/// A length is scaled to the nearest pixel: a device-independent pixel is a 96th of
/// an inch.
pub proof fn lengths_scale_to_the_nearest_pixel(value: int, dpi: int)
    requires
        value >= 0,
        dpi >= 0,
    ensures
        -48 <= value * dpi - 96 * dip_px(value, dpi) < 48,
{
    assert(value * dpi >= 0) by (nonlinear_arith)
        requires
            value >= 0,
            dpi >= 0,
    ;
}

/// The live preview is 38 device-independent pixels high; every pixel of border
/// beyond the second makes it one higher.
pub proof fn wider_borders_add_their_width(border_width_dip: u8)
    ensures
        border_width_dip <= 2 ==> preview_height_dip(border_width_dip) == 38,
        border_width_dip > 2 ==> preview_height_dip(border_width_dip) - 38 == border_width_dip - 2,
{
}

/// A border of some width is at least one pixel thick and never thicker than the
/// window. Where the window has room it is as thick as asked, to the nearest pixel.
pub proof fn borders_are_as_thick_as_asked(width: int, height: int, dpi: u32, width_dip: u8)
    requires
        width > 0,
        height > 0,
        0 < dpi <= 9600,
    ensures
        ({
            let thickness = border_px(width, height, dpi, width_dip);
            &&& thickness == 0 <==> width_dip == 0
            &&& width_dip > 0 ==> 1 <= thickness && thickness <= width && thickness <= height
            &&& 1 < thickness && thickness < width && thickness < height ==> -48 <= width_dip * dpi
                - 96 * thickness < 48
            &&& thickness == 1 && 1 < width && 1 < height ==> width_dip * dpi < 144
            &&& width_dip > 0 && (thickness == width || thickness == height) && thickness > 1
                ==> 96 * thickness <= width_dip * dpi + 48
        }),
{
    lengths_scale_to_the_nearest_pixel(width_dip as int, dpi as int);
    assert(0 <= width_dip * dpi <= 255 * 9600) by (nonlinear_arith)
        requires
            0 <= width_dip <= 255,
            0 <= dpi <= 9600,
    ;
}

/// Whether any of the steps can change a pixel.
pub open spec fn touches(steps: Seq<DrawStep>, x: int, y: int) -> bool {
    exists|i: int| 0 <= i < steps.len() && (#[trigger] steps[i]).covers(x, y)
}

/// The border covers exactly the last columns and the last rows of the window, as
/// many as it is thick, and nothing else.
pub proof fn borders_cover_the_last_rows_and_columns(
    width: i32,
    height: i32,
    dpi: u32,
    width_dip: u8,
    x: int,
    y: int,
)
    requires
        0 <= x < width,
        0 <= y < height,
    ensures
        ({
            let thickness = border_px(width as int, height as int, dpi, width_dip);
            touches(border_steps(width, height, dpi, width_dip), x, y) <==> x >= width - thickness
                || y >= height - thickness
        }),
        forall|i: int|
            0 <= i < border_steps(width, height, dpi, width_dip).len() ==> #[trigger] border_steps(
                width,
                height,
                dpi,
                width_dip,
            )[i] is Fill && border_steps(width, height, dpi, width_dip)[i]->Fill_color
                == color_ref_of_hex(Palette::Border.hex()),
{
    let steps = border_steps(width, height, dpi, width_dip);
    let thickness = border_px(width as int, height as int, dpi, width_dip);
    if y >= height - thickness {
        assert(steps[0].covers(x, y));
    }
    if x >= width - thickness {
        assert(steps[1].covers(x, y));
    }
}

/// A fill or a text step is made exactly where it can change a pixel; a text also
/// needs a character.
pub proof fn steps_are_made_where_they_show(
    rect: Rect,
    color: u32,
    font: OverlayFont,
    text: OverlayText,
    length: int,
    x: int,
    y: int,
)
    ensures
        fill_steps(rect, color).len() == (if rect.empty() { 0nat } else { 1nat }),
        touches(fill_steps(rect, color), x, y) <==> rect.has(x, y),
        touches(label_steps(font, rect, color, text, length), x, y) <==> length > 0 && rect.has(
            x,
            y,
        ),
        length <= 0 ==> label_steps(font, rect, color, text, length).len() == 0,
        label_steps(font, rect, color, text, length).len() > 0 ==> label_steps(
            font,
            rect,
            color,
            text,
            length,
        ) == seq![DrawStep::Label { font, rect, color, text }],
{
    if rect.has(x, y) {
        assert(fill_steps(rect, color)[0].covers(x, y));
        if length > 0 {
            assert(label_steps(font, rect, color, text, length)[0].covers(x, y));
        }
    }
}

/// Whether the step at an index is the last one that can change a pixel, so that
/// its paint stays visible.
pub open spec fn decides(steps: Seq<DrawStep>, index: int, x: int, y: int) -> bool {
    &&& 0 <= index < steps.len()
    &&& steps[index].covers(x, y)
    &&& forall|j: int| index < j < steps.len() ==> !(#[trigger] steps[j]).covers(x, y)
}

/// Left of 38 device-independent pixels the live preview shows the sampled colour,
/// up to the border: nothing is drawn over it. The index of the fill is handed out.
pub proof fn previews_show_the_sample(
    width: i32,
    height: i32,
    dpi: u32,
    border_width_dip: u8,
    frosted: bool,
    content: Content,
    x: int,
    y: int,
) -> (index: int)
    requires
        0 < dpi <= 9600,
        0 <= x && 96 * x < 38 * dpi - 48,
        0 <= y,
        x < width - border_px(width as int, height as int, dpi, border_width_dip),
        y < height - border_px(width as int, height as int, dpi, border_width_dip),
    ensures
        ({
            let steps = preview_steps(width, height, dpi, border_width_dip, frosted, content);
            &&& decides(steps, index, x, y)
            &&& steps[index] is Fill
            &&& content.rgb matches Some(rgb) ==> steps[index]->Fill_color == color_ref(
                rgb.r as int,
                rgb.g as int,
                rgb.b as int,
            )
            &&& content.rgb is None ==> steps[index]->Fill_color == color_ref_of_hex(
                Palette::Empty.hex(),
            )
        }),
{
    let steps = preview_steps(width, height, dpi, border_width_dip, frosted, content);
    let index: int = if frosted { 2 } else { 1 };
    lengths_scale_to_the_nearest_pixel(38, dpi as int);
    dip_is_monotone(38, 44, dpi as int, 9600);
    let one = label_steps(
        OverlayFont::Heading,
        scaled(Rect { left: 44, top: 2, right: 164, bottom: 21 }, dpi),
        color_ref_of_hex(Palette::Text.hex()) as u32,
        OverlayText::Color,
        content.color_text@.len() as int,
    );
    let two = label_steps(
        OverlayFont::Body,
        scaled(Rect { left: 44, top: 21, right: 164, bottom: 37 }, dpi),
        color_ref_of_hex(Palette::Secondary.hex()) as u32,
        OverlayText::Coordinates,
        content.coordinates@.len() as int,
    );
    let border = border_steps(width, height, dpi, border_width_dip);
    let head = steps.take(index + 1);
    assert(steps =~= head + one + two + border);
    if content.rgb is Some {
        let rgb = content.rgb->0;
        assert(0 <= swatch_color(content.rgb) < 0x100_0000);
    }
    assert(steps[index].covers(x, y));
    assert forall|j: int| index < j < steps.len() implies !(#[trigger] steps[j]).covers(x, y) by {
        let k = j - (index + 1);
        if k < one.len() {
            assert(steps[j] == one[k]);
        } else if k < one.len() + two.len() {
            assert(steps[j] == two[k - one.len()]);
        } else {
            assert(steps[j] == border[k - one.len() - two.len()]);
        }
    }
    index
}

/// The two lines of the live preview stand right of the swatch, the colour above
/// the coordinates, in different colours, and both above the 37th row.
pub proof fn preview_texts_stand_beside_the_swatch(
    width: i32,
    height: i32,
    dpi: u32,
    border_width_dip: u8,
    frosted: bool,
    content: Content,
) -> (index: int)
    requires
        96 <= dpi <= 9600,
        content.color_text@.len() > 0,
        content.coordinates@.len() > 0,
    ensures
        ({
            let steps = preview_steps(width, height, dpi, border_width_dip, frosted, content);
            &&& 0 <= index && index + 1 < steps.len()
            &&& steps[index] is Label && steps[index + 1] is Label
            &&& steps[index]->Label_text == OverlayText::Color
            &&& steps[index + 1]->Label_text == OverlayText::Coordinates
            &&& steps[index]->Label_font == OverlayFont::Heading
            &&& steps[index + 1]->Label_font == OverlayFont::Body
            &&& steps[index]->Label_color == color_ref_of_hex(Palette::Text.hex())
            &&& steps[index + 1]->Label_color == color_ref_of_hex(Palette::Secondary.hex())
            &&& ({
                let (upper, lower) = (steps[index]->Label_rect, steps[index + 1]->Label_rect);
                &&& upper.bottom == lower.top
                &&& upper.left == lower.left && upper.right == lower.right
                &&& -48 <= 44 * dpi - 96 * upper.left < 48
                &&& -48 <= 164 * dpi - 96 * upper.right < 48
                &&& -48 <= 2 * dpi - 96 * upper.top < 48
                &&& -48 <= 21 * dpi - 96 * upper.bottom < 48
                &&& -48 <= 37 * dpi - 96 * lower.bottom < 48
            })
        }),
{
    lengths_scale_to_the_nearest_pixel(44, dpi as int);
    lengths_scale_to_the_nearest_pixel(164, dpi as int);
    lengths_scale_to_the_nearest_pixel(2, dpi as int);
    lengths_scale_to_the_nearest_pixel(21, dpi as int);
    lengths_scale_to_the_nearest_pixel(37, dpi as int);
    if frosted {
        3
    } else {
        2
    }
}

/// Right of the swatch the preview paints the panel, or the backdrop where there is
/// one, under the texts and the border.
pub proof fn previews_have_a_panel(
    width: i32,
    height: i32,
    dpi: u32,
    border_width_dip: u8,
    frosted: bool,
    content: Content,
    x: int,
    y: int,
)
    requires
        0 < dpi <= 9600,
        0 <= x < width,
        0 <= y < height,
    ensures
        ({
            let steps = preview_steps(width, height, dpi, border_width_dip, frosted, content);
            let panel = color_ref_of_hex(Palette::Panel.hex());
            &&& steps[0] is Fill && steps[0]->Fill_color == panel && steps[0].covers(x, y)
            &&& frosted <==> steps[1] is Backdrop
            &&& frosted ==> steps[1]->fallback == panel && (96 * x >= 38 * dpi + 48
                ==> steps[1].covers(x, y)) && (96 * x < 38 * dpi - 48 ==> !steps[1].covers(x, y))
            &&& 96 * x >= 38 * dpi + 48 ==> !steps[if frosted { 2int } else { 1int }].covers(x, y)
        }),
{
    lengths_scale_to_the_nearest_pixel(38, dpi as int);
}

/// Every overlay font is at most as large as the one before it. The first two grow
/// with the display, the last two never pass twelve and eight pixels.
pub proof fn overlay_fonts_become_smaller(dpi: u32)
    requires
        96 <= dpi <= 9600,
    ensures
        ({
            let heading = overlay_font_size(OverlayFont::Heading, dpi);
            let body = overlay_font_size(OverlayFont::Body, dpi);
            let compact = overlay_font_size(OverlayFont::Compact, dpi);
            let narrow = overlay_font_size(OverlayFont::Narrow, dpi);
            &&& -48 <= 13 * dpi - 96 * dip(heading.0, heading.2) < 48
            &&& -48 <= 10 * dpi - 96 * dip(body.0, body.2) < 48
            &&& dip(compact.0, compact.2) <= 12
            &&& dip(compact.0, compact.2) < 12 ==> -48 <= 8 * dpi - 96 * dip(compact.0, compact.2)
                < 48
            &&& dip(compact.0, compact.2) == 12 ==> 8 * dpi >= 96 * 12 - 48
            &&& dip(narrow.0, narrow.2) == 8
            &&& dip(compact.0, compact.2) >= 8
            &&& heading.1 > body.1 && body.1 == compact.1 && compact.1 == narrow.1
        }),
{
    lengths_scale_to_the_nearest_pixel(13, dpi as int);
    lengths_scale_to_the_nearest_pixel(10, dpi as int);
    lengths_scale_to_the_nearest_pixel(8, dpi as int);
}

/// A backdrop is as large as the window right of the swatch, and there is one only
/// where the overlay is excluded from captures and transparent.
pub proof fn backdrops_lie_right_of_the_swatch(
    surface: Surface,
    width: int,
    height: int,
    dpi: u32,
    capture_excluded: bool,
    appearance: AppearanceConfig,
)
    requires
        surface.made_for(width, height, dpi, capture_excluded, appearance),
        0 < dpi <= 9600,
        width * height * 4 <= usize::MAX,
        96 * width >= 38 * dpi + 144,
        height > 0,
        appearance.background_transparency_percent <= 80,
    ensures
        surface.frost is Some <==> capture_excluded
            && appearance.background_transparency_percent > 0,
        surface.frost matches Some(panel) ==> {
            &&& -48 <= 38 * dpi - 96 * (width - panel.spec_width()) < 48
            &&& panel.spec_height() == height
            &&& panel.spec_transparency() == appearance.background_transparency_percent
            &&& panel.spec_radius() > 1 ==> -48 <= 8 * dpi - 96 * panel.spec_radius() < 48
        },
{
    lengths_scale_to_the_nearest_pixel(38, dpi as int);
    lengths_scale_to_the_nearest_pixel(8, dpi as int);
    let rest = width - dip(38, dpi);
    assert(rest * height <= width * height) by (nonlinear_arith)
        requires
            rest <= width,
            height > 0,
    ;
}

} // verus!
