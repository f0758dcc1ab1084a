//! Settings-only example: every background pixel is generated locally. It uses
//! the overlay's real blur, tint and border without reading the desktop.
use crate::arith::{fits_i32, quotient};
use crate::config::AppearanceConfig;
use crate::drawing::{
    border_steps, dip, dip_is_monotone, dip_px, label_steps, lengths_scale_to_the_nearest_pixel,
    preview_steps, push_border, push_label, scale_rect, scaled, Content, DrawStep, OverlayFont,
    OverlayText, Palette,
};
use crate::color::{color_ref_of_hex, Rgb8};
use crate::format::hex_text;
use crate::geometry::Rect;
use crate::pixel_effects::{
    blur_and_tint, byte_offset, column_of, effect_byte, effect_error, horizontal_pass,
    lemma_decode, lemma_offset_in_range, row_of, vertical_pass,
};
use vstd::prelude::*;

verus! {

/// Size of the example in device-independent pixels.
pub const WIDTH: i32 = 396;

pub const HEIGHT: i32 = 72;

/// Size of the overlay in the middle of the example. It leaves room below the
/// coordinate line even at the widest border.
pub const OVERLAY_WIDTH: i32 = 168;

pub const OVERLAY_HEIGHT: i32 = 44;

/// Width of the overlay's swatch.
pub const SWATCH_WIDTH: i32 = 38;

/// One byte of the checkered background: broad pastel tiles make the effect
/// visible without visual noise.
pub open spec fn tile_byte(x: int, y: int, tile: int, channel: int) -> u8 {
    let light = (x / tile + y / tile) % 2 == 0;
    if channel == 0 {
        if light {
            239
        } else {
            220
        }
    } else if channel == 1 {
        if light {
            225
        } else {
            204
        }
    } else if channel == 2 {
        if light {
            199
        } else {
            163
        }
    } else {
        255
    }
}

/// One byte of the example's sampled colour, in BGRX order.
pub open spec fn swatch_byte(channel: int) -> u8 {
    if channel == 0 {
        0xc6
    } else if channel == 1 {
        0xa7
    } else if channel == 2 {
        0x49
    } else {
        255
    }
}

/// The measures of the example in physical pixels.
#[derive(Debug, Clone, Copy, PartialEq, Eq, Structural)]
pub struct ExampleMetrics {
    pub width: usize,
    pub height: usize,
    pub tile: usize,
    pub left: usize,
    pub top: usize,
    pub overlay_width: usize,
    pub overlay_height: usize,
    pub swatch_width: usize,
    pub radius: usize,
}

impl ExampleMetrics {
    pub open spec fn panel_width(&self) -> int {
        self.overlay_width - self.swatch_width
    }

    /// The overlay lies inside the example, and everything has a representable size.
    pub open spec fn wf(&self) -> bool {
        &&& self.tile >= 1
        &&& self.radius >= 1
        &&& self.swatch_width <= self.overlay_width
        &&& self.left + self.overlay_width <= self.width <= 39600
        &&& self.top + self.overlay_height <= self.height <= 7200
    }

    /// Whether a pixel belongs to the information panel.
    pub open spec fn in_panel(&self, x: int, y: int) -> bool {
        self.left + self.swatch_width <= x < self.left + self.overlay_width && self.top <= y
            < self.top + self.overlay_height
    }

    /// Whether a pixel belongs to the swatch.
    pub open spec fn in_swatch(&self, x: int, y: int) -> bool {
        self.left <= x < self.left + self.swatch_width && self.top <= y < self.top
            + self.overlay_height
    }
}

/// The measures for a DPI.
pub open spec fn example_metrics(dpi: u32) -> ExampleMetrics {
    let d = dpi as int;
    ExampleMetrics {
        width: dip_px(WIDTH as int, d) as usize,
        height: dip_px(HEIGHT as int, d) as usize,
        tile: (if dip_px(24, d) > 1 {
            dip_px(24, d)
        } else {
            1
        }) as usize,
        left: ((dip_px(WIDTH as int, d) - dip_px(OVERLAY_WIDTH as int, d)) / 2) as usize,
        top: ((dip_px(HEIGHT as int, d) - dip_px(OVERLAY_HEIGHT as int, d)) / 2) as usize,
        overlay_width: dip_px(OVERLAY_WIDTH as int, d) as usize,
        overlay_height: dip_px(OVERLAY_HEIGHT as int, d) as usize,
        swatch_width: dip_px(SWATCH_WIDTH as int, d) as usize,
        radius: (if dip_px(8, d) > 1 {
            dip_px(8, d)
        } else {
            1
        }) as usize,
    }
}

/// The background behind the information panel.
pub open spec fn panel_source(metrics: ExampleMetrics) -> Seq<u8> {
    let width = metrics.panel_width();
    Seq::new(
        (width * metrics.overlay_height * 4) as nat,
        |i: int|
            tile_byte(
                metrics.left + metrics.swatch_width + column_of(i, width),
                metrics.top + row_of(i, width),
                metrics.tile as int,
                i % 4,
            ),
    )
}

/// The information panel after blur and tint. A panel without pixels stays as it
/// is.
pub open spec fn panel_pixels(metrics: ExampleMetrics, transparency: u8) -> Seq<u8> {
    let source = panel_source(metrics);
    let zeros = Seq::new(source.len(), |i: int| 0u8);
    let width = metrics.panel_width();
    if effect_error(
        source.len() as int,
        source.len() as int,
        width,
        metrics.overlay_height as int,
        metrics.radius as int,
        transparency as int,
    ) is None {
        vertical_pass(
            horizontal_pass(source, zeros, width, metrics.radius as int),
            source,
            width,
            metrics.overlay_height as int,
            metrics.radius as int,
            transparency as int,
        )
    } else {
        source
    }
}

/// One byte of the example.
pub open spec fn example_byte(metrics: ExampleMetrics, panel: Seq<u8>, x: int, y: int, channel: int) -> u8 {
    if metrics.in_swatch(x, y) {
        swatch_byte(channel)
    } else if metrics.in_panel(x, y) {
        panel[byte_offset(
            x - metrics.left - metrics.swatch_width,
            y - metrics.top,
            metrics.panel_width(),
            channel,
        )]
    } else {
        tile_byte(x, y, metrics.tile as int, channel)
    }
}

/// All bytes of the example.
pub open spec fn example_image(metrics: ExampleMetrics, transparency: u8) -> Seq<u8> {
    Seq::new(
        (metrics.width * metrics.height * 4) as nat,
        |i: int|
            example_byte(
                metrics,
                panel_pixels(metrics, transparency),
                column_of(i, metrics.width as int),
                row_of(i, metrics.width as int),
                i % 4,
            ),
    )
}

fn metrics_for(dpi: u32) -> (r: ExampleMetrics)
    requires
        dpi <= 9600,
    ensures
        r == example_metrics(dpi),
        r.wf(),
{
    proof {
        dip_is_monotone(0, 396, dpi as int, 9600);
        dip_is_monotone(396, 396, dpi as int, 9600);
        dip_is_monotone(72, 396, dpi as int, 9600);
        dip_is_monotone(168, 396, dpi as int, 9600);
        dip_is_monotone(44, 72, dpi as int, 9600);
        dip_is_monotone(38, 168, dpi as int, 9600);
        dip_is_monotone(0, 24, dpi as int, 9600);
        dip_is_monotone(0, 8, dpi as int, 9600);
        dip_is_monotone(24, 168, dpi as int, 9600);
        dip_is_monotone(8, 168, dpi as int, 9600);
    }
    let width: usize = dip(WIDTH, dpi) as usize;
    let height: usize = dip(HEIGHT, dpi) as usize;
    let overlay_width: usize = dip(OVERLAY_WIDTH, dpi) as usize;
    let overlay_height: usize = dip(OVERLAY_HEIGHT, dpi) as usize;
    let tile: i32 = dip(24, dpi);
    let radius: i32 = dip(8, dpi);
    ExampleMetrics {
        width,
        height,
        tile: if tile > 1 {
            tile as usize
        } else {
            1
        },
        left: (width - overlay_width) / 2,
        top: (height - overlay_height) / 2,
        overlay_width,
        overlay_height,
        swatch_width: dip(SWATCH_WIDTH, dpi) as usize,
        radius: if radius > 1 {
            radius as usize
        } else {
            1
        },
    }
}

fn tile_at(x: usize, y: usize, tile: usize) -> (r: [u8; 4])
    requires
        tile >= 1,
        x <= 39600,
        y <= 39600,
    ensures
        forall|c: int| 0 <= c < 4 ==> #[trigger] r@[c] == tile_byte(x as int, y as int, tile as int, c),
{
    proof {
        assert(0 <= x as int / tile as int <= x) by (nonlinear_arith)
            requires
                tile >= 1,
                x >= 0,
        ;
        assert(0 <= y as int / tile as int <= y) by (nonlinear_arith)
            requires
                tile >= 1,
                y >= 0,
        ;
    }
    if (x / tile + y / tile) % 2 == 0 {
        [239, 225, 199, 255]
    } else {
        [220, 204, 163, 255]
    }
}

/// Appends the four bytes of a pixel.
fn push_pixel(bytes: &mut Vec<u8>, pixel: [u8; 4])
    ensures
        final(bytes)@ == old(bytes)@ + pixel@,
{
    bytes.push(pixel[0]);
    bytes.push(pixel[1]);
    bytes.push(pixel[2]);
    bytes.push(pixel[3]);
    assert(bytes@ =~= old(bytes)@ + pixel@);
}

proof fn lemma_sizes(a: int, b: int)
    requires
        0 <= a <= 39600,
        0 <= b <= 7200,
    ensures
        0 <= a * b <= 39600 * 7200,
        0 <= a * b * 4 <= 39600 * 7200 * 4,
{
    assert(0 <= a * b <= 39600 * 7200) by (nonlinear_arith)
        requires
            0 <= a <= 39600,
            0 <= b <= 7200,
    ;
}

fn panel_background(metrics: ExampleMetrics) -> (r: Vec<u8>)
    requires
        metrics.wf(),
    ensures
        r@ == panel_source(metrics),
{
    let width: usize = metrics.overlay_width - metrics.swatch_width;
    let height: usize = metrics.overlay_height;
    let ghost w = width as int;
    let ghost h = height as int;
    let mut bytes: Vec<u8> = Vec::new();
    proof {
        assert(0 * w == 0) by (nonlinear_arith);
    }
    let mut y: usize = 0;
    while y < height
        invariant
            metrics.wf(),
            w == width,
            h == height,
            width == metrics.overlay_width - metrics.swatch_width,
            height == metrics.overlay_height,
            y <= height,
            bytes@.len() == y * w * 4,
            forall|i: int|
                0 <= i < bytes@.len() ==> #[trigger] bytes@[i] == tile_byte(
                    metrics.left + metrics.swatch_width + column_of(i, w),
                    metrics.top + row_of(i, w),
                    metrics.tile as int,
                    i % 4,
                ),
        decreases height - y,
    {
        let mut x: usize = 0;
        while x < width
            invariant
                metrics.wf(),
                w == width,
                h == height,
                width == metrics.overlay_width - metrics.swatch_width,
                height == metrics.overlay_height,
                y < height,
                x <= width,
                bytes@.len() == (y * w + x) * 4,
                forall|i: int|
                    0 <= i < bytes@.len() ==> #[trigger] bytes@[i] == tile_byte(
                        metrics.left + metrics.swatch_width + column_of(i, w),
                        metrics.top + row_of(i, w),
                        metrics.tile as int,
                        i % 4,
                    ),
            decreases width - x,
        {
            let pixel = tile_at(
                metrics.left + metrics.swatch_width + x,
                metrics.top + y,
                metrics.tile,
            );
            let ghost before = bytes@;
            push_pixel(&mut bytes, pixel);
            proof {
                lemma_decode(x as int, y as int, w, 0);
                lemma_decode(x as int, y as int, w, 1);
                lemma_decode(x as int, y as int, w, 2);
                lemma_decode(x as int, y as int, w, 3);
                let base = byte_offset(x as int, y as int, w, 0);
                assert forall|i: int| 0 <= i < bytes@.len() implies #[trigger] bytes@[i]
                    == tile_byte(
                    metrics.left + metrics.swatch_width + column_of(i, w),
                    metrics.top + row_of(i, w),
                    metrics.tile as int,
                    i % 4,
                ) by {
                    if i < base {
                        assert(bytes@[i] == before[i]);
                    } else {
                        let c = i - base;
                        assert(bytes@[i] == pixel@[c]);
                        assert(i == byte_offset(x as int, y as int, w, c));
                    }
                }
            }
            x = x + 1;
        }
        proof {
            assert((y + 1) * w == y * w + w) by (nonlinear_arith);
        }
        y = y + 1;
    }
    proof {
        assert(h * w == w * h) by (nonlinear_arith);
    }
    assert(bytes@ =~= panel_source(metrics));
    bytes
}

fn pixel_at(metrics: ExampleMetrics, panel: &Vec<u8>, x: usize, y: usize) -> (r: [u8; 4])
    requires
        metrics.wf(),
        x < metrics.width,
        y < metrics.height,
        panel@.len() == metrics.panel_width() * metrics.overlay_height * 4,
    ensures
        forall|c: int|
            0 <= c < 4 ==> #[trigger] r@[c] == example_byte(metrics, panel@, x as int, y as int, c),
{
    let in_rows = y >= metrics.top && y < metrics.top + metrics.overlay_height;
    if in_rows && x >= metrics.left && x < metrics.left + metrics.swatch_width {
        return [0xc6, 0xa7, 0x49, 255];
    }
    if in_rows && x >= metrics.left + metrics.swatch_width && x < metrics.left
        + metrics.overlay_width {
        let width: usize = metrics.overlay_width - metrics.swatch_width;
        let column: usize = x - metrics.left - metrics.swatch_width;
        let row: usize = y - metrics.top;
        proof {
            lemma_offset_in_range(
                column as int,
                row as int,
                width as int,
                metrics.overlay_height as int,
                0,
            );
            lemma_offset_in_range(
                column as int,
                row as int,
                width as int,
                metrics.overlay_height as int,
                3,
            );
            lemma_sizes(width as int, metrics.overlay_height as int);
        }
        let base: usize = (row * width + column) * 4;
        return [panel[base], panel[base + 1], panel[base + 2], panel[base + 3]];
    }
    tile_at(x, y, metrics.tile)
}

fn compose(metrics: ExampleMetrics, panel: &Vec<u8>) -> (r: Vec<u8>)
    requires
        metrics.wf(),
        panel@.len() == metrics.panel_width() * metrics.overlay_height * 4,
    ensures
        r@.len() == metrics.width * metrics.height * 4,
        forall|i: int|
            0 <= i < r@.len() ==> #[trigger] r@[i] == example_byte(
                metrics,
                panel@,
                column_of(i, metrics.width as int),
                row_of(i, metrics.width as int),
                i % 4,
            ),
{
    let ghost w = metrics.width as int;
    let mut bytes: Vec<u8> = Vec::new();
    proof {
        assert(0 * w == 0) by (nonlinear_arith);
    }
    let mut y: usize = 0;
    while y < metrics.height
        invariant
            metrics.wf(),
            w == metrics.width,
            panel@.len() == metrics.panel_width() * metrics.overlay_height * 4,
            y <= metrics.height,
            bytes@.len() == y * w * 4,
            forall|i: int|
                0 <= i < bytes@.len() ==> #[trigger] bytes@[i] == example_byte(
                    metrics,
                    panel@,
                    column_of(i, w),
                    row_of(i, w),
                    i % 4,
                ),
        decreases metrics.height - y,
    {
        let mut x: usize = 0;
        while x < metrics.width
            invariant
                metrics.wf(),
                w == metrics.width,
                panel@.len() == metrics.panel_width() * metrics.overlay_height * 4,
                y < metrics.height,
                x <= metrics.width,
                bytes@.len() == (y * w + x) * 4,
                forall|i: int|
                    0 <= i < bytes@.len() ==> #[trigger] bytes@[i] == example_byte(
                        metrics,
                        panel@,
                        column_of(i, w),
                        row_of(i, w),
                        i % 4,
                    ),
            decreases metrics.width - x,
        {
            let pixel = pixel_at(metrics, panel, x, y);
            let ghost before = bytes@;
            push_pixel(&mut bytes, pixel);
            proof {
                lemma_decode(x as int, y as int, w, 0);
                lemma_decode(x as int, y as int, w, 1);
                lemma_decode(x as int, y as int, w, 2);
                lemma_decode(x as int, y as int, w, 3);
                let base = byte_offset(x as int, y as int, w, 0);
                assert forall|i: int| 0 <= i < bytes@.len() implies #[trigger] bytes@[i]
                    == example_byte(metrics, panel@, column_of(i, w), row_of(i, w), i % 4) by {
                    if i < base {
                        assert(bytes@[i] == before[i]);
                    } else {
                        let c = i - base;
                        assert(bytes@[i] == pixel@[c]);
                        assert(i == byte_offset(x as int, y as int, w, c));
                    }
                }
            }
            x = x + 1;
        }
        proof {
            assert((y + 1) * w == y * w + w) by (nonlinear_arith);
        }
        y = y + 1;
    }
    proof {
        assert(metrics.height * w == w * metrics.height) by (nonlinear_arith);
    }
    bytes
}

/// The example for a DPI and a transparency, as top-down BGRX bytes.
pub fn example_pixels(dpi: u32, transparency: u8) -> (r: Vec<u8>)
    requires
        dpi <= 9600,
    ensures
        r@ == example_image(example_metrics(dpi), transparency),
{
    let metrics = metrics_for(dpi);
    let mut panel: Vec<u8> = panel_background(metrics);
    let mut scratch: Vec<u8> = vec![0; panel.len()];
    assert(scratch@ =~= Seq::new(panel@.len(), |i: int| 0u8));
    let width: usize = metrics.overlay_width - metrics.swatch_width;
    let _ = blur_and_tint(
        panel.as_mut_slice(),
        scratch.as_mut_slice(),
        width,
        metrics.overlay_height,
        metrics.radius,
        transparency,
    );
    assert(panel@ =~= panel_pixels(metrics, transparency));
    let pixels = compose(metrics, &panel);
    assert(pixels@ =~= example_image(metrics, transparency));
    pixels
}

/// Transparency changes nothing but the information panel: outside it, the
/// swatch included, every byte is the same for any two values.
pub proof fn transparency_only_changes_the_panel(dpi: u32, a: u8, b: u8, i: int)
    requires
        dpi <= 9600,
        0 <= i < example_image(example_metrics(dpi), a).len(),
        !example_metrics(dpi).in_panel(
            column_of(i, example_metrics(dpi).width as int),
            row_of(i, example_metrics(dpi).width as int),
        ),
    ensures
        example_image(example_metrics(dpi), a)[i] == example_image(example_metrics(dpi), b)[i],
{
}

/// The example as it is shown, with the values that it was made for.
#[derive(Debug)]
pub struct AppearancePreview {
    pub dpi: u32,
    pub appearance: AppearanceConfig,
    pub pixels: Vec<u8>,
}

/// The sample that the example pretends to show.
pub fn example_color_text() -> (r: &'static str)
    ensures
        r@ == "#49A7C6"@,
{
    "#49A7C6"
}

pub fn example_coordinates() -> (r: &'static str)
    ensures
        r@ == "X 1280  Y 720"@,
{
    "X 1280  Y 720"
}

/// What the overlay of the example draws over its pixels.
pub open spec fn example_steps(dpi: u32, border_width_dip: u8) -> Seq<DrawStep> {
    label_steps(
        OverlayFont::Heading,
        scaled(Rect { left: 44, top: 2, right: 164, bottom: 21 }, dpi),
        color_ref_of_hex(Palette::Text.hex()) as u32,
        OverlayText::Color,
        7,
    ) + label_steps(
        OverlayFont::Body,
        scaled(Rect { left: 44, top: 21, right: 164, bottom: 37 }, dpi),
        color_ref_of_hex(Palette::Secondary.hex()) as u32,
        OverlayText::Coordinates,
        13,
    ) + border_steps(
        dip(OVERLAY_WIDTH, dpi),
        dip(OVERLAY_HEIGHT, dpi),
        dpi,
        border_width_dip,
    )
}

impl AppearancePreview {
    pub open spec fn wf(&self) -> bool {
        &&& self.dpi <= 9600
        &&& self.pixels@ == example_image(
            example_metrics(self.dpi),
            self.appearance.background_transparency_percent,
        )
    }

    pub fn new(dpi: u32, appearance: AppearanceConfig) -> (r: Self)
        requires
            dpi <= 9600,
        ensures
            r.wf(),
            r.dpi == dpi,
            r.appearance == appearance,
    {
        AppearancePreview {
            dpi,
            appearance,
            pixels: example_pixels(dpi, appearance.background_transparency_percent),
        }
    }

    /// Whether the example still shows these values.
    pub fn matches(&self, dpi: u32, appearance: AppearanceConfig) -> (r: bool)
        ensures
            r == (self.dpi == dpi && self.appearance == appearance),
    {
        self.dpi == dpi && self.appearance == appearance
    }

    /// Origin of the overlay in a control at `bounds`: the middle of the example.
    pub fn overlay_origin(&self, bounds: Rect) -> (r: (i32, i32))
        requires
            self.wf(),
            fits_i32(bounds.left + 39600),
            fits_i32(bounds.top + 7200),
        ensures
            r.0 == bounds.left + quotient(
                dip_px(WIDTH as int, self.dpi as int) - dip_px(
                    OVERLAY_WIDTH as int,
                    self.dpi as int,
                ),
                2,
            ),
            r.1 == bounds.top + quotient(
                dip_px(HEIGHT as int, self.dpi as int) - dip_px(
                    OVERLAY_HEIGHT as int,
                    self.dpi as int,
                ),
                2,
            ),
    {
        let metrics = metrics_for(self.dpi);
        (bounds.left + metrics.left as i32, bounds.top + metrics.top as i32)
    }

    /// The steps that draw the overlay, relative to its origin.
    pub fn overlay_steps(&self) -> (r: Vec<DrawStep>)
        ensures
            r@ == example_steps(self.dpi, self.appearance.border_width_dip),
    {
        let mut steps: Vec<DrawStep> = Vec::new();
        push_label(
            &mut steps,
            OverlayFont::Heading,
            scale_rect(Rect { left: 44, top: 2, right: 164, bottom: 21 }, self.dpi),
            Palette::Text.color(),
            OverlayText::Color,
            7,
        );
        push_label(
            &mut steps,
            OverlayFont::Body,
            scale_rect(Rect { left: 44, top: 21, right: 164, bottom: 37 }, self.dpi),
            Palette::Secondary.color(),
            OverlayText::Coordinates,
            13,
        );
        push_border(
            &mut steps,
            dip(OVERLAY_WIDTH, self.dpi),
            dip(OVERLAY_HEIGHT, self.dpi),
            self.dpi,
            self.appearance.border_width_dip,
        );
        assert(steps@ =~= example_steps(self.dpi, self.appearance.border_width_dip));
        steps
    }
}

/// The example has its size, its tiles and its blur in device-independent pixels, to
/// the nearest physical one, and the overlay stands in its middle, up to one pixel.
pub proof fn examples_have_their_measures(dpi: u32)
    requires
        96 <= dpi <= 9600,
    ensures
        ({
            let m = example_metrics(dpi);
            &&& -48 <= 396 * dpi - 96 * m.width < 48
            &&& -48 <= 72 * dpi - 96 * m.height < 48
            &&& -48 <= 168 * dpi - 96 * m.overlay_width < 48
            &&& -48 <= 44 * dpi - 96 * m.overlay_height < 48
            &&& -48 <= 38 * dpi - 96 * m.swatch_width < 48
            &&& -48 <= 24 * dpi - 96 * m.tile < 48
            &&& -48 <= 8 * dpi - 96 * m.radius < 48
            &&& 0 <= (m.width - m.left - m.overlay_width) - m.left <= 1
            &&& 0 <= (m.height - m.top - m.overlay_height) - m.top <= 1
        }),
{
    let d = dpi as int;
    lengths_scale_to_the_nearest_pixel(396, d);
    lengths_scale_to_the_nearest_pixel(72, d);
    lengths_scale_to_the_nearest_pixel(168, d);
    lengths_scale_to_the_nearest_pixel(44, d);
    lengths_scale_to_the_nearest_pixel(38, d);
    lengths_scale_to_the_nearest_pixel(24, d);
    lengths_scale_to_the_nearest_pixel(8, d);
}

/// The background is a chessboard: one colour over every tile, the other one over the
/// tiles beside and below it, and the first again over the one across the corner.
pub proof fn tiles_alternate(x: int, y: int, other_x: int, other_y: int, tile: int, channel: int)
    requires
        tile >= 1,
        0 <= channel < 3,
    ensures
        x / tile == other_x / tile && y / tile == other_y / tile ==> tile_byte(
            x,
            y,
            tile,
            channel,
        ) == tile_byte(other_x, other_y, tile, channel),
        tile_byte(x + tile, y, tile, channel) != tile_byte(x, y, tile, channel),
        tile_byte(x, y + tile, tile, channel) != tile_byte(x, y, tile, channel),
        tile_byte(x + tile, y + tile, tile, channel) == tile_byte(x, y, tile, channel),
        tile_byte(0, 0, tile, channel) > tile_byte(tile, 0, tile, channel),
{
    assert((x + tile) / tile == x / tile + 1 && (y + tile) / tile == y / tile + 1)
        by (nonlinear_arith)
        requires
            tile >= 1,
    ;
    assert(0int / tile == 0 && tile / tile == 1) by (nonlinear_arith)
        requires
            tile >= 1,
    ;
}

/// The swatch shows the colour that the example's text names.
pub proof fn example_swatches_match_their_text()
    ensures
        hex_text(Rgb8 { r: swatch_byte(2), g: swatch_byte(1), b: swatch_byte(0) }) == "#49A7C6"@,
{
    reveal_strlit("#49A7C6");
    assert(hex_text(Rgb8 { r: swatch_byte(2), g: swatch_byte(1), b: swatch_byte(0) })
        =~= "#49A7C6"@);
}

/// The example shows the swatch where the overlay has it, the blurred and tinted
/// background where it has its panel, and the plain background everywhere else. What
/// is blurred is the very background that the panel covers.
pub proof fn examples_show_their_parts(
    dpi: u32,
    transparency: u8,
    x: int,
    y: int,
    channel: int,
)
    requires
        96 <= dpi <= 9600,
        transparency <= 100,
        0 <= channel < 4,
        ({
            let m = example_metrics(dpi);
            0 <= x < m.width && 0 <= y < m.height
        }),
    ensures
        ({
            let m = example_metrics(dpi);
            let shown = example_image(m, transparency)[byte_offset(
                x,
                y,
                m.width as int,
                channel,
            )];
            let (column, row) = (x - m.left, y - m.top);
            let over = 0 <= column < m.overlay_width && 0 <= row < m.overlay_height;
            let width = m.overlay_width - m.swatch_width;
            let at = byte_offset(column - m.swatch_width, row, width, channel);
            let source = panel_source(m);
            &&& !over ==> shown == tile_byte(x, y, m.tile as int, channel)
            &&& over && column < m.swatch_width ==> shown == swatch_byte(channel)
            &&& over && column >= m.swatch_width ==> {
                &&& source.len() == width * m.overlay_height * 4
                &&& 0 <= at < source.len()
                &&& source[at] == tile_byte(x, y, m.tile as int, channel)
                &&& shown == effect_byte(
                    source,
                    Seq::new(source.len(), |i: int| 0u8),
                    width,
                    m.overlay_height as int,
                    m.radius as int,
                    transparency as int,
                    at,
                )
            }
        }),
{
    examples_have_their_measures(dpi);
    let m = example_metrics(dpi);
    lemma_offset_in_range(x, y, m.width as int, m.height as int, channel);
    lemma_decode(x, y, m.width as int, channel);
    let width = m.panel_width();
    let source = panel_source(m);
    lemma_sizes(m.overlay_width as int, m.overlay_height as int);
    assert(width * m.overlay_height * 4 <= 39600 * 7200 * 4) by (nonlinear_arith)
        requires
            0 <= width <= 39600,
            0 <= m.overlay_height <= 7200,
    ;
    if m.in_panel(x, y) {
        let (column, row) = (x - m.left - m.swatch_width, y - m.top);
        lemma_offset_in_range(column, row, width, m.overlay_height as int, channel);
        lemma_decode(column, row, width, channel);
    }
}

/// The example's texts and border are drawn exactly as those of a live preview of its
/// size, whose first steps are the panel, the backdrop and the swatch.
pub proof fn examples_draw_like_previews(
    dpi: u32,
    border_width_dip: u8,
    frosted: bool,
    content: Content,
)
    requires
        content.color_text@.len() == 7,
        content.coordinates@.len() == 13,
    ensures
        preview_steps(
            dip(OVERLAY_WIDTH, dpi),
            dip(OVERLAY_HEIGHT, dpi),
            dpi,
            border_width_dip,
            frosted,
            content,
        ).skip(
            if frosted {
                3
            } else {
                2
            },
        ) == example_steps(dpi, border_width_dip),
{
    assert(preview_steps(
        dip(OVERLAY_WIDTH, dpi),
        dip(OVERLAY_HEIGHT, dpi),
        dpi,
        border_width_dip,
        frosted,
        content,
    ).skip(
        if frosted {
            3
        } else {
            2
        },
    ) =~= example_steps(dpi, border_width_dip));
}

} // verus!
