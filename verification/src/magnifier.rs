//! Fixed-window, event-driven magnification of one immutable screen snapshot.
use crate::arith::{clamp_i32, clamp_i64, clamped, fits_i32, greater, lesser, quotient};
use crate::drawing::{
    border_px, border_thickness, dip, dip_is_monotone, lengths_scale_to_the_nearest_pixel,
};
use crate::geometry::{Rect, ScreenPointPx, ScreenRectPx};
use crate::zoom::FrozenImage;
use vstd::arithmetic::div_mod::lemma_fundamental_div_mod_converse;
use vstd::prelude::*;

verus! {

/// Why a magnifier cannot be laid out.
#[derive(Debug, Clone, Copy, PartialEq, Eq, Structural)]
pub enum LayoutFault {
    /// The DPI, the work area or the snapshot has no size.
    Invalid,
    /// The work area cannot show one complete cell at every scale.
    TooSmall,
}

/// Height of the information bar.
#[verifier::allow_in_spec]
pub fn footer_height(dpi: u32) -> (r: i32)
    returns
        dip(28, dpi),
{
    dip(28, dpi)
}

/// Extent of the viewport along one axis: four pixels for every source pixel, at
/// least one complete cell of the largest scale, at most 240 device-independent
/// pixels and what is available, in whole cells of the smallest scale.
pub open spec fn viewport_extent(source: int, available: int, dpi: u32) -> int {
    quotient(lesser(lesser(greater(source * 4, 32), dip(240, dpi) as int), available), 4) * 4
}

/// Whether the arguments of a layout make sense at all.
pub open spec fn layout_valid(work: ScreenRectPx, dpi: u32, image_width: u32, image_height: u32) -> bool {
    0 < dpi <= 9600 && !work.empty() && image_width > 0 && image_height > 0
}

/// The window and, above its information bar, the viewport.
pub open spec fn window_places(
    focus: ScreenPointPx,
    work: ScreenRectPx,
    dpi: u32,
    image_width: u32,
    image_height: u32,
) -> (ScreenRectPx, ScreenRectPx) {
    let width = viewport_extent(image_width as int, work.spec_width(), dpi);
    let footer = footer_height(dpi) as int;
    let viewport_height = viewport_extent(image_height as int, work.spec_height() - footer, dpi);
    let left = clamped(focus.x - width / 2, work.left as int, work.right - width);
    let top = clamped(
        focus.y - viewport_height / 2,
        work.top as int,
        work.bottom - viewport_height - footer,
    );
    (
        ScreenRectPx {
            left: left as i32,
            top: top as i32,
            right: (left + width) as i32,
            bottom: (top + viewport_height + footer) as i32,
        },
        ScreenRectPx {
            left: left as i32,
            top: top as i32,
            right: (left + width) as i32,
            bottom: (top + viewport_height) as i32,
        },
    )
}

/// What is wrong with a layout, if anything.
pub open spec fn layout_fault(
    work: ScreenRectPx,
    dpi: u32,
    image_width: u32,
    image_height: u32,
) -> Option<LayoutFault> {
    if !layout_valid(work, dpi, image_width, image_height) {
        Some(LayoutFault::Invalid)
    } else if viewport_extent(image_width as int, work.spec_width(), dpi) < 32 || viewport_extent(
        image_height as int,
        work.spec_height() - footer_height(dpi),
        dpi,
    ) < 32 {
        Some(LayoutFault::TooSmall)
    } else {
        None
    }
}

fn axis_extent(source: u32, available: i64, dpi: u32) -> (r: i64)
    requires
        0 < dpi <= 9600,
        -0x1_0000_0000 <= available <= 0x1_0000_0000,
    ensures
        r == viewport_extent(source as int, available as int, dpi),
        r <= available || r < 32,
        r <= 24000,
{
    let mut extent: i64 = source as i64 * 4;
    if extent < 32 {
        extent = 32;
    }
    let cap: i64 = dip(240, dpi) as i64;
    if extent > cap {
        extent = cap;
    }
    if extent > available {
        extent = available;
    }
    extent / 4 * 4
}

/// Lays the magnifier out around the frozen pixel. The source pixels, unlike the
/// information bar, are physical: a 65 by 65 snapshot at four times needs 260 by
/// 260 pixels even on a high-DPI display.
pub fn window_layout(
    focus: ScreenPointPx,
    work: ScreenRectPx,
    dpi: u32,
    image_width: u32,
    image_height: u32,
) -> (r: Result<(ScreenRectPx, ScreenRectPx), LayoutFault>)
    ensures
        match layout_fault(work, dpi, image_width, image_height) {
            Some(fault) => r == Err::<(ScreenRectPx, ScreenRectPx), LayoutFault>(fault),
            None => r == Ok::<(ScreenRectPx, ScreenRectPx), LayoutFault>(
                window_places(focus, work, dpi, image_width, image_height),
            ),
        },
{
    if dpi == 0 || dpi > 9600 || work.is_empty() || image_width == 0 || image_height == 0 {
        return Err(LayoutFault::Invalid);
    }
    let width: i64 = axis_extent(image_width, work.width() as i64, dpi);
    let footer: i64 = footer_height(dpi) as i64;
    let viewport_height: i64 = axis_extent(image_height, work.height() as i64 - footer, dpi);
    if width < 32 || viewport_height < 32 {
        return Err(LayoutFault::TooSmall);
    }
    let height: i64 = viewport_height + footer;
    let left: i64 = clamp_i64(
        focus.x as i64 - width / 2,
        work.left as i64,
        work.right as i64 - width,
    );
    let top: i64 = clamp_i64(
        focus.y as i64 - viewport_height / 2,
        work.top as i64,
        work.bottom as i64 - height,
    );
    let bounds = ScreenRectPx {
        left: left as i32,
        top: top as i32,
        right: (left + width) as i32,
        bottom: (top + height) as i32,
    };
    let viewport = ScreenRectPx {
        left: bounds.left,
        top: bounds.top,
        right: bounds.right,
        bottom: (top + viewport_height) as i32,
    };
    Ok((bounds, viewport))
}

/// A magnifier lies in the work area, shows whole cells of at least 32 pixels, and
/// has its information bar right below the viewport. It covers the frozen pixel
/// wherever the work area does.
pub proof fn magnifiers_fit_the_work_area(
    focus: ScreenPointPx,
    work: ScreenRectPx,
    dpi: u32,
    image_width: u32,
    image_height: u32,
)
    requires
        layout_fault(work, dpi, image_width, image_height) is None,
    ensures
        ({
            let (window, viewport) = window_places(focus, work, dpi, image_width, image_height);
            &&& window.inside(work)
            &&& viewport.inside(window)
            &&& viewport.left == window.left && viewport.right == window.right
            &&& viewport.top == window.top
            &&& viewport.bottom + footer_height(dpi) == window.bottom
            &&& viewport.spec_width() >= 32 && viewport.spec_width() % 4 == 0
            &&& viewport.spec_height() >= 32 && viewport.spec_height() % 4 == 0
            &&& viewport.spec_width() <= 24000 && viewport.spec_height() <= 24000
            &&& work.spec_contains(focus) ==> window.spec_contains(focus)
        }),
{
}

/// A snapshot with at least eight pixels along an axis, on a display with room
/// for it, is shown complete at the smallest scale along that axis.
pub proof fn whole_snapshots_are_shown_where_they_fit(source: int, available: int, dpi: u32)
    requires
        8 <= source,
        source * 4 <= dip(240, dpi),
        source * 4 <= available,
    ensures
        viewport_extent(source, available, dpi) == source * 4,
{
}

/// Moves a rectangle into the coordinates of a window at `bounds`.
pub open spec fn localized(rect: ScreenRectPx, bounds: ScreenRectPx) -> Rect {
    Rect {
        left: (rect.left - bounds.left) as i32,
        top: (rect.top - bounds.top) as i32,
        right: (rect.right - bounds.left) as i32,
        bottom: (rect.bottom - bounds.top) as i32,
    }
}

pub fn local_rect(rect: ScreenRectPx, bounds: ScreenRectPx) -> (r: Rect)
    requires
        fits_i32(rect.left - bounds.left),
        fits_i32(rect.top - bounds.top),
        fits_i32(rect.right - bounds.left),
        fits_i32(rect.bottom - bounds.top),
    ensures
        r == localized(rect, bounds),
{
    Rect {
        left: rect.left - bounds.left,
        top: rect.top - bounds.top,
        right: rect.right - bounds.left,
        bottom: rect.bottom - bounds.top,
    }
}

/// A window extent as native drawing sees it: one that does not fit keeps its low
/// 32 bits.
pub open spec fn native_extent(extent: int) -> int {
    extent as i32 as int
}

/// Whether a point is over the window and not under its right border. The bottom
/// border is already in the information bar; the right one can cover image
/// columns, which must neither hover nor be picked.
pub open spec fn uncovered(
    point: ScreenPointPx,
    bounds: ScreenRectPx,
    dpi: u32,
    border_width_dip: u8,
) -> bool {
    bounds.spec_contains(point) && point.x < bounds.right - border_px(
        native_extent(bounds.spec_width()),
        native_extent(bounds.spec_height()),
        dpi,
        border_width_dip,
    )
}

pub fn inside_uncovered_window(
    point: ScreenPointPx,
    bounds: ScreenRectPx,
    dpi: u32,
    border_width_dip: u8,
) -> (r: bool)
    ensures
        r == uncovered(point, bounds, dpi, border_width_dip),
{
    let border: i32 = border_thickness(
        #[verifier::truncate]
        (bounds.width() as i32),
        #[verifier::truncate]
        (bounds.height() as i32),
        dpi,
        border_width_dip,
    );
    bounds.contains(point) && (point.x as i64) < bounds.right as i64 - border as i64
}

/// The four one-pixel edges of a frame: top, bottom, left, right.
pub open spec fn frame_edge(rect: Rect, edge: int) -> Rect {
    if edge == 0 {
        Rect { bottom: (rect.top + 1) as i32, ..rect }
    } else if edge == 1 {
        Rect { top: (rect.bottom - 1) as i32, ..rect }
    } else if edge == 2 {
        Rect { right: (rect.left + 1) as i32, ..rect }
    } else {
        Rect { left: (rect.right - 1) as i32, ..rect }
    }
}

/// The part of a rectangle inside another, if any pixel is.
pub open spec fn clipped(rect: Rect, clip: Rect) -> Option<Rect> {
    let common = Rect {
        left: greater(rect.left as int, clip.left as int) as i32,
        top: greater(rect.top as int, clip.top as int) as i32,
        right: lesser(rect.right as int, clip.right as int) as i32,
        bottom: lesser(rect.bottom as int, clip.bottom as int) as i32,
    };
    if common.empty() {
        None
    } else {
        Some(common)
    }
}

fn clip_rect(rect: Rect, clip: Rect) -> (r: Option<Rect>)
    ensures
        r == clipped(rect, clip),
{
    let common = Rect {
        left: if rect.left >= clip.left {
            rect.left
        } else {
            clip.left
        },
        top: if rect.top >= clip.top {
            rect.top
        } else {
            clip.top
        },
        right: if rect.right <= clip.right {
            rect.right
        } else {
            clip.right
        },
        bottom: if rect.bottom <= clip.bottom {
            rect.bottom
        } else {
            clip.bottom
        },
    };
    if common.is_empty() {
        None
    } else {
        Some(common)
    }
}

/// The edges of a frame, each clipped by itself. Intersecting the frame rectangle
/// first would invent an edge along the clip boundary.
pub fn clipped_frame_edges(rect: Rect, clip: Rect) -> (r: [Option<Rect>; 4])
    requires
        rect.top < i32::MAX,
        rect.left < i32::MAX,
        rect.bottom > i32::MIN,
        rect.right > i32::MIN,
    ensures
        forall|edge: int| 0 <= edge < 4 ==> #[trigger] r@[edge] == clipped(frame_edge(rect, edge), clip),
{
    [
        clip_rect(Rect { bottom: rect.top + 1, ..rect }, clip),
        clip_rect(Rect { top: rect.bottom - 1, ..rect }, clip),
        clip_rect(Rect { right: rect.left + 1, ..rect }, clip),
        clip_rect(Rect { left: rect.right - 1, ..rect }, clip),
    ]
}

/// A clipped edge stays inside the clip and never invents pixels: it covers
/// exactly the pixels of the whole edge that the clip holds.
pub proof fn clipped_edges_keep_their_pixels(rect: Rect, clip: Rect, x: int, y: int)
    ensures
        clipped(rect, clip) matches Some(part) ==> part.inside(clip) && part.inside(rect),
        (clipped(rect, clip) matches Some(part) && part.has(x, y)) <==> rect.has(x, y) && clip.has(
            x,
            y,
        ),
{
}

/// The pixel where the hidden window is created, so that it gets the DPI of the
/// monitor that shows the frozen area.
pub fn creation_point(focus: ScreenPointPx, work: ScreenRectPx) -> (r: ScreenPointPx)
    requires
        !work.empty(),
    ensures
        r.x == clamped(focus.x as int, work.left as int, work.right - 1),
        r.y == clamped(focus.y as int, work.top as int, work.bottom - 1),
        work.spec_contains(r),
{
    ScreenPointPx {
        x: clamp_i32(focus.x, work.left, work.right - 1),
        y: clamp_i32(focus.y, work.top, work.bottom - 1),
    }
}

/// The bytes of a snapshot without padding between its rows.
pub open spec fn packed_rows(image: FrozenImage) -> Seq<u8> {
    let row = image.width as int * 4;
    Seq::new(
        (row * image.height) as nat,
        |i: int| image.bgrx@[(i / row) * image.stride_bytes + i % row],
    )
}

/// Removes the padding between the rows of a snapshot, so that every row takes
/// four bytes for each pixel. The colours stay what they were.
pub fn compact_rows(image: &mut FrozenImage)
    requires
        old(image).fault() is None,
    ensures
        final(image).fault() is None,
        final(image).origin == old(image).origin,
        final(image).width == old(image).width,
        final(image).height == old(image).height,
        final(image).stride_bytes == old(image).width * 4,
        final(image).bgrx@ == (if old(image).stride_bytes == old(image).width * 4 {
            old(image).bgrx@
        } else {
            packed_rows(*old(image))
        }),
        forall|x: int, y: int|
            old(image).has(x, y) ==> #[trigger] final(image).color_at(x, y) == old(image).color_at(
                x,
                y,
            ),
{
    let ghost before = *image;
    let row: usize = image.width as usize * 4;
    if image.stride_bytes == row {
        return;
    }
    let height: usize = image.height as usize;
    let stride: usize = image.stride_bytes;
    proof {
        assert(row * height <= stride * height) by (nonlinear_arith)
            requires
                row <= stride,
                height >= 0,
        ;
        assert(image.bgrx.len() == image.bgrx@.len());
    }
    let mut pixels: Vec<u8> = Vec::with_capacity(row * height);
    let mut y: usize = 0;
    proof {
        assert(0 * row == 0) by (nonlinear_arith);
        assert(pixels@ =~= packed_rows(before).take(0));
    }
    while y < height
        invariant
            *image == before,
            before.fault() is None,
            row == before.width * 4,
            height == before.height,
            stride == before.stride_bytes,
            row <= stride,
            row > 0,
            row * height <= stride * height <= image.bgrx.len(),
            image.bgrx.len() == before.bgrx@.len(),
            y <= height,
            pixels@ == packed_rows(before).take(y * row),
            0 <= y * row <= row * height,
        decreases height - y,
    {
        proof {
            assert(y * stride + stride <= stride * height) by (nonlinear_arith)
                requires
                    y < height,
                    stride >= 0,
            ;
            assert(0 <= y * row && y * row + row <= row * height) by (nonlinear_arith)
                requires
                    0 <= y < height,
                    row >= 0,
            ;
        }
        let mut x: usize = 0;
        while x < row
            invariant
                *image == before,
                before.fault() is None,
                row == before.width * 4,
                height == before.height,
                stride == before.stride_bytes,
                row <= stride,
                row > 0,
                row * height <= stride * height <= image.bgrx.len(),
                image.bgrx.len() == before.bgrx@.len(),
                y < height,
                x <= row,
                0 <= y * stride,
                y * stride + stride <= stride * height,
                0 <= y * row,
                y * row + row <= row * height,
                pixels@ == packed_rows(before).take(y * row + x),
            decreases row - x,
        {
            let byte: u8 = image.bgrx[y * stride + x];
            pixels.push(byte);
            proof {
                let i = y * row + x;
                lemma_fundamental_div_mod_converse(i, row as int, y as int, x as int);
                assert(packed_rows(before)[i] == byte);
                assert(pixels@ =~= packed_rows(before).take(i + 1));
            }
            x = x + 1;
        }
        proof {
            assert((y + 1) * row == y * row + row) by (nonlinear_arith);
        }
        y = y + 1;
    }
    proof {
        assert(height * row == row * height) by (nonlinear_arith);
        assert(pixels@ =~= packed_rows(before));
        assert forall|x: int, y: int| before.has(x, y) implies {
            let i = y * row + x * 4;
            &&& 0 <= i && i + 4 <= packed_rows(before).len()
            &&& packed_rows(before)[i] == before.bgrx@[before.offset(x, y)]
            &&& packed_rows(before)[i + 1] == before.bgrx@[before.offset(x, y) + 1]
            &&& packed_rows(before)[i + 2] == before.bgrx@[before.offset(x, y) + 2]
        } by {
            assert(0 <= y * row && y * row + row <= row * height) by (nonlinear_arith)
                requires
                    0 <= y < height,
                    row >= 0,
            ;
            lemma_fundamental_div_mod_converse(y * row + x * 4, row as int, y, x * 4);
            lemma_fundamental_div_mod_converse(y * row + x * 4 + 1, row as int, y, x * 4 + 1);
            lemma_fundamental_div_mod_converse(y * row + x * 4 + 2, row as int, y, x * 4 + 2);
        }
    }
    image.bgrx = pixels;
    image.stride_bytes = row;
    proof {
        assert forall|x: int, y: int| before.has(x, y) implies #[trigger] image.color_at(x, y)
            == before.color_at(x, y) by {
            let i = y * row + x * 4;
            assert(image.offset(x, y) == i);
            assert(packed_rows(before)[i] == before.bgrx@[before.offset(x, y)]);
        }
    }
}

/// Distance of two coordinates.
pub open spec fn apart_by(a: int, b: int) -> int {
    if a >= b {
        a - b
    } else {
        b - a
    }
}

/// A new magnifier is centred on the frozen pixel: its viewport begins half its
/// width left of the pixel and half its height above it, wherever the work area has
/// room for the window there. Elsewhere no other place in the work area is nearer to
/// that one.
pub proof fn magnifiers_are_centred_on_the_frozen_pixel(
    focus: ScreenPointPx,
    work: ScreenRectPx,
    dpi: u32,
    image_width: u32,
    image_height: u32,
    other: ScreenPointPx,
)
    requires
        layout_fault(work, dpi, image_width, image_height) is None,
    ensures
        ({
            let (window, viewport) = window_places(focus, work, dpi, image_width, image_height);
            let x = focus.x - (viewport.right - viewport.left) / 2;
            let y = focus.y - (viewport.bottom - viewport.top) / 2;
            let width = window.right - window.left;
            let height = window.bottom - window.top;
            &&& work.left <= x && x + width <= work.right ==> viewport.left == x
            &&& work.top <= y && y + height <= work.bottom ==> viewport.top == y
            &&& work.left <= other.x && other.x + width <= work.right ==> apart_by(
                viewport.left as int,
                x,
            ) <= apart_by(other.x as int, x)
            &&& work.top <= other.y && other.y + height <= work.bottom ==> apart_by(
                viewport.top as int,
                y,
            ) <= apart_by(other.y as int, y)
        }),
{
}

/// The viewport takes as much room as it may: four pixels for every pixel of the
/// snapshot and at least one cell of the largest scale, but no more than 240
/// device-independent pixels and the work area. Of all such extents in whole cells it
/// has the largest.
pub proof fn viewports_are_as_large_as_allowed(source: int, available: int, dpi: u32, other: int)
    requires
        source > 0,
        available >= 0,
        0 < dpi <= 9600,
    ensures
        ({
            let extent = viewport_extent(source, available, dpi);
            &&& extent % 4 == 0
            &&& extent <= source * 4 || extent <= 32
            &&& extent <= dip(240, dpi)
            &&& extent <= available
            &&& other % 4 == 0 && (other <= source * 4 || other <= 32) && other <= dip(240, dpi)
                && other <= available ==> other <= extent
        }),
{
    dip_is_monotone(240, 240, dpi as int, 9600);
}

/// A snapshot can be laid out exactly where the work area has room for one cell of the
/// largest scale and for the information bar below it.
pub proof fn layouts_need_a_complete_cell(
    work: ScreenRectPx,
    dpi: u32,
    image_width: u32,
    image_height: u32,
)
    requires
        96 <= dpi <= 9600,
        image_width > 0,
        image_height > 0,
    ensures
        layout_fault(work, dpi, image_width, image_height) is None <==> work.right - work.left >= 32
            && work.bottom - work.top >= 32 + dip(28, dpi),
{
    dip_is_monotone(240, 240, 96, dpi as int);
    dip_is_monotone(240, 240, dpi as int, 9600);
    dip_is_monotone(28, 28, dpi as int, 9600);
}

/// A pixel of the window can be reached exactly where the border at its right does
/// not cover it. Without a border all of them can, and a wider border never frees
/// one.
pub proof fn borders_only_take_pixels(
    point: ScreenPointPx,
    bounds: ScreenRectPx,
    dpi: u32,
    narrower: u8,
    wider: u8,
)
    requires
        narrower <= wider <= 200,
        dpi <= 9600,
    ensures
        uncovered(point, bounds, dpi, 0) <==> bounds.spec_contains(point),
        uncovered(point, bounds, dpi, wider) ==> uncovered(point, bounds, dpi, narrower),
{
    dip_is_monotone(narrower as int, wider as int, dpi as int, dpi as int);
    dip_is_monotone(narrower as int, narrower as int, dpi as int, 9600);
    dip_is_monotone(wider as int, wider as int, dpi as int, 9600);
    dip_is_monotone(wider as int, 200, 9600, 9600);
    dip_is_monotone(narrower as int, 200, 9600, 9600);
}

/// The frame around a rectangle is one pixel thick and complete: a pixel belongs to
/// one of its edges exactly where it is inside the rectangle and at its rim.
pub proof fn frame_edges_are_the_rim(rect: Rect, x: int, y: int)
    requires
        i32::MIN < rect.left < rect.right < i32::MAX,
        i32::MIN < rect.top < rect.bottom < i32::MAX,
    ensures
        (exists|edge: int| 0 <= edge < 4 && #[trigger] frame_edge(rect, edge).has(x, y))
            <==> rect.has(x, y) && (x == rect.left || x == rect.right - 1 || y == rect.top || y
            == rect.bottom - 1),
{
    if rect.has(x, y) {
        assert(y == rect.top ==> frame_edge(rect, 0).has(x, y));
        assert(y == rect.bottom - 1 ==> frame_edge(rect, 1).has(x, y));
        assert(x == rect.left ==> frame_edge(rect, 2).has(x, y));
        assert(x == rect.right - 1 ==> frame_edge(rect, 3).has(x, y));
    }
}

/// Moving a rectangle into the coordinates of a window keeps its size, and a pixel
/// belongs to it there exactly where it did on the desktop.
pub proof fn local_pixels_are_the_same(
    rect: ScreenRectPx,
    bounds: ScreenRectPx,
    point: ScreenPointPx,
)
    requires
        fits_i32(rect.left - bounds.left),
        fits_i32(rect.top - bounds.top),
        fits_i32(rect.right - bounds.left),
        fits_i32(rect.bottom - bounds.top),
    ensures
        localized(rect, bounds).has(point.x - bounds.left, point.y - bounds.top)
            <==> rect.spec_contains(point),
{
}

/// The information bar is 28 device-independent pixels high, to the nearest pixel.
pub proof fn information_bars_have_their_height(dpi: u32)
    requires
        dpi <= 9600,
    ensures
        -48 <= 28 * dpi - 96 * footer_height(dpi) < 48,
{
    lengths_scale_to_the_nearest_pixel(28, dpi as int);
}

} // verus!
