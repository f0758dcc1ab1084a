//! Whole-cell magnification of one immutable screen snapshot: which source pixel
//! stands where in the viewport, and back.
use crate::arith::{clamp_i64, clamped, lesser};
use crate::color::Rgb8;
use crate::geometry::{ScreenPointPx, ScreenRectPx};
use vstd::prelude::*;

verus! {

#[derive(Debug, Clone, Copy, PartialEq, Eq, Structural)]
pub enum ImageError {
    EmptyImage,
    InvalidStride,
    TruncatedBuffer,
    CoordinateOverflow,
}

#[derive(Debug, Clone, Copy, PartialEq, Eq, Structural)]
pub enum ZoomError {
    InvalidImage(ImageError),
    EmptyViewport,
    InvalidFocus,
}

/// A pixel of the snapshot, counted from its top left corner.
#[derive(Debug, Clone, Copy, PartialEq, Eq, Structural)]
pub struct CachePoint {
    pub x: u32,
    pub y: u32,
}

/// The part of the snapshot that is shown.
#[derive(Debug, Clone, Copy, PartialEq, Eq, Structural)]
pub struct SourceView {
    pub x: u32,
    pub y: u32,
    pub width: u32,
    pub height: u32,
}

/// A snapshot pixel with its place on the desktop and its colour.
#[derive(Debug, Clone, Copy, PartialEq, Eq, Structural)]
pub struct SourcePixel {
    pub cache: CachePoint,
    pub source: ScreenPointPx,
    pub rgb: Rgb8,
}

/// A top-down snapshot of the desktop in BGRX bytes.
#[derive(Debug)]
pub struct FrozenImage {
    pub origin: ScreenPointPx,
    pub width: u32,
    pub height: u32,
    pub stride_bytes: usize,
    pub bgrx: Vec<u8>,
}

impl FrozenImage {
    /// The first thing wrong with the snapshot, if any.
    pub open spec fn fault(self) -> Option<ImageError> {
        if self.width == 0 || self.height == 0 {
            Some(ImageError::EmptyImage)
        } else if self.stride_bytes < self.width * 4 {
            Some(ImageError::InvalidStride)
        } else if self.bgrx@.len() < self.stride_bytes * self.height {
            Some(ImageError::TruncatedBuffer)
        } else if self.origin.x + self.width > i32::MAX || self.origin.y + self.height > i32::MAX {
            Some(ImageError::CoordinateOverflow)
        } else {
            None
        }
    }

    /// Whether the snapshot has this pixel.
    pub open spec fn has(self, x: int, y: int) -> bool {
        0 <= x < self.width && 0 <= y < self.height
    }

    /// The first byte of a pixel.
    pub open spec fn offset(self, x: int, y: int) -> int {
        y * self.stride_bytes + x * 4
    }

    /// The colour of a pixel; the bytes are blue, green, red and unused.
    pub open spec fn color_at(self, x: int, y: int) -> Rgb8 {
        Rgb8 {
            r: self.bgrx@[self.offset(x, y) + 2],
            g: self.bgrx@[self.offset(x, y) + 1],
            b: self.bgrx@[self.offset(x, y)],
        }
    }

    /// The desktop pixel that a snapshot pixel was taken from.
    pub open spec fn desktop_point(self, x: int, y: int) -> ScreenPointPx {
        ScreenPointPx { x: (self.origin.x + x) as i32, y: (self.origin.y + y) as i32 }
    }

    /// The snapshot pixel with everything known of it.
    pub open spec fn pixel(self, cache: CachePoint) -> SourcePixel {
        SourcePixel {
            cache,
            source: self.desktop_point(cache.x as int, cache.y as int),
            rgb: self.color_at(cache.x as int, cache.y as int),
        }
    }

    pub fn validate(&self) -> (r: Result<(), ImageError>)
        ensures
            r == (match self.fault() {
                Some(error) => Err(error),
                None => Ok(()),
            }),
    {
        if self.width == 0 || self.height == 0 {
            return Err(ImageError::EmptyImage);
        }
        let stride: u128 = self.stride_bytes as u128;
        if stride < self.width as u128 * 4 {
            return Err(ImageError::InvalidStride);
        }
        proof {
            assert(0 <= self.stride_bytes * self.height <= 0xffff_ffff_ffff_ffff * 0xffff_ffff)
                by (nonlinear_arith)
                requires
                    0 <= self.stride_bytes <= 0xffff_ffff_ffff_ffff,
                    0 <= self.height <= 0xffff_ffff,
            ;
        }
        if (self.bgrx.len() as u128) < stride * self.height as u128 {
            return Err(ImageError::TruncatedBuffer);
        }
        if self.origin.x as i64 + self.width as i64 > i32::MAX as i64 || self.origin.y as i64
            + self.height as i64 > i32::MAX as i64 {
            return Err(ImageError::CoordinateOverflow);
        }
        Ok(())
    }

    proof fn lemma_offset_in_buffer(self, x: int, y: int)
        requires
            self.fault() is None,
            self.has(x, y),
        ensures
            0 <= y * self.stride_bytes,
            0 <= self.offset(x, y),
            self.offset(x, y) + 4 <= self.bgrx@.len(),
    {
        assert(0 <= y * self.stride_bytes && y * self.stride_bytes + self.stride_bytes
            <= self.stride_bytes * self.height) by (nonlinear_arith)
            requires
                0 <= y < self.height,
                0 <= self.stride_bytes,
        ;
    }

    /// The colour of a pixel, or nothing where the snapshot is not valid or has
    /// no such pixel.
    pub fn pixel_at(&self, x: u32, y: u32) -> (r: Option<Rgb8>)
        ensures
            r == (if self.fault() is None && self.has(x as int, y as int) {
                Some(self.color_at(x as int, y as int))
            } else {
                None
            }),
    {
        if self.validate().is_err() || x >= self.width || y >= self.height {
            return None;
        }
        proof {
            self.lemma_offset_in_buffer(x as int, y as int);
            assert(self.bgrx.len() == self.bgrx@.len());
        }
        let offset: usize = y as usize * self.stride_bytes + x as usize * 4;
        Some(Rgb8 { r: self.bgrx[offset + 2], g: self.bgrx[offset + 1], b: self.bgrx[offset] })
    }
}

#[derive(Debug, Clone, Copy, PartialEq, Eq, Structural)]
pub enum ZoomScale {
    X4,
    X8,
    X16,
    X32,
}

impl ZoomScale {
    pub open spec fn cell(self) -> int {
        match self {
            ZoomScale::X4 => 4,
            ZoomScale::X8 => 8,
            ZoomScale::X16 => 16,
            ZoomScale::X32 => 32,
        }
    }

    /// Physical pixels along one side of a magnified source pixel.
    pub fn factor(&self) -> (r: u32)
        ensures
            r == self.cell(),
            4 <= r <= 32,
    {
        match self {
            ZoomScale::X4 => 4,
            ZoomScale::X8 => 8,
            ZoomScale::X16 => 16,
            ZoomScale::X32 => 32,
        }
    }

    pub open spec fn next(self) -> ZoomScale {
        match self {
            ZoomScale::X4 => ZoomScale::X8,
            ZoomScale::X8 => ZoomScale::X16,
            ZoomScale::X16 => ZoomScale::X32,
            ZoomScale::X32 => ZoomScale::X32,
        }
    }

    pub open spec fn previous(self) -> Option<ZoomScale> {
        match self {
            ZoomScale::X4 => None,
            ZoomScale::X8 => Some(ZoomScale::X4),
            ZoomScale::X16 => Some(ZoomScale::X8),
            ZoomScale::X32 => Some(ZoomScale::X16),
        }
    }

    /// The next larger scale; the largest stays.
    pub fn increase(&self) -> (r: ZoomScale)
        ensures
            r == self.next(),
    {
        match self {
            ZoomScale::X4 => ZoomScale::X8,
            ZoomScale::X8 => ZoomScale::X16,
            ZoomScale::X16 => ZoomScale::X32,
            ZoomScale::X32 => ZoomScale::X32,
        }
    }

    /// The next smaller scale; below the smallest, magnification ends.
    pub fn decrease(&self) -> (r: Option<ZoomScale>)
        ensures
            r == self.previous(),
    {
        match self {
            ZoomScale::X4 => None,
            ZoomScale::X8 => Some(ZoomScale::X4),
            ZoomScale::X16 => Some(ZoomScale::X8),
            ZoomScale::X32 => Some(ZoomScale::X16),
        }
    }
}

/// Going up and then down returns to the same scale below the largest one, and
/// every step doubles the cell.
pub proof fn zoom_steps_double_and_undo(scale: ZoomScale)
    requires
        scale != ZoomScale::X32,
    ensures
        scale.next().previous() == Some(scale),
        scale.next().cell() == 2 * scale.cell(),
{
}

/// Complete cells along one axis: as many as the viewport holds and the image has.
pub open spec fn axis_cells(image: int, viewport: int, cell: int) -> int {
    lesser(image, viewport / cell)
}

/// Unused pixels before the first cell: the cells are centred in the viewport.
pub open spec fn axis_margin(image: int, viewport: int, cell: int) -> int {
    (viewport - axis_cells(image, viewport, cell) * cell) / 2
}

/// First source pixel shown along one axis so that `focus` is in the middle, held
/// inside the image.
pub open spec fn centered_start(focus: int, cells: int, image: int) -> int {
    clamped(focus - cells / 2, 0, image - cells)
}

/// First source pixel shown along one axis so that `pixel` stands `distance`
/// physical pixels after the first cell's edge, held inside the image.
pub open spec fn anchored_start(pixel: int, distance: int, cell: int, cells: int, image: int) -> int {
    clamped(pixel - distance / cell, 0, image - cells)
}

/// The rectangle covered by complete cells.
pub open spec fn drawn_area(image: FrozenImage, viewport: ScreenRectPx, scale: ZoomScale) -> ScreenRectPx {
    let left = viewport.left + axis_margin(image.width as int, viewport.spec_width(), scale.cell());
    let top = viewport.top + axis_margin(image.height as int, viewport.spec_height(), scale.cell());
    ScreenRectPx {
        left: left as i32,
        top: top as i32,
        right: (left + axis_cells(image.width as int, viewport.spec_width(), scale.cell())
            * scale.cell()) as i32,
        bottom: (top + axis_cells(image.height as int, viewport.spec_height(), scale.cell())
            * scale.cell()) as i32,
    }
}

/// The part of the snapshot shown when `focus` is centred.
pub open spec fn centered_view(
    image: FrozenImage,
    viewport: ScreenRectPx,
    scale: ZoomScale,
    focus: CachePoint,
) -> SourceView {
    let columns = axis_cells(image.width as int, viewport.spec_width(), scale.cell());
    let rows = axis_cells(image.height as int, viewport.spec_height(), scale.cell());
    SourceView {
        x: centered_start(focus.x as int, columns, image.width as int) as u32,
        y: centered_start(focus.y as int, rows, image.height as int) as u32,
        width: columns as u32,
        height: rows as u32,
    }
}

/// The part of the snapshot shown when `pixel` is kept under `anchor`. An anchor
/// outside the drawn cells falls back to centring the pixel.
pub open spec fn anchored_view(
    image: FrozenImage,
    viewport: ScreenRectPx,
    scale: ZoomScale,
    pixel: CachePoint,
    anchor: ScreenPointPx,
) -> SourceView {
    let drawn = drawn_area(image, viewport, scale);
    let columns = axis_cells(image.width as int, viewport.spec_width(), scale.cell());
    let rows = axis_cells(image.height as int, viewport.spec_height(), scale.cell());
    if drawn.spec_contains(anchor) {
        SourceView {
            x: anchored_start(
                pixel.x as int,
                anchor.x - drawn.left,
                scale.cell(),
                columns,
                image.width as int,
            ) as u32,
            y: anchored_start(
                pixel.y as int,
                anchor.y - drawn.top,
                scale.cell(),
                rows,
                image.height as int,
            ) as u32,
            width: columns as u32,
            height: rows as u32,
        }
    } else {
        centered_view(image, viewport, scale, pixel)
    }
}

/// Whether a snapshot pixel is shown.
pub open spec fn shows(source: SourceView, cache: CachePoint) -> bool {
    source.x <= cache.x < source.x + source.width && source.y <= cache.y < source.y + source.height
}

/// The snapshot pixel under a desktop point of the drawn cells.
pub open spec fn cache_under(
    drawn: ScreenRectPx,
    source: SourceView,
    scale: ZoomScale,
    point: ScreenPointPx,
) -> CachePoint {
    CachePoint {
        x: (source.x + (point.x - drawn.left) / scale.cell()) as u32,
        y: (source.y + (point.y - drawn.top) / scale.cell()) as u32,
    }
}

/// The middle of the cell that shows a snapshot pixel.
pub open spec fn center_of(
    drawn: ScreenRectPx,
    source: SourceView,
    scale: ZoomScale,
    cache: CachePoint,
) -> ScreenPointPx {
    ScreenPointPx {
        x: (drawn.left + (cache.x - source.x) * scale.cell() + scale.cell() / 2) as i32,
        y: (drawn.top + (cache.y - source.y) * scale.cell() + scale.cell() / 2) as i32,
    }
}

/// The cells of one axis fit in its viewport, margin included.
proof fn lemma_axis(image: int, viewport: int, scale: ZoomScale)
    requires
        image >= 0,
        viewport >= 0,
    ensures
        0 <= axis_cells(image, viewport, scale.cell()) <= image,
        0 <= axis_cells(image, viewport, scale.cell()) * scale.cell() <= viewport,
        0 <= axis_margin(image, viewport, scale.cell()),
        axis_margin(image, viewport, scale.cell()) + axis_cells(image, viewport, scale.cell())
            * scale.cell() <= viewport,
{
    match scale {
        ZoomScale::X4 => {},
        ZoomScale::X8 => {},
        ZoomScale::X16 => {},
        ZoomScale::X32 => {},
    }
}

/// A point of the drawn cells stands over one of the shown cells.
proof fn lemma_cell_of(distance: int, cells: int, scale: ZoomScale)
    requires
        0 <= distance < cells * scale.cell(),
    ensures
        0 <= distance / scale.cell() < cells,
{
    let cell = scale.cell();
    assert(0 <= distance / cell < cells) by (nonlinear_arith)
        requires
            0 <= distance < cells * cell,
            cell > 0,
    ;
}

/// The middle of cell `index` lies in that cell and among the drawn ones.
proof fn lemma_center_of(index: int, cells: int, scale: ZoomScale)
    requires
        0 <= index < cells,
    ensures
        0 <= index * scale.cell(),
        index * scale.cell() + scale.cell() / 2 < cells * scale.cell(),
        (index * scale.cell() + scale.cell() / 2) / scale.cell() == index,
{
    match scale {
        ZoomScale::X4 => {},
        ZoomScale::X8 => {},
        ZoomScale::X16 => {},
        ZoomScale::X32 => {},
    }
}

/// Cells along one axis, and the margin before them.
fn axis_layout(image: u32, viewport: u32, scale: ZoomScale) -> (r: (u32, u32))
    ensures
        r.0 == axis_cells(image as int, viewport as int, scale.cell()),
        r.1 == axis_margin(image as int, viewport as int, scale.cell()),
{
    proof {
        lemma_axis(image as int, viewport as int, scale);
    }
    let factor: u32 = scale.factor();
    let whole: u32 = viewport / factor;
    let cells: u32 = if image <= whole {
        image
    } else {
        whole
    };
    (cells, (viewport - cells * factor) / 2)
}

/// First source pixel of an axis that centres `focus`.
fn center_axis(focus: u32, cells: u32, image: u32) -> (r: u32)
    requires
        cells <= image,
    ensures
        r == centered_start(focus as int, cells as int, image as int),
        r + cells <= image,
        focus < image && cells > 0 ==> r <= focus < r + cells,
{
    clamp_i64(focus as i64 - (cells / 2) as i64, 0, image as i64 - cells as i64) as u32
}

/// First source pixel of an axis that keeps `pixel` at a distance.
fn anchor_axis(pixel: u32, distance: u32, scale: ZoomScale, cells: u32, image: u32) -> (r: u32)
    requires
        cells <= image,
        distance < cells * scale.cell(),
    ensures
        r == anchored_start(
            pixel as int,
            distance as int,
            scale.cell(),
            cells as int,
            image as int,
        ),
        r + cells <= image,
        pixel < image ==> r <= pixel < r + cells,
{
    proof {
        lemma_cell_of(distance as int, cells as int, scale);
    }
    let index: u32 = distance / scale.factor();
    clamp_i64(pixel as i64 - index as i64, 0, image as i64 - cells as i64) as u32
}

/// A magnified view of a snapshot in a fixed viewport.
#[derive(Debug)]
pub struct ZoomView {
    image: FrozenImage,
    viewport: ScreenRectPx,
    scale: ZoomScale,
    selected: CachePoint,
    source: SourceView,
}

impl ZoomView {
    pub closed spec fn spec_image(&self) -> FrozenImage {
        self.image
    }

    pub closed spec fn spec_viewport(&self) -> ScreenRectPx {
        self.viewport
    }

    pub closed spec fn spec_scale(&self) -> ZoomScale {
        self.scale
    }

    pub closed spec fn spec_selected(&self) -> CachePoint {
        self.selected
    }

    pub closed spec fn spec_source(&self) -> SourceView {
        self.source
    }

    /// The rectangle covered by complete cells.
    pub open spec fn drawn(&self) -> ScreenRectPx {
        drawn_area(self.spec_image(), self.spec_viewport(), self.spec_scale())
    }

    /// Complete cells along the horizontal axis.
    pub open spec fn columns(&self) -> int {
        axis_cells(
            self.spec_image().width as int,
            self.spec_viewport().spec_width(),
            self.spec_scale().cell(),
        )
    }

    /// Complete cells along the vertical axis.
    pub open spec fn rows(&self) -> int {
        axis_cells(
            self.spec_image().height as int,
            self.spec_viewport().spec_height(),
            self.spec_scale().cell(),
        )
    }

    /// The snapshot is valid, the viewport has room, and the part shown lies in
    /// the snapshot and, where any cell is shown, holds the selected pixel.
    pub open spec fn wf(&self) -> bool {
        let source = self.spec_source();
        let selected = self.spec_selected();
        let image = self.spec_image();
        &&& image.fault() is None
        &&& !self.spec_viewport().empty()
        &&& image.has(selected.x as int, selected.y as int)
        &&& source.width == self.columns()
        &&& source.height == self.rows()
        &&& source.x + source.width <= image.width
        &&& source.y + source.height <= image.height
        &&& source.width > 0 ==> source.x <= selected.x < source.x + source.width
        &&& source.height > 0 ==> source.y <= selected.y < source.y + source.height
    }

    /// What the point stands over, if it is over a complete cell.
    pub open spec fn hit(&self, point: ScreenPointPx) -> Option<SourcePixel> {
        if self.drawn().spec_contains(point) {
            Some(
                self.spec_image().pixel(
                    cache_under(self.drawn(), self.spec_source(), self.spec_scale(), point),
                ),
            )
        } else {
            None
        }
    }

    /// The middle of the cell that shows a snapshot pixel, where it is shown.
    pub open spec fn center(&self, cache: CachePoint) -> Option<ScreenPointPx> {
        if shows(self.spec_source(), cache) {
            Some(center_of(self.drawn(), self.spec_source(), self.spec_scale(), cache))
        } else {
            None
        }
    }

    proof fn lemma_drawn(&self)
        requires
            self.wf(),
        ensures
            self.drawn().inside(self.spec_viewport()),
            self.drawn().left == self.spec_viewport().left + axis_margin(
                self.spec_image().width as int,
                self.spec_viewport().spec_width(),
                self.spec_scale().cell(),
            ),
            self.drawn().top == self.spec_viewport().top + axis_margin(
                self.spec_image().height as int,
                self.spec_viewport().spec_height(),
                self.spec_scale().cell(),
            ),
            self.drawn().right == self.drawn().left + self.columns() * self.spec_scale().cell(),
            self.drawn().bottom == self.drawn().top + self.rows() * self.spec_scale().cell(),
            0 <= self.columns(),
            0 <= self.rows(),
    {
        lemma_area(self.image, self.viewport, self.scale);
    }

    /// Starts with `focus` centred as far as the snapshot allows.
    pub fn new(
        image: FrozenImage,
        viewport: ScreenRectPx,
        scale: ZoomScale,
        focus: CachePoint,
    ) -> (r: Result<ZoomView, ZoomError>)
        ensures
            r matches Ok(view) ==> {
                &&& view.wf()
                &&& view.spec_image() == image
                &&& view.spec_viewport() == viewport
                &&& view.spec_scale() == scale
                &&& view.spec_selected() == focus
                &&& view.spec_source() == centered_view(image, viewport, scale, focus)
            },
            r is Ok <==> view_fault(image, viewport, focus) is None,
            r matches Err(error) ==> Some(error) == view_fault(image, viewport, focus),
    {
        match image.validate() {
            Ok(()) => {},
            Err(error) => return Err(ZoomError::InvalidImage(error)),
        }
        if viewport.is_empty() {
            return Err(ZoomError::EmptyViewport);
        }
        if focus.x >= image.width || focus.y >= image.height {
            return Err(ZoomError::InvalidFocus);
        }
        let source = centered_source(&image, viewport, scale, focus);
        Ok(ZoomView { image, viewport, scale, selected: focus, source })
    }

    /// Starts with `focus` under `anchor` as far as the snapshot allows. An anchor
    /// outside the drawn cells centres the focus.
    pub fn new_anchored(
        image: FrozenImage,
        viewport: ScreenRectPx,
        scale: ZoomScale,
        focus: CachePoint,
        anchor: ScreenPointPx,
    ) -> (r: Result<ZoomView, ZoomError>)
        ensures
            r matches Ok(view) ==> {
                &&& view.wf()
                &&& view.spec_image() == image
                &&& view.spec_viewport() == viewport
                &&& view.spec_scale() == scale
                &&& view.spec_selected() == focus
                &&& view.spec_source() == anchored_view(image, viewport, scale, focus, anchor)
            },
            r is Ok <==> view_fault(image, viewport, focus) is None,
            r matches Err(error) ==> Some(error) == view_fault(image, viewport, focus),
    {
        match ZoomView::new(image, viewport, scale, focus) {
            Ok(mut view) => {
                view.source = anchored_source(&view.image, viewport, scale, focus, anchor);
                Ok(view)
            },
            Err(error) => Err(error),
        }
    }

    pub fn image(&self) -> (r: &FrozenImage)
        ensures
            *r == self.spec_image(),
    {
        &self.image
    }

    pub fn viewport(&self) -> (r: ScreenRectPx)
        ensures
            r == self.spec_viewport(),
    {
        self.viewport
    }

    pub fn scale(&self) -> (r: ZoomScale)
        ensures
            r == self.spec_scale(),
    {
        self.scale
    }

    pub fn selected(&self) -> (r: CachePoint)
        ensures
            r == self.spec_selected(),
    {
        self.selected
    }

    pub fn source_view(&self) -> (r: SourceView)
        ensures
            r == self.spec_source(),
    {
        self.source
    }

    pub fn drawn_rect(&self) -> (r: ScreenRectPx)
        requires
            self.wf(),
        ensures
            r == self.drawn(),
    {
        drawn_rect_of(&self.image, self.viewport, self.scale)
    }

    /// The snapshot pixel under a desktop point; margins have none.
    pub fn hit_test(&self, point: ScreenPointPx) -> (r: Option<SourcePixel>)
        requires
            self.wf(),
        ensures
            r == self.hit(point),
            r matches Some(pixel) ==> shows(self.spec_source(), pixel.cache)
                && self.spec_image().has(pixel.cache.x as int, pixel.cache.y as int),
    {
        let drawn = self.drawn_rect();
        if !drawn.contains(point) {
            return None;
        }
        proof {
            self.lemma_drawn();
            lemma_cell_of(point.x - drawn.left, self.columns(), self.scale);
            lemma_cell_of(point.y - drawn.top, self.rows(), self.scale);
        }
        let factor: i64 = self.scale.factor() as i64;
        let column: u32 = ((point.x as i64 - drawn.left as i64) / factor) as u32;
        let row: u32 = ((point.y as i64 - drawn.top as i64) / factor) as u32;
        let cache = CachePoint { x: self.source.x + column, y: self.source.y + row };
        let source = ScreenPointPx {
            x: (self.image.origin.x as i64 + cache.x as i64) as i32,
            y: (self.image.origin.y as i64 + cache.y as i64) as i32,
        };
        match self.image.pixel_at(cache.x, cache.y) {
            Some(rgb) => Some(SourcePixel { cache, source, rgb }),
            None => None,
        }
    }

    /// The middle of the cell that shows a snapshot pixel.
    pub fn cell_center(&self, cache: CachePoint) -> (r: Option<ScreenPointPx>)
        requires
            self.wf(),
        ensures
            r == self.center(cache),
    {
        let source = self.source;
        if cache.x < source.x || cache.x as u64 >= source.x as u64 + source.width as u64 || cache.y
            < source.y || cache.y as u64 >= source.y as u64 + source.height as u64 {
            return None;
        }
        let drawn = self.drawn_rect();
        let factor: i64 = self.scale.factor() as i64;
        proof {
            self.lemma_drawn();
            lemma_center_of(cache.x - source.x, self.columns(), self.scale);
            lemma_center_of(cache.y - source.y, self.rows(), self.scale);
        }
        Some(
            ScreenPointPx {
                x: (drawn.left as i64 + (cache.x - source.x) as i64 * factor + factor / 2) as i32,
                y: (drawn.top as i64 + (cache.y - source.y) as i64 * factor + factor / 2) as i32,
            },
        )
    }

    /// Makes the pixel under a point the selection. A point over no pixel leaves
    /// the selection alone.
    pub fn select_at(&mut self, point: ScreenPointPx) -> (r: Option<SourcePixel>)
        requires
            old(self).wf(),
        ensures
            final(self).wf(),
            r == old(self).hit(point),
            final(self).spec_image() == old(self).spec_image(),
            final(self).spec_viewport() == old(self).spec_viewport(),
            final(self).spec_scale() == old(self).spec_scale(),
            final(self).spec_source() == old(self).spec_source(),
            final(self).spec_selected() == (match r {
                Some(pixel) => pixel.cache,
                None => old(self).spec_selected(),
            }),
    {
        let hit = self.hit_test(point);
        if let Some(pixel) = hit {
            self.selected = pixel.cache;
        }
        hit
    }

    /// Changes the scale around a point. The pixel under the point becomes the
    /// selection and stays under it as far as the snapshot allows; a point over no
    /// pixel keeps the selection where it was.
    pub fn change_scale(&mut self, next: ZoomScale, point: ScreenPointPx)
        requires
            old(self).wf(),
        ensures
            final(self).wf(),
            final(self).spec_image() == old(self).spec_image(),
            final(self).spec_viewport() == old(self).spec_viewport(),
            final(self).spec_scale() == next,
            final(self).spec_selected() == (match old(self).hit(point) {
                Some(pixel) => pixel.cache,
                None => old(self).spec_selected(),
            }),
            final(self).spec_source() == rescaled_view(*old(self), next, point),
    {
        let (pixel, anchor) = match self.hit_test(point) {
            Some(pixel) => (pixel.cache, Some(point)),
            None => (self.selected, self.cell_center(self.selected)),
        };
        let source = match anchor {
            Some(anchor) => anchored_source(&self.image, self.viewport, next, pixel, anchor),
            None => centered_source(&self.image, self.viewport, next, pixel),
        };
        self.scale = next;
        self.selected = pixel;
        self.source = source;
    }
}

/// Why a view cannot be made, if it cannot.
pub open spec fn view_fault(
    image: FrozenImage,
    viewport: ScreenRectPx,
    focus: CachePoint,
) -> Option<ZoomError> {
    match image.fault() {
        Some(error) => Some(ZoomError::InvalidImage(error)),
        None => if viewport.empty() {
            Some(ZoomError::EmptyViewport)
        } else if !image.has(focus.x as int, focus.y as int) {
            Some(ZoomError::InvalidFocus)
        } else {
            None
        },
    }
}

/// The part of the snapshot shown after a change of scale around a point.
pub open spec fn rescaled_view(view: ZoomView, next: ZoomScale, point: ScreenPointPx) -> SourceView {
    match view.hit(point) {
        Some(pixel) => anchored_view(
            view.spec_image(),
            view.spec_viewport(),
            next,
            pixel.cache,
            point,
        ),
        None => match view.center(view.spec_selected()) {
            Some(anchor) => anchored_view(
                view.spec_image(),
                view.spec_viewport(),
                next,
                view.spec_selected(),
                anchor,
            ),
            None => centered_view(
                view.spec_image(),
                view.spec_viewport(),
                next,
                view.spec_selected(),
            ),
        },
    }
}

proof fn lemma_area(image: FrozenImage, viewport: ScreenRectPx, scale: ZoomScale)
    requires
        !viewport.empty(),
    ensures
        drawn_area(image, viewport, scale).inside(viewport),
        drawn_area(image, viewport, scale).left == viewport.left + axis_margin(
            image.width as int,
            viewport.spec_width(),
            scale.cell(),
        ),
        drawn_area(image, viewport, scale).top == viewport.top + axis_margin(
            image.height as int,
            viewport.spec_height(),
            scale.cell(),
        ),
        drawn_area(image, viewport, scale).right == drawn_area(image, viewport, scale).left
            + axis_cells(image.width as int, viewport.spec_width(), scale.cell()) * scale.cell(),
        drawn_area(image, viewport, scale).bottom == drawn_area(image, viewport, scale).top
            + axis_cells(image.height as int, viewport.spec_height(), scale.cell()) * scale.cell(),
        0 <= axis_cells(image.width as int, viewport.spec_width(), scale.cell()) <= image.width,
        0 <= axis_cells(image.height as int, viewport.spec_height(), scale.cell()) <= image.height,
{
    lemma_axis(image.width as int, viewport.spec_width(), scale);
    lemma_axis(image.height as int, viewport.spec_height(), scale);
}

fn drawn_rect_of(image: &FrozenImage, viewport: ScreenRectPx, scale: ZoomScale) -> (r: ScreenRectPx)
    requires
        !viewport.empty(),
    ensures
        r == drawn_area(*image, viewport, scale),
{
    let (columns, margin_x) = axis_layout(image.width, viewport.width(), scale);
    let (rows, margin_y) = axis_layout(image.height, viewport.height(), scale);
    proof {
        lemma_axis(image.width as int, viewport.spec_width(), scale);
        lemma_axis(image.height as int, viewport.spec_height(), scale);
    }
    let factor: u32 = scale.factor();
    let left: i64 = viewport.left as i64 + margin_x as i64;
    let top: i64 = viewport.top as i64 + margin_y as i64;
    ScreenRectPx {
        left: left as i32,
        top: top as i32,
        right: (left + (columns * factor) as i64) as i32,
        bottom: (top + (rows * factor) as i64) as i32,
    }
}

fn centered_source(
    image: &FrozenImage,
    viewport: ScreenRectPx,
    scale: ZoomScale,
    focus: CachePoint,
) -> (r: SourceView)
    requires
        !viewport.empty(),
        image.has(focus.x as int, focus.y as int),
    ensures
        r == centered_view(*image, viewport, scale, focus),
        r.x + r.width <= image.width,
        r.y + r.height <= image.height,
        r.width > 0 ==> r.x <= focus.x < r.x + r.width,
        r.height > 0 ==> r.y <= focus.y < r.y + r.height,
{
    let (columns, _) = axis_layout(image.width, viewport.width(), scale);
    let (rows, _) = axis_layout(image.height, viewport.height(), scale);
    SourceView {
        x: center_axis(focus.x, columns, image.width),
        y: center_axis(focus.y, rows, image.height),
        width: columns,
        height: rows,
    }
}

fn anchored_source(
    image: &FrozenImage,
    viewport: ScreenRectPx,
    scale: ZoomScale,
    pixel: CachePoint,
    anchor: ScreenPointPx,
) -> (r: SourceView)
    requires
        !viewport.empty(),
        image.has(pixel.x as int, pixel.y as int),
    ensures
        r == anchored_view(*image, viewport, scale, pixel, anchor),
        r.x + r.width <= image.width,
        r.y + r.height <= image.height,
        r.width > 0 ==> r.x <= pixel.x < r.x + r.width,
        r.height > 0 ==> r.y <= pixel.y < r.y + r.height,
{
    let drawn = drawn_rect_of(image, viewport, scale);
    if !drawn.contains(anchor) {
        return centered_source(image, viewport, scale, pixel);
    }
    proof {
        lemma_area(*image, viewport, scale);
    }
    let (columns, _) = axis_layout(image.width, viewport.width(), scale);
    let (rows, _) = axis_layout(image.height, viewport.height(), scale);
    let distance_x: u32 = (anchor.x as i64 - drawn.left as i64) as u32;
    let distance_y: u32 = (anchor.y as i64 - drawn.top as i64) as u32;
    SourceView {
        x: anchor_axis(pixel.x, distance_x, scale, columns, image.width),
        y: anchor_axis(pixel.y, distance_y, scale, rows, image.height),
        width: columns,
        height: rows,
    }
}

/// Every shown pixel is found again at the middle of its cell.
pub proof fn centers_map_back(view: ZoomView, cache: CachePoint)
    requires
        view.wf(),
        shows(view.spec_source(), cache),
    ensures
        view.center(cache) is Some,
        view.hit(view.center(cache)->0) == Some(view.spec_image().pixel(cache)),
{
    view.lemma_drawn();
    lemma_center_of(cache.x - view.spec_source().x, view.columns(), view.spec_scale());
    lemma_center_of(cache.y - view.spec_source().y, view.rows(), view.spec_scale());
}

/// Every point of one cell shows the same pixel: two points that are equally many
/// whole cells from the drawn edge are over the same source pixel.
pub proof fn cells_are_uniform(view: ZoomView, a: ScreenPointPx, b: ScreenPointPx)
    requires
        view.wf(),
        view.drawn().spec_contains(a),
        view.drawn().spec_contains(b),
        (a.x - view.drawn().left) / view.spec_scale().cell() == (b.x - view.drawn().left)
            / view.spec_scale().cell(),
        (a.y - view.drawn().top) / view.spec_scale().cell() == (b.y - view.drawn().top)
            / view.spec_scale().cell(),
    ensures
        view.hit(a) == view.hit(b),
{
}

/// A change of scale keeps the pixel under the cursor where it is, as long as the
/// cursor stays over the drawn cells and the snapshot reaches far enough to both
/// sides.
pub proof fn zooming_keeps_the_pixel_under_the_cursor(
    before: ZoomView,
    after: ZoomView,
    point: ScreenPointPx,
)
    requires
        before.wf(),
        after.wf(),
        after.spec_image() == before.spec_image(),
        after.spec_viewport() == before.spec_viewport(),
        after.spec_source() == rescaled_view(before, after.spec_scale(), point),
        before.hit(point) is Some,
        after.drawn().spec_contains(point),
        0 <= before.hit(point)->0.cache.x - (point.x - after.drawn().left)
            / after.spec_scale().cell() <= before.spec_image().width - after.columns(),
        0 <= before.hit(point)->0.cache.y - (point.y - after.drawn().top)
            / after.spec_scale().cell() <= before.spec_image().height - after.rows(),
    ensures
        after.hit(point) == before.hit(point),
{
    before.lemma_drawn();
    after.lemma_drawn();
    lemma_cell_of(point.x - before.drawn().left, before.columns(), before.spec_scale());
    lemma_cell_of(point.y - before.drawn().top, before.rows(), before.spec_scale());
    lemma_cell_of(point.x - after.drawn().left, after.columns(), after.spec_scale());
    lemma_cell_of(point.y - after.drawn().top, after.rows(), after.spec_scale());
}

/// The drawn cells are complete: they fill whole multiples of the scale, inside
/// the viewport.
pub proof fn drawn_cells_are_complete(view: ZoomView)
    requires
        view.wf(),
    ensures
        view.drawn().inside(view.spec_viewport()),
        view.drawn().right - view.drawn().left == view.spec_source().width
            * view.spec_scale().cell(),
        view.drawn().bottom - view.drawn().top == view.spec_source().height
            * view.spec_scale().cell(),
{
    view.lemma_drawn();
}

/// The middle of a shown cell is its first pixel plus half a cell, without any
/// rounding.
pub proof fn centers_are_exact(view: ZoomView, cache: CachePoint)
    requires
        view.wf(),
        shows(view.spec_source(), cache),
    ensures
        view.center(cache)->0.x == view.drawn().left + (cache.x - view.spec_source().x)
            * view.spec_scale().cell() + view.spec_scale().cell() / 2,
        view.center(cache)->0.y == view.drawn().top + (cache.y - view.spec_source().y)
            * view.spec_scale().cell() + view.spec_scale().cell() / 2,
{
    view.lemma_drawn();
    lemma_center_of(cache.x - view.spec_source().x, view.columns(), view.spec_scale());
    lemma_center_of(cache.y - view.spec_source().y, view.rows(), view.spec_scale());
}

/// Distance of two positions.
pub open spec fn off_by(a: int, b: int) -> int {
    if a >= b {
        a - b
    } else {
        b - a
    }
}

/// The scales are four, eight, sixteen and thirty-two: they begin at four, every
/// step up doubles up to the last, and below the first there is none.
pub proof fn scales_run_from_four_to_thirty_two(scale: ZoomScale)
    ensures
        ZoomScale::X4.cell() == 4,
        ZoomScale::X4.next().next().next().cell() == 32,
        ZoomScale::X4.previous() is None,
        scale.previous() is None ==> scale.cell() == 4,
        scale.next().cell() == (if scale.cell() == 32 {
            32
        } else {
            2 * scale.cell()
        }),
        scale.previous() matches Some(smaller) ==> 2 * smaller.cell() == scale.cell(),
{
}

/// A view shows as many complete cells as the snapshot has and the viewport holds,
/// and leaves equal margins at both sides, up to one pixel.
pub proof fn drawn_cells_fill_the_viewport(view: ZoomView)
    requires
        view.wf(),
    ensures
        ({
            let (drawn, viewport) = (view.drawn(), view.spec_viewport());
            let (source, image) = (view.spec_source(), view.spec_image());
            let cell = view.spec_scale().cell();
            &&& source.width == image.width || viewport.right - viewport.left < (source.width + 1)
                * cell
            &&& source.height == image.height || viewport.bottom - viewport.top < (source.height
                + 1) * cell
            &&& 0 <= (viewport.right - drawn.right) - (drawn.left - viewport.left) <= 1
            &&& 0 <= (viewport.bottom - drawn.bottom) - (drawn.top - viewport.top) <= 1
        }),
{
    view.lemma_drawn();
    match view.spec_scale() {
        ZoomScale::X4 => {},
        ZoomScale::X8 => {},
        ZoomScale::X16 => {},
        ZoomScale::X32 => {},
    }
}

/// A pixel that is to be in the middle stands there, with half of the cells before
/// it, wherever the snapshot reaches far enough; elsewhere no other part of the
/// snapshot brings it nearer to the middle.
pub proof fn centred_pixels_stand_in_the_middle(focus: int, cells: int, image: int, other: int)
    requires
        0 <= focus < image,
        0 <= cells <= image,
        0 <= other <= image - cells,
    ensures
        ({
            let start = centered_start(focus, cells, image);
            &&& 0 <= start <= image - cells
            &&& off_by(focus - start, cells / 2) <= off_by(focus - other, cells / 2)
            &&& cells / 2 <= focus && focus - cells / 2 + cells <= image ==> focus - start == cells
                / 2
        }),
{
}

/// A pixel that is to stand under a point stands in the cell there wherever the
/// snapshot reaches far enough; elsewhere no other part of the snapshot brings it
/// nearer.
pub proof fn anchored_pixels_stand_under_their_point(
    pixel: int,
    distance: int,
    scale: ZoomScale,
    cells: int,
    image: int,
    other: int,
)
    requires
        0 <= pixel < image,
        0 <= cells <= image,
        0 <= distance < cells * scale.cell(),
        0 <= other <= image - cells,
    ensures
        ({
            let start = anchored_start(pixel, distance, scale.cell(), cells, image);
            let column = distance / scale.cell();
            &&& 0 <= start <= image - cells
            &&& off_by(pixel - start, column) <= off_by(pixel - other, column)
            &&& column <= pixel && pixel - column + cells <= image ==> pixel - start == column
        }),
{
    lemma_cell_of(distance, cells, scale);
}

/// What a point hits is the pixel in whose cell it lies, with its place on the
/// desktop and its colour: blue, green and red are the first three of the four bytes
/// of the pixel.
pub proof fn hits_name_their_pixel(view: ZoomView, point: ScreenPointPx)
    requires
        view.wf(),
    ensures
        view.hit(point) is Some <==> view.drawn().spec_contains(point),
        view.hit(point) matches Some(pixel) ==> {
            let (drawn, source) = (view.drawn(), view.spec_source());
            let cell = view.spec_scale().cell();
            let image = view.spec_image();
            let first = pixel.cache.y * image.stride_bytes + pixel.cache.x * 4;
            &&& drawn.left + (pixel.cache.x - source.x) * cell <= point.x
            &&& point.x < drawn.left + (pixel.cache.x - source.x) * cell + cell
            &&& drawn.top + (pixel.cache.y - source.y) * cell <= point.y
            &&& point.y < drawn.top + (pixel.cache.y - source.y) * cell + cell
            &&& pixel.source.x == image.origin.x + pixel.cache.x
            &&& pixel.source.y == image.origin.y + pixel.cache.y
            &&& pixel.rgb.b == image.bgrx@[first]
            &&& pixel.rgb.g == image.bgrx@[first + 1]
            &&& pixel.rgb.r == image.bgrx@[first + 2]
        },
{
    if view.drawn().spec_contains(point) {
        view.lemma_drawn();
        let cell = view.spec_scale().cell();
        let dx = point.x - view.drawn().left;
        let dy = point.y - view.drawn().top;
        lemma_cell_of(dx, view.columns(), view.spec_scale());
        lemma_cell_of(dy, view.rows(), view.spec_scale());
        match view.spec_scale() {
            ZoomScale::X4 => {},
            ZoomScale::X8 => {},
            ZoomScale::X16 => {},
            ZoomScale::X32 => {},
        }
    }
}

/// A change of scale around a point over no pixel keeps the selected pixel where it
/// is: it stands under the middle of the cell that showed it, under the same
/// conditions as a pixel under the cursor.
pub proof fn zooming_beside_the_pixels_keeps_the_selection(
    before: ZoomView,
    after: ZoomView,
    point: ScreenPointPx,
)
    requires
        before.wf(),
        after.wf(),
        after.spec_image() == before.spec_image(),
        after.spec_viewport() == before.spec_viewport(),
        after.spec_source() == rescaled_view(before, after.spec_scale(), point),
        before.hit(point) is None,
        before.center(before.spec_selected()) is Some,
        after.drawn().spec_contains(before.center(before.spec_selected())->0),
        0 <= before.spec_selected().x - (before.center(before.spec_selected())->0.x
            - after.drawn().left) / after.spec_scale().cell() <= before.spec_image().width
            - after.columns(),
        0 <= before.spec_selected().y - (before.center(before.spec_selected())->0.y
            - after.drawn().top) / after.spec_scale().cell() <= before.spec_image().height
            - after.rows(),
    ensures
        after.hit(before.center(before.spec_selected())->0) == Some(
            before.spec_image().pixel(before.spec_selected()),
        ),
{
    let anchor = before.center(before.spec_selected())->0;
    before.lemma_drawn();
    after.lemma_drawn();
    lemma_cell_of(anchor.x - after.drawn().left, after.columns(), after.spec_scale());
    lemma_cell_of(anchor.y - after.drawn().top, after.rows(), after.spec_scale());
}

/// A snapshot can be used exactly where it has pixels, its rows hold them, its bytes
/// hold the rows, and its pixels have places on the desktop.
pub proof fn usable_snapshots_are_complete(image: FrozenImage)
    ensures
        image.fault() is None <==> {
            &&& image.width > 0 && image.height > 0
            &&& image.width * 4 <= image.stride_bytes
            &&& image.stride_bytes * image.height <= image.bgrx@.len()
            &&& image.origin.x + image.width <= i32::MAX
            &&& image.origin.y + image.height <= i32::MAX
        },
{
}

/// A view around a pixel in the middle, or under an anchor over its cells, treats each
/// axis by itself: whatever happens along the other one, no other part of the snapshot
/// brings the pixel's column, or its row, nearer to where it is to stand. An anchor
/// beside the cells counts as none.
pub proof fn views_place_each_axis_by_itself(
    image: FrozenImage,
    viewport: ScreenRectPx,
    scale: ZoomScale,
    pixel: CachePoint,
    anchor: ScreenPointPx,
    other: CachePoint,
)
    requires
        !viewport.empty(),
        image.has(pixel.x as int, pixel.y as int),
        other.x <= image.width - axis_cells(
            image.width as int,
            viewport.spec_width(),
            scale.cell(),
        ),
        other.y <= image.height - axis_cells(
            image.height as int,
            viewport.spec_height(),
            scale.cell(),
        ),
    ensures
        ({
            let middle = centered_view(image, viewport, scale, pixel);
            let under = anchored_view(image, viewport, scale, pixel, anchor);
            let drawn = drawn_area(image, viewport, scale);
            let (columns, rows) = (middle.width as int, middle.height as int);
            let column = (anchor.x - drawn.left) / scale.cell();
            let row = (anchor.y - drawn.top) / scale.cell();
            &&& columns == image.width || viewport.spec_width() < (columns + 1) * scale.cell()
            &&& rows == image.height || viewport.spec_height() < (rows + 1) * scale.cell()
            &&& middle.x + columns <= image.width && middle.y + rows <= image.height
            &&& off_by(pixel.x - middle.x, columns / 2) <= off_by(pixel.x - other.x, columns / 2)
            &&& off_by(pixel.y - middle.y, rows / 2) <= off_by(pixel.y - other.y, rows / 2)
            &&& under.width == columns && under.height == rows
            &&& under.x + columns <= image.width && under.y + rows <= image.height
            &&& drawn.spec_contains(anchor) ==> {
                &&& off_by(pixel.x - under.x, column) <= off_by(pixel.x - other.x, column)
                &&& off_by(pixel.y - under.y, row) <= off_by(pixel.y - other.y, row)
            }
            &&& !drawn.spec_contains(anchor) ==> under == middle
        }),
{
    lemma_area(image, viewport, scale);
    lemma_axis(image.width as int, viewport.spec_width(), scale);
    lemma_axis(image.height as int, viewport.spec_height(), scale);
    match scale {
        ZoomScale::X4 => {},
        ZoomScale::X8 => {},
        ZoomScale::X16 => {},
        ZoomScale::X32 => {},
    }
}

/// A change of scale keeps the pixel under the point where it is, and else the selected
/// one where it is shown, and else brings the selected one to the middle; each as near
/// as the snapshot allows.
pub proof fn rescaling_keeps_what_is_pointed_at(
    view: ZoomView,
    next: ZoomScale,
    point: ScreenPointPx,
)
    requires
        view.wf(),
    ensures
        ({
            let (image, viewport) = (view.spec_image(), view.spec_viewport());
            let kept = view.spec_selected();
            let after = rescaled_view(view, next, point);
            &&& view.drawn().spec_contains(point) ==> after == anchored_view(
                image,
                viewport,
                next,
                view.hit(point)->0.cache,
                point,
            )
            &&& !view.drawn().spec_contains(point) && shows(view.spec_source(), kept) ==> after
                == anchored_view(image, viewport, next, kept, view.center(kept)->0)
            &&& !view.drawn().spec_contains(point) && !shows(view.spec_source(), kept) ==> after
                == centered_view(image, viewport, next, kept)
        }),
{
}

/// A view can be made exactly of a usable snapshot, in a viewport with room, around a
/// pixel that the snapshot has; an unusable snapshot is told first.
pub proof fn views_need_a_pixel_and_room(
    image: FrozenImage,
    viewport: ScreenRectPx,
    focus: CachePoint,
)
    ensures
        view_fault(image, viewport, focus) is None <==> image.fault() is None && viewport.left
            < viewport.right && viewport.top < viewport.bottom && focus.x < image.width && focus.y
            < image.height,
        image.fault() matches Some(error) ==> view_fault(image, viewport, focus) == Some(
            ZoomError::InvalidImage(error),
        ),
        view_fault(image, viewport, focus) == Some(ZoomError::EmptyViewport) ==> viewport.empty(),
        view_fault(image, viewport, focus) == Some(ZoomError::InvalidFocus) ==> focus.x
            >= image.width || focus.y >= image.height,
{
}

} // verus!
