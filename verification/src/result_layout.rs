//! Where the parts of the result window go.
use crate::arith::{clamp_i32, clamped, fits_i32, greater, lesser, max_i32, min_i32, quotient};
use crate::config::MAX_BORDER_WIDTH_DIP;
use crate::drawing::{
    border_px, border_thickness, dip, dip_is_monotone, dip_px, lengths_scale_to_the_nearest_pixel,
};
use crate::geometry::{Rect, ScreenPointPx};
use crate::layout::{
    fit_rect, fitted, non_negative_minimum_always_computes, revealed_controls_are_visible,
    revealing_offset, scroll_limit, SheetLayout, Unavailable,
};
use vstd::prelude::*;

verus! {

/// Preferred size of the client area in device-independent pixels.
pub const CLIENT_WIDTH: i32 = 420;

pub const CLIENT_HEIGHT: i32 = 364;

/// Preferred height while an error is shown.
pub const CLIENT_HEIGHT_WITH_STATUS: i32 = 390;

/// Height of the colour field at the top.
pub const SWATCH_HEIGHT: i32 = 112;

/// A place as native moving takes it.
#[derive(Debug, Clone, Copy, PartialEq, Eq, Structural)]
pub struct Place {
    pub x: i32,
    pub y: i32,
    pub width: i32,
    pub height: i32,
}

/// A length of up to two thousand device-independent pixels on any supported
/// display has its exact value, and is small.
pub proof fn lemma_dip(value: i32, dpi: u32)
    requires
        0 <= value <= 2000,
        dpi <= 9600,
    ensures
        dip(value, dpi) == dip_px(value as int, dpi as int),
        0 <= dip(value, dpi) <= 100 * value,
{
    dip_is_monotone(value as int, value as int, dpi as int, 9600);
}

/// The controls in the scrolling part, in device-independent pixels: the source
/// line and, for every notation, its name, its value and its copy button.
#[derive(Debug, Clone, Copy)]
pub struct ResultContentLayout {
    pub source: Rect,
    pub rows: [[Rect; 3]; 4],
    pub height: i32,
}

/// A rectangle from its corner and its size.
pub open spec fn sized(x: int, y: int, width: int, height: int) -> Rect {
    Rect {
        left: x as i32,
        top: y as i32,
        right: (x + width) as i32,
        bottom: (y + height) as i32,
    }
}

pub open spec fn narrow_rows(width: int) -> bool {
    width < 360
}

pub open spec fn row_height(width: int) -> int {
    if narrow_rows(width) {
        58
    } else {
        36
    }
}

pub open spec fn row_top(width: int) -> int {
    if narrow_rows(width) {
        52
    } else {
        44
    }
}

/// Height of the scrolling content.
pub open spec fn content_height(width: int) -> int {
    row_top(width) + 4 * row_height(width) + 8
}

/// The source line.
pub open spec fn source_rect(width: int) -> Rect {
    sized(
        16,
        12,
        width - 32,
        if narrow_rows(width) {
            36
        } else {
            22
        },
    )
}

/// The name, value or copy button of a row. Narrow rows put the value below.
pub open spec fn row_rect(width: int, row: int, column: int) -> Rect {
    let y = row_top(width) + row * row_height(width);
    if narrow_rows(width) {
        if column == 0 {
            sized(16, y + 4, 68, 18)
        } else if column == 1 {
            sized(16, y + 28, width - 32, 24)
        } else {
            sized(width - 64, y, 48, 26)
        }
    } else {
        if column == 0 {
            sized(16, y + 9, 60, 18)
        } else if column == 1 {
            sized(84, y + 7, width - 160, 22)
        } else {
            sized(width - 64, y + 4, 48, 28)
        }
    }
}

pub fn rect_at(x: i32, y: i32, width: i32, height: i32) -> (r: Rect)
    requires
        fits_i32(x + width),
        fits_i32(y + height),
    ensures
        r == sized(x as int, y as int, width as int, height as int),
{
    Rect { left: x, top: y, right: x + width, bottom: y + height }
}

fn row_rects(width: i32, row: i32) -> (r: [Rect; 3])
    requires
        width >= i32::MIN + 160,
        0 <= row < 4,
    ensures
        forall|column: int|
            0 <= column < 3 ==> #[trigger] r@[column] == row_rect(width as int, row as int, column),
{
    if width < 360 {
        let y: i32 = 52 + row * 58;
        [
            rect_at(16, y + 4, 68, 18),
            rect_at(16, y + 28, width - 32, 24),
            rect_at(width - 64, y, 48, 26),
        ]
    } else {
        let y: i32 = 44 + row * 36;
        [
            rect_at(16, y + 9, 60, 18),
            rect_at(84, y + 7, width - 160, 22),
            rect_at(width - 64, y + 4, 48, 28),
        ]
    }
}

/// Lays the scrolling content out for a width in device-independent pixels.
pub fn result_content_layout(width: i32) -> (r: ResultContentLayout)
    requires
        width >= i32::MIN + 160,
    ensures
        r.source == source_rect(width as int),
        forall|row: int, column: int|
            0 <= row < 4 && 0 <= column < 3 ==> #[trigger] r.rows@[row]@[column] == row_rect(
                width as int,
                row,
                column,
            ),
        r.height == content_height(width as int),
{
    let narrow = width < 360;
    ResultContentLayout {
        source: rect_at(
            16,
            12,
            width - 32,
            if narrow {
                36
            } else {
                22
            },
        ),
        rows: [row_rects(width, 0), row_rects(width, 1), row_rects(width, 2), row_rects(width, 3)],
        height: if narrow {
            292
        } else {
            196
        },
    }
}

/// At every supported width each control of the content has a size, lies inside
/// the content, and is low enough to be revealed completely in the smallest
/// viewport of 64 with a padding of 8.
pub proof fn result_content_fits(width: int, row: int, column: int)
    requires
        220 <= width <= i32::MAX,
        0 <= row < 4,
        0 <= column < 3,
    ensures
        content_rect_fits(source_rect(width), width),
        content_rect_fits(row_rect(width, row, column), width),
{
    assert(0 <= row * 58 <= 3 * 58 && 0 <= row * 36 <= 3 * 36);
}

/// Whether a control lies inside the content and can be revealed.
pub open spec fn content_rect_fits(rect: Rect, width: int) -> bool {
    &&& 0 <= rect.left < rect.right <= width
    &&& 0 <= rect.top < rect.bottom <= content_height(width)
    &&& rect.bottom - rect.top + 2 * 8 <= 64
}

/// The rows do not overlap: each ends where the next begins, and inside a row the
/// name, the value and the button keep apart.
pub proof fn result_rows_keep_apart(width: int, row: int, column: int, next: int)
    requires
        220 <= width <= i32::MAX,
        0 <= row < 3,
        0 <= column < 3,
        0 <= next < 3,
    ensures
        row_rect(width, row, column).bottom <= row_rect(width, row + 1, next).top,
        !narrow_rows(width) ==> row_rect(width, row, 0).right <= row_rect(width, row, 1).left
            && row_rect(width, row, 1).right <= row_rect(width, row, 2).left,
        narrow_rows(width) ==> row_rect(width, row, 0).right <= row_rect(width, row, 2).left
            && row_rect(width, row, 2).bottom <= row_rect(width, row, 1).top,
{
}

/// A caption button: closing at the right, minimizing left of it.
pub open spec fn caption_button(minimize: bool, width: int, dpi: u32) -> Rect {
    let right = width - dip(
        if minimize {
            44
        } else {
            6
        },
        dpi,
    );
    Rect {
        left: (right - dip(36, dpi)) as i32,
        top: dip(6, dpi),
        right: right as i32,
        bottom: dip(36, dpi),
    }
}

pub fn caption_button_rect(minimize: bool, width: i32, dpi: u32) -> (r: Rect)
    requires
        width >= i32::MIN + 200_000,
        dpi <= 9600,
    ensures
        r == caption_button(minimize, width as int, dpi),
{
    proof {
        lemma_dip(44, dpi);
        lemma_dip(6, dpi);
        lemma_dip(36, dpi);
    }
    let right: i32 = width - dip(
        if minimize {
            44
        } else {
            6
        },
        dpi,
    );
    Rect { left: right - dip(36, dpi), top: dip(6, dpi), right, bottom: dip(36, dpi) }
}

/// What part of the window a point of its client area stands for.
#[derive(Debug, Clone, Copy, PartialEq, Eq, Structural)]
pub enum CaptionHit {
    Client,
    Caption,
}

/// The colour field moves the window like a caption, except under its buttons.
pub open spec fn caption_hit(
    point: ScreenPointPx,
    client: Rect,
    dpi: u32,
    header_height: i32,
) -> CaptionHit {
    let x = point.x as int;
    let y = point.y as int;
    if caption_button(true, client.right as int, dpi).has(x, y) || caption_button(
        false,
        client.right as int,
        dpi,
    ).has(x, y) {
        CaptionHit::Client
    } else if client.has(x, y) && y < header_height {
        CaptionHit::Caption
    } else {
        CaptionHit::Client
    }
}

fn holds(rect: Rect, point: ScreenPointPx) -> (r: bool)
    ensures
        r == rect.has(point.x as int, point.y as int),
{
    point.x >= rect.left && point.x < rect.right && point.y >= rect.top && point.y < rect.bottom
}

pub fn caption_hit_test(point: ScreenPointPx, client: Rect, dpi: u32, header_height: i32) -> (r:
    CaptionHit)
    requires
        client.right >= i32::MIN + 200_000,
        dpi <= 9600,
    ensures
        r == caption_hit(point, client, dpi, header_height),
{
    if holds(caption_button_rect(true, client.right, dpi), point) || holds(
        caption_button_rect(false, client.right, dpi),
        point,
    ) {
        return CaptionHit::Client;
    }
    if holds(client, point) && point.y < header_height {
        CaptionHit::Caption
    } else {
        CaptionHit::Client
    }
}

/// The smallest usable window.
pub open spec fn minimum_extent(status_visible: bool, dpi: u32) -> (i32, i32) {
    (
        dip(240, dpi),
        dip(
            if status_visible {
                262
            } else {
                206
            },
            dpi,
        ),
    )
}

pub fn minimum_size(status_visible: bool, dpi: u32) -> (r: (i32, i32))
    requires
        dpi <= 9600,
    ensures
        r == minimum_extent(status_visible, dpi),
        r.0 >= 0,
        r.1 >= 0,
{
    proof {
        lemma_dip(240, dpi);
        lemma_dip(262, dpi);
        lemma_dip(206, dpi);
    }
    (
        dip(240, dpi),
        dip(
            if status_visible {
                262
            } else {
                206
            },
            dpi,
        ),
    )
}

/// Sum of two coordinates, held at the ends of the 32-bit range.
pub open spec fn held_sum(a: int, b: int) -> int {
    clamped(a + b, i32::MIN as int, i32::MAX as int)
}

fn saturating_sum(a: i32, b: i32) -> (r: i32)
    ensures
        r == held_sum(a as int, b as int),
{
    let wide: i64 = a as i64 + b as i64;
    if wide < i32::MIN as i64 {
        i32::MIN
    } else if wide > i32::MAX as i64 {
        i32::MAX
    } else {
        wide as i32
    }
}

/// The window that is asked for at a corner, before it is fitted.
pub open spec fn preferred_window(left: i32, top: i32, status_visible: bool, dpi: u32) -> Rect {
    Rect {
        left,
        top,
        right: held_sum(left as int, dip(CLIENT_WIDTH, dpi) as int) as i32,
        bottom: held_sum(
            top as int,
            dip(
                if status_visible {
                    CLIENT_HEIGHT_WITH_STATUS
                } else {
                    CLIENT_HEIGHT
                },
                dpi,
            ) as int,
        ) as i32,
    }
}

/// Fits the preferred window at a corner into a work area.
pub fn fit_window(left: i32, top: i32, work: Rect, status_visible: bool, dpi: u32) -> (r: Result<
    Rect,
    Unavailable,
>)
    requires
        dpi <= 9600,
    ensures
        r == (match fitted(
            preferred_window(left, top, status_visible, dpi),
            work,
            minimum_extent(status_visible, dpi),
        ) {
            Some(rect) => Ok(rect),
            None => Err(Unavailable),
        }),
{
    let request = Rect {
        left,
        top,
        right: saturating_sum(left, dip(CLIENT_WIDTH, dpi)),
        bottom: saturating_sum(
            top,
            dip(
                if status_visible {
                    CLIENT_HEIGHT_WITH_STATUS
                } else {
                    CLIENT_HEIGHT
                },
                dpi,
            ),
        ),
    };
    fit_within(request, work, minimum_size(status_visible, dpi))
}

/// Fits a requested window into a work area, or says that it is too small.
pub fn fit_within(request: Rect, work: Rect, minimum: (i32, i32)) -> (r: Result<Rect, Unavailable>)
    requires
        minimum.0 >= 0,
        minimum.1 >= 0,
    ensures
        r == (match fitted(request, work, minimum) {
            Some(rect) => Ok(rect),
            None => Err(Unavailable),
        }),
{
    proof {
        if fitted(request, work, minimum) is Some {
            non_negative_minimum_always_computes(request, work, minimum);
        }
    }
    match fit_rect(request, work, minimum) {
        Some(rect) => Ok(rect),
        None => Err(Unavailable),
    }
}

/// The pixel in the middle of a work area, where a hidden window takes on the DPI
/// of its display.
pub fn work_center(work: Rect) -> (r: ScreenPointPx)
    ensures
        r.x == quotient(work.left + work.right, 2),
        r.y == quotient(work.top + work.bottom, 2),
{
    ScreenPointPx {
        x: ((work.left as i64 + work.right as i64) / 2) as i32,
        y: ((work.top as i64 + work.bottom as i64) / 2) as i32,
    }
}

/// The complete placement of the result window.
#[derive(Debug, Clone, Copy)]
pub struct ResultPlan {
    pub header_height: i32,
    pub viewport_height: i32,
    pub content_height: i32,
    pub offset: i32,
    pub swatch: Place,
    pub viewport: Place,
    pub minimize: Rect,
    pub caption_close: Rect,
    pub source: Place,
    pub rows: [[Place; 3]; 4],
    pub default_copy: Place,
    pub pick_again: Place,
    pub close: Place,
    pub status: Place,
}

/// The measures that a layout works with.
#[derive(Debug, Clone, Copy, PartialEq, Eq, Structural)]
pub struct ResultClient {
    pub width: i32,
    pub height: i32,
    pub dpi: u32,
    pub border_width_dip: u8,
    pub status_visible: bool,
}

impl ResultClient {
    /// A client area on a supported display, whose width in device-independent
    /// pixels and whose lowest control have representable places.
    pub open spec fn wf(&self) -> bool {
        &&& 0 <= self.width
        &&& 0 <= self.height
        &&& 0 < self.dpi <= 9600
        &&& self.width * 96 / self.dpi as int <= i32::MAX
        &&& self.status_y() <= i32::MAX
    }

    /// Whether this client area can be laid out.
    pub fn is_representable(&self) -> (r: bool)
        ensures
            r == self.wf(),
    {
        if self.width < 0 || self.height < 0 || self.dpi == 0 || self.dpi > 9600 {
            return false;
        }
        proof {
            lemma_result_dips(self.dpi);
        }
        let narrow = self.width < dip(400, self.dpi);
        let footer: i32 = dip(
            (if narrow {
                94i32
            } else {
                54i32
            }) + (if self.status_visible {
                56i32
            } else {
                0i32
            }),
            self.dpi,
        );
        let row: i64 = dip(40, self.dpi) as i64;
        let rows: i64 = if narrow {
            2 * row
        } else {
            row
        };
        let status_y: i64 = self.height as i64 - footer as i64 + dip(8, self.dpi) as i64 + rows;
        self.width as i64 * 96 / self.dpi as i64 <= i32::MAX as i64 && status_y <= i32::MAX as i64
    }

    /// Whether the action buttons stand in two rows.
    pub open spec fn narrow(&self) -> bool {
        self.width < dip(400, self.dpi)
    }

    /// Height of the part below the content.
    pub open spec fn footer(&self) -> int {
        dip(
            ((if self.narrow() {
                94int
            } else {
                54
            }) + (if self.status_visible {
                56int
            } else {
                0
            })) as i32,
            self.dpi,
        ) as int
    }

    /// Height of the colour field: less than preferred where the window is low.
    pub open spec fn header(&self) -> int {
        lesser(
            dip(SWATCH_HEIGHT, self.dpi) as int,
            self.height - self.footer() - dip(64, self.dpi),
        )
    }

    /// Whether the window can show its controls.
    pub open spec fn usable(&self) -> bool {
        self.header() >= dip(48, self.dpi) && self.width >= dip(240, self.dpi)
    }

    pub open spec fn viewport_height(&self) -> int {
        self.height - self.footer() - self.header()
    }

    /// Width left of the border.
    pub open spec fn inner_width(&self) -> int {
        self.width - border_px(
            self.width as int,
            self.height as int,
            self.dpi,
            self.border_width_dip,
        )
    }

    /// Width of the content in device-independent pixels. Room for the scroll bar
    /// is always kept, so that rows do not change as the bar appears.
    pub open spec fn content_width(&self) -> int {
        self.width * 96 / self.dpi as int - 20
    }

    pub open spec fn content_height_px(&self) -> int {
        dip(content_height(self.content_width()) as i32, self.dpi) as int
    }

    /// The scroll offset held to the content.
    pub open spec fn held_offset(&self, offset: int) -> int {
        clamped(offset, 0, greater(self.content_height_px() - self.viewport_height(), 0))
    }

    /// A content control in physical pixels, scrolled.
    pub open spec fn scrolled(&self, rect: Rect, offset: int) -> Place {
        Place {
            x: dip(rect.left, self.dpi),
            y: (dip(rect.top, self.dpi) - self.held_offset(offset)) as i32,
            width: dip((rect.right - rect.left) as i32, self.dpi),
            height: dip((rect.bottom - rect.top) as i32, self.dpi),
        }
    }

    pub open spec fn margin(&self) -> int {
        dip(16, self.dpi) as int
    }

    pub open spec fn gap(&self) -> int {
        dip(12, self.dpi) as int
    }

    /// First row of action buttons.
    pub open spec fn action_y(&self) -> int {
        self.height - self.footer() + dip(8, self.dpi)
    }

    /// Width of the action area.
    pub open spec fn action_width(&self) -> int {
        self.width - 2 * self.margin()
    }

    pub open spec fn button(&self, x: int, y: int, width: int) -> Place {
        Place { x: x as i32, y: y as i32, width: width as i32, height: dip(32, self.dpi) }
    }

    /// Half of the action area, without the gap.
    pub open spec fn half(&self) -> int {
        quotient(self.action_width() - self.gap(), 2)
    }

    pub open spec fn default_copy(&self) -> Place {
        if self.narrow() {
            self.button(self.margin(), self.action_y(), self.action_width())
        } else {
            self.button(
                self.margin(),
                self.action_y(),
                self.action_width() - dip(64, self.dpi) - dip(126, self.dpi) - 2 * self.gap(),
            )
        }
    }

    pub open spec fn pick_again(&self) -> Place {
        if self.narrow() {
            self.button(self.margin(), self.action_y() + dip(40, self.dpi), self.half())
        } else {
            self.button(
                self.width - self.margin() - dip(64, self.dpi) - self.gap() - dip(126, self.dpi),
                self.action_y(),
                dip(126, self.dpi) as int,
            )
        }
    }

    pub open spec fn close(&self) -> Place {
        if self.narrow() {
            self.button(
                self.margin() + self.half() + self.gap(),
                self.action_y() + dip(40, self.dpi),
                self.action_width() - self.half() - self.gap(),
            )
        } else {
            self.button(
                self.width - self.margin() - dip(64, self.dpi),
                self.action_y(),
                dip(64, self.dpi) as int,
            )
        }
    }

    /// The status stands below the last row of action buttons.
    pub open spec fn status_y(&self) -> int {
        self.action_y() + dip(40, self.dpi) + (if self.narrow() {
            dip(40, self.dpi) as int
        } else {
            0
        })
    }

    pub open spec fn status(&self) -> Place {
        Place {
            x: self.margin() as i32,
            y: self.status_y() as i32,
            width: self.action_width() as i32,
            height: dip(44, self.dpi),
        }
    }
}

impl ResultPlan {
    /// Whether this is the plan for a client area and a scroll offset.
    pub open spec fn for_client(&self, client: ResultClient, offset: int) -> bool {
        &&& self.header_height == client.header()
        &&& self.viewport_height == client.viewport_height()
        &&& self.content_height == client.content_height_px()
        &&& self.offset == client.held_offset(offset)
        &&& self.swatch == (Place {
            x: 0,
            y: 0,
            width: client.inner_width() as i32,
            height: client.header() as i32,
        })
        &&& self.viewport == (Place {
            x: 0,
            y: client.header() as i32,
            width: client.inner_width() as i32,
            height: client.viewport_height() as i32,
        })
        &&& self.minimize == caption_button(true, client.width as int, client.dpi)
        &&& self.caption_close == caption_button(false, client.width as int, client.dpi)
        &&& self.source == client.scrolled(source_rect(client.content_width()), offset)
        &&& forall|row: int, column: int|
            0 <= row < 4 && 0 <= column < 3 ==> #[trigger] self.rows@[row]@[column]
                == client.scrolled(row_rect(client.content_width(), row, column), offset)
        &&& self.default_copy == client.default_copy()
        &&& self.pick_again == client.pick_again()
        &&& self.close == client.close()
        &&& self.status == client.status()
    }
}

fn place_scrolled(rect: Rect, client: ResultClient, offset: i32) -> (r: Place)
    requires
        client.wf(),
        0 <= rect.top <= 1000,
        fits_i32(rect.right - rect.left),
        fits_i32(rect.bottom - rect.top),
        0 <= offset <= 100_000,
    ensures
        r.x == dip(rect.left, client.dpi),
        r.y == dip(rect.top, client.dpi) - offset,
        r.width == dip((rect.right - rect.left) as i32, client.dpi),
        r.height == dip((rect.bottom - rect.top) as i32, client.dpi),
{
    proof {
        lemma_dip(rect.top, client.dpi);
    }
    Place {
        x: dip(rect.left, client.dpi),
        y: dip(rect.top, client.dpi) - offset,
        width: dip(rect.right - rect.left, client.dpi),
        height: dip(rect.bottom - rect.top, client.dpi),
    }
}

fn place_row(rects: [Rect; 3], client: ResultClient, offset: i32, Ghost(row): Ghost<int>) -> (r: [Place; 3])
    requires
        client.wf(),
        0 <= offset <= 100_000,
        0 <= row < 4,
        -20 <= client.content_width() <= i32::MAX,
        forall|column: int|
            0 <= column < 3 ==> #[trigger] rects@[column] == row_rect(
                client.content_width(),
                row,
                column,
            ),
    ensures
        forall|column: int|
            0 <= column < 3 ==> {
                let rect = row_rect(client.content_width(), row, column);
                &&& (#[trigger] r@[column]).x == dip(rect.left, client.dpi)
                &&& r@[column].y == dip(rect.top, client.dpi) - offset
                &&& r@[column].width == dip((rect.right - rect.left) as i32, client.dpi)
                &&& r@[column].height == dip((rect.bottom - rect.top) as i32, client.dpi)
            },
{
    assert(rects@[0] == row_rect(client.content_width(), row, 0));
    assert(rects@[1] == row_rect(client.content_width(), row, 1));
    assert(rects@[2] == row_rect(client.content_width(), row, 2));
    [
        place_scrolled(rects[0], client, offset),
        place_scrolled(rects[1], client, offset),
        place_scrolled(rects[2], client, offset),
    ]
}

/// The constant lengths of a result layout are exact and small.
proof fn lemma_result_dips(dpi: u32)
    requires
        0 < dpi <= 9600,
    ensures
        forall|value: i32|
            #![trigger dip(value, dpi)]
            0 <= value <= 1000 ==> dip(value, dpi) == dip_px(value as int, dpi as int) && 0 <= dip(
                value,
                dpi,
            ) <= 100_000,
        dip(240, dpi) >= 1,
{
    assert forall|value: i32|
        #![trigger dip(value, dpi)]
        0 <= value <= 1000 implies dip(value, dpi) == dip_px(value as int, dpi as int) && 0 <= dip(
        value,
        dpi,
    ) <= 100_000 by {
        lemma_dip(value, dpi);
    }
    lemma_dip(240, dpi);
}

fn content_width_dip(client: ResultClient) -> (r: i32)
    requires
        client.wf(),
    ensures
        r == client.content_width(),
        -20 <= r,
{
    let scaled: i64 = client.width as i64 * 96 / client.dpi as i64;
    proof {
        let w = client.width * 96;
        let d = client.dpi as int;
        assert(0 <= w / d <= w) by (nonlinear_arith)
            requires
                0 <= w,
                1 <= d,
        ;
    }
    scaled as i32 - 20
}

/// The three action buttons and the status below them.
struct ActionPlaces {
    default_copy: Place,
    pick_again: Place,
    close: Place,
    status: Place,
}

fn place_actions(client: ResultClient, top: i32) -> (r: ActionPlaces)
    requires
        client.wf(),
        client.usable(),
        top == client.height - client.footer(),
    ensures
        r.default_copy == client.default_copy(),
        r.pick_again == client.pick_again(),
        r.close == client.close(),
        r.status == client.status(),
{
    proof {
        lemma_result_dips(client.dpi);
    }
    let dpi: u32 = client.dpi;
    let margin: i32 = dip(16, dpi);
    let gap: i32 = dip(12, dpi);
    let y: i32 = top + dip(8, dpi);
    let width: i32 = client.width - 2 * margin;
    let button_height: i32 = dip(32, dpi);
    let status_height: i32 = dip(44, dpi);
    if client.width < dip(400, dpi) {
        let second_y: i32 = y + dip(40, dpi);
        let half: i32 = (width - gap) / 2;
        ActionPlaces {
            default_copy: Place { x: margin, y, width, height: button_height },
            pick_again: Place { x: margin, y: second_y, width: half, height: button_height },
            close: Place {
                x: margin + half + gap,
                y: second_y,
                width: width - half - gap,
                height: button_height,
            },
            status: Place {
                x: margin,
                y: second_y + dip(40, dpi),
                width,
                height: status_height,
            },
        }
    } else {
        let close_width: i32 = dip(64, dpi);
        let again_width: i32 = dip(126, dpi);
        ActionPlaces {
            default_copy: Place {
                x: margin,
                y,
                width: width - close_width - again_width - 2 * gap,
                height: button_height,
            },
            pick_again: Place {
                x: client.width - margin - close_width - gap - again_width,
                y,
                width: again_width,
                height: button_height,
            },
            close: Place {
                x: client.width - margin - close_width,
                y,
                width: close_width,
                height: button_height,
            },
            status: Place { x: margin, y: y + dip(40, dpi), width, height: status_height },
        }
    }
}

/// Lays the result window out. `scroll_offset` is held to the content.
pub fn result_layout(client: ResultClient, scroll_offset: i32) -> (r: Result<
    ResultPlan,
    Unavailable,
>)
    requires
        client.wf(),
    ensures
        r is Ok <==> client.usable(),
        r matches Ok(plan) ==> plan.for_client(client, scroll_offset as int),
{
    proof {
        lemma_result_dips(client.dpi);
    }
    let dpi: u32 = client.dpi;
    let narrow = client.width < dip(400, dpi);
    let footer_dip: i32 = (if narrow {
        94i32
    } else {
        54i32
    }) + (if client.status_visible {
        56i32
    } else {
        0i32
    });
    let footer: i32 = dip(footer_dip, dpi);
    let header: i32 = min_i32(dip(SWATCH_HEIGHT, dpi), client.height - footer - dip(64, dpi));
    if header < dip(48, dpi) || client.width < dip(240, dpi) {
        return Err(Unavailable);
    }
    let panes = match SheetLayout::new(
        client.width,
        client.height,
        header,
        footer,
        dip(64, dpi),
    ) {
        Ok(panes) => panes,
        Err(error) => return Err(error),
    };
    let viewport_height: i32 = panes.viewport.bottom - panes.viewport.top;
    let border: i32 = border_thickness(client.width, client.height, dpi, client.border_width_dip);
    let content_width: i32 = content_width_dip(client);
    let geometry = result_content_layout(content_width);
    let content_height: i32 = dip(geometry.height, dpi);
    proof {
        lemma_dip(geometry.height, dpi);
    }
    let offset: i32 = clamp_i32(scroll_offset, 0, max_i32(content_height - viewport_height, 0));
    let actions = place_actions(client, panes.actions.top);
    let plan = ResultPlan {
        header_height: header,
        viewport_height,
        content_height,
        offset,
        swatch: Place { x: 0, y: 0, width: client.width - border, height: header },
        viewport: Place {
            x: 0,
            y: header,
            width: client.width - border,
            height: viewport_height,
        },
        minimize: caption_button_rect(true, client.width, dpi),
        caption_close: caption_button_rect(false, client.width, dpi),
        source: place_scrolled(geometry.source, client, offset),
        rows: [
            place_row(geometry.rows[0], client, offset, Ghost(0)),
            place_row(geometry.rows[1], client, offset, Ghost(1)),
            place_row(geometry.rows[2], client, offset, Ghost(2)),
            place_row(geometry.rows[3], client, offset, Ghost(3)),
        ],
        default_copy: actions.default_copy,
        pick_again: actions.pick_again,
        close: actions.close,
        status: actions.status,
    };
    assert(plan.for_client(client, scroll_offset as int)) by {
        assert(client.held_offset(scroll_offset as int) == offset);
        assert forall|row: int, column: int| 0 <= row < 4 && 0 <= column < 3 implies #[trigger] plan.rows@[row]@[column]
            == client.scrolled(row_rect(client.content_width(), row, column), scroll_offset as int) by {
            if row == 0 {
                assert(plan.rows@[0]@[column].x == dip(row_rect(client.content_width(), 0, column).left, dpi));
            } else if row == 1 {
                assert(plan.rows@[1]@[column].x == dip(row_rect(client.content_width(), 1, column).left, dpi));
            } else if row == 2 {
                assert(plan.rows@[2]@[column].x == dip(row_rect(client.content_width(), 2, column).left, dpi));
            } else {
                assert(plan.rows@[3]@[column].x == dip(row_rect(client.content_width(), 3, column).left, dpi));
            }
        }
    }
    Ok(plan)
}

/// Whether a place has a size and lies between two rows of a client area.
pub open spec fn place_within(place: Place, width: int, top: int, bottom: int) -> bool {
    &&& 0 <= place.x && 0 < place.width && place.x + place.width <= width
    &&& top <= place.y && 0 < place.height && place.y + place.height <= bottom
}

/// In every usable window the action buttons stand complete below the content,
/// side by side or one row below the other, and a shown status below them clears
/// even the widest border.
pub proof fn actions_stay_complete(client: ResultClient)
    requires
        client.wf(),
        client.usable(),
        client.dpi >= 96,
    ensures
        ({
            let top = client.header() + client.viewport_height();
            let bottom = client.height as int;
            &&& client.viewport_height() >= dip(64, client.dpi)
            &&& place_within(client.default_copy(), client.width as int, top, bottom)
            &&& place_within(client.pick_again(), client.width as int, top, bottom)
            &&& place_within(client.close(), client.width as int, top, bottom)
            &&& client.narrow() ==> client.default_copy().y + client.default_copy().height
                <= client.pick_again().y
            &&& !client.narrow() ==> client.default_copy().x + client.default_copy().width
                <= client.pick_again().x
            &&& client.pick_again().x + client.pick_again().width <= client.close().x
            &&& client.status_visible ==> {
                &&& place_within(
                    client.status(),
                    client.width as int,
                    top,
                    bottom - dip(6, client.dpi),
                )
                &&& client.close().y + client.close().height <= client.status().y
            }
        }),
{
    lemma_result_dips(client.dpi);
    lemma_scaled_sums(client.dpi as int);
}

/// Lengths that the layout compares, with their roundings.
proof fn lemma_scaled_sums(dpi: int)
    requires
        96 <= dpi <= 9600,
    ensures
        dip_px(64, dpi) >= 64,
        dip_px(32, dpi) >= 32,
        dip_px(44, dpi) >= 44,
        dip_px(8, dpi) >= 8,
        dip_px(8, dpi) + dip_px(32, dpi) + 12 <= dip_px(54, dpi),
        dip_px(32, dpi) < dip_px(40, dpi),
        dip_px(8, dpi) + dip_px(40, dpi) + dip_px(32, dpi) + 12 <= dip_px(94, dpi),
        dip_px(54, dpi) <= dip_px(110, dpi),
        dip_px(94, dpi) <= dip_px(150, dpi),
        dip_px(8, dpi) + dip_px(40, dpi) + dip_px(44, dpi) + dip_px(6, dpi) <= dip_px(110, dpi),
        dip_px(8, dpi) + 2 * dip_px(40, dpi) + dip_px(44, dpi) + dip_px(6, dpi) <= dip_px(150, dpi),
        2 * dip_px(16, dpi) + dip_px(12, dpi) + 4 <= dip_px(240, dpi),
        2 * dip_px(16, dpi) + dip_px(64, dpi) + dip_px(126, dpi) + 2 * dip_px(12, dpi) + 4
            <= dip_px(400, dpi),
        dip_px(126, dpi) >= 1,
{
}

/// In every usable window the name, the value and the copy button of each row are
/// shown completely after they were revealed: between the ends of the viewport, and
/// left of the border and of the room for the scroll bar.
pub proof fn revealed_rows_are_visible(client: ResultClient, row: int, column: int, offset: int)
    requires
        client.wf(),
        client.usable(),
        client.dpi >= 96,
        client.border_width_dip <= MAX_BORDER_WIDTH_DIP,
        0 <= row < 4,
        0 <= column < 3,
    ensures
        ({
            let rect = row_rect(client.content_width(), row, column);
            let before = client.scrolled(rect, offset);
            let revealed = clamped(
                revealing_offset(
                    client.held_offset(offset),
                    before.y as int,
                    before.y + before.height,
                    client.viewport_height(),
                    dip(8, client.dpi) as int,
                ),
                0,
                scroll_limit(client.viewport_height(), client.content_height_px()),
            );
            let shown = client.scrolled(rect, revealed);
            &&& 0 <= shown.y && 0 < shown.height
            &&& shown.y + shown.height <= client.viewport_height()
            &&& 0 <= shown.x && 0 < shown.width
            &&& shown.x + shown.width <= client.inner_width() - dip(20, client.dpi)
        }),
{
    let d = client.dpi as int;
    let width = client.content_width();
    let rect = row_rect(width, row, column);
    lemma_result_dips(client.dpi);
    lemma_full_width(client);
    lemma_row_lengths(width, row, column);
    lemma_revealed_row(d, rect.top as int, rect.bottom - rect.top);
    dip_is_monotone(rect.bottom + 1, content_height(width), d, d);
    revealed_controls_are_visible(
        client.held_offset(offset),
        dip(rect.top, client.dpi) as int,
        dip((rect.bottom - rect.top) as i32, client.dpi) as int,
        client.viewport_height(),
        client.content_height_px(),
        dip(8, client.dpi) as int,
    );
    let wide = rect.right - rect.left;
    let scaled = client.width * 96;
    let full = width + 20;
    assert(rect.left * d + wide * d + 36 * d <= scaled && 0 <= rect.left * d && d <= wide * d)
        by (nonlinear_arith)
        requires
            full * d <= scaled,
            rect.left + wide + 36 <= full,
            0 <= rect.left,
            1 <= wide,
            0 < d,
    ;
    dip_is_monotone(client.border_width_dip as int, 6, d, d);
}

/// The width of a usable window in device-independent pixels, rounded down.
proof fn lemma_full_width(client: ResultClient)
    requires
        client.wf(),
        client.usable(),
        client.dpi >= 96,
    ensures
        219 <= client.content_width() <= i32::MAX - 20,
        (client.content_width() + 20) * client.dpi <= client.width * 96,
{
    let d = client.dpi as int;
    let scaled = client.width * 96;
    lemma_dip(240, client.dpi);
    assert(239 * d <= dip_px(240, d) * 96);
    assert(239 <= scaled / d && (scaled / d) * d <= scaled) by (nonlinear_arith)
        requires
            239 * d <= scaled,
            0 < d,
    ;
}

/// How far the controls of a row reach.
proof fn lemma_row_lengths(width: int, row: int, column: int)
    requires
        219 <= width <= i32::MAX - 20,
        0 <= row < 4,
        0 <= column < 3,
    ensures
        ({
            let rect = row_rect(width, row, column);
            &&& 0 <= rect.left < rect.right <= width - 16
            &&& 0 <= rect.top < rect.bottom < content_height(width)
            &&& content_height(width) <= 292
            &&& rect.bottom - rect.top <= 28
        }),
{
    assert(0 <= row * 58 <= 3 * 58 && 0 <= row * 36 <= 3 * 36);
}

/// A control of a row and its padding fit the smallest viewport, and it ends inside
/// the content, with all roundings.
proof fn lemma_revealed_row(d: int, top: int, height: int)
    requires
        96 <= d <= 9600,
        0 <= top <= 300,
        0 < height <= 28,
    ensures
        0 < dip_px(height, d) <= dip_px(28, d),
        dip_px(28, d) + 2 * dip_px(8, d) <= dip_px(64, d),
        dip_px(top, d) + dip_px(height, d) <= dip_px(top + height + 1, d),
{
    dip_is_monotone(height, 28, d, d);
    dip_is_monotone(1, height, d, d);
    assert((top + height + 1) * d == top * d + height * d + d && 0 <= top * d && 0 <= height * d)
        by (nonlinear_arith)
        requires
            0 <= top,
            0 <= height,
            0 <= d,
    ;
}

/// A window of the minimum size shows its controls exactly where the parts of its
/// height, each rounded, do not exceed the rounded sum; so at every scaling in steps
/// of a quarter. Where they do, it lacks one pixel.
pub proof fn minimum_windows_are_usable(dpi: u32, border_width_dip: u8, status_visible: bool)
    requires
        96 <= dpi <= 9600,
    ensures
        ({
            let (width, height) = minimum_extent(status_visible, dpi);
            let client = ResultClient { width, height, dpi, border_width_dip, status_visible };
            &&& client.usable() <==> client.footer() + dip(64, dpi) + dip(48, dpi) <= height
            &&& dpi % 24 == 0 ==> client.usable()
            &&& client.footer() + dip(64, dpi) + dip(48, dpi) <= height + 1
        }),
{
    lemma_result_dips(dpi);
    let d = dpi as int;
    dip_is_monotone(48, 112, d, d);
    dip_is_monotone(240, 399, d, d);
    assert(dip_px(240, d) < dip_px(400, d));
    if d % 24 == 0 {
        let k = d / 24;
        assert(d == 24 * k);
        assert(dip_px(206, d) == dip_px(94, d) + 28 * k);
        assert(dip_px(262, d) == dip_px(150, d) + 28 * k);
        assert(dip_px(64, d) == 16 * k);
        assert(dip_px(48, d) == 12 * k);
    }
}

/// The caption buttons lie in the colour field of every usable window and keep
/// apart; a point over one of them never moves the window.
pub proof fn caption_buttons_stay_clickable(client: ResultClient, point: ScreenPointPx, area: Rect)
    requires
        client.wf(),
        client.usable(),
        client.dpi >= 96,
        area.right == client.width,
        caption_button(true, client.width as int, client.dpi).has(point.x as int, point.y as int)
            || caption_button(false, client.width as int, client.dpi).has(
            point.x as int,
            point.y as int,
        ),
    ensures
        caption_hit(point, area, client.dpi, client.header() as i32) == CaptionHit::Client,
        caption_button(true, client.width as int, client.dpi).right <= caption_button(
            false,
            client.width as int,
            client.dpi,
        ).left,
        0 <= caption_button(true, client.width as int, client.dpi).left,
        caption_button(false, client.width as int, client.dpi).bottom <= client.header(),
{
    lemma_result_dips(client.dpi);
    let d = client.dpi as int;
    dip_is_monotone(36, 48, d, d);
    assert(dip_px(44, d) + dip_px(36, d) <= dip_px(240, d));
    assert(dip_px(6, d) + dip_px(36, d) <= dip_px(44, d));
}

/// The rows stand evenly one below the other, each as the others, between margins of
/// 16 at both sides; the source line stands above the first and 8 are left below the
/// last.
pub proof fn result_rows_are_alike(width: int, row: int, column: int)
    requires
        220 <= width <= i32::MAX,
        0 <= row < 4,
        0 <= column < 3,
    ensures
        ({
            let (rect, first) = (row_rect(width, row, column), row_rect(width, 0, column));
            let last = row_rect(width, 3, column);
            let step = row_rect(width, 1, column).top - first.top;
            &&& rect.left == first.left && rect.right == first.right
            &&& rect.top == first.top + row * step && rect.bottom - rect.top == first.bottom
                - first.top
            &&& rect.left >= 16 && rect.right <= width - 16
            &&& row_rect(width, row, 0).left == 16 && row_rect(width, row, 2).right == width - 16
            &&& source_rect(width).left == 16 && source_rect(width).right == width - 16
            &&& source_rect(width).bottom <= first.top
            &&& content_height(width) == row_top(width) + 4 * step + 8
            &&& last.bottom <= content_height(width) - 8
        }),
{
}

/// Rows of some width show the name, the value and the button in one line, centred on
/// each other; narrow ones show the value over their whole width below the other two.
pub proof fn rows_line_up(width: int, row: int)
    requires
        220 <= width <= i32::MAX,
        0 <= row < 4,
    ensures
        ({
            let (name, value, button) = (
                row_rect(width, row, 0),
                row_rect(width, row, 1),
                row_rect(width, row, 2),
            );
            &&& width >= 360 ==> name.top + name.bottom == value.top + value.bottom && value.top
                + value.bottom == button.top + button.bottom
            &&& width >= 360 ==> value.left == name.right + 8 && value.right == button.left - 12
            &&& width < 360 ==> name.top + name.bottom == button.top + button.bottom && value.left
                == 16 && value.right == width - 16 && value.top > button.bottom
            &&& button.right - button.left == 48
        }),
{
}

/// The caption buttons are 36 wide and stand six from the top and the right edge, two
/// apart, closing outside; all in device-independent pixels, each length to the nearest
/// pixel.
pub proof fn caption_buttons_have_their_places(width: int, dpi: u32)
    requires
        96 <= dpi <= 9600,
        0 <= width <= i32::MAX,
    ensures
        ({
            let (minimize, close) = (
                caption_button(true, width, dpi),
                caption_button(false, width, dpi),
            );
            &&& -48 <= 6 * dpi - 96 * (width - close.right) < 48
            &&& -48 <= 44 * dpi - 96 * (width - minimize.right) < 48
            &&& -48 <= 36 * dpi - 96 * (close.right - close.left) < 48
            &&& minimize.right - minimize.left == close.right - close.left
            &&& -48 <= 6 * dpi - 96 * close.top < 48
            &&& -48 <= 36 * dpi - 96 * close.bottom < 48
            &&& minimize.top == close.top && minimize.bottom == close.bottom
            &&& minimize.right <= close.left
        }),
{
    let d = dpi as int;
    lengths_scale_to_the_nearest_pixel(6, d);
    lengths_scale_to_the_nearest_pixel(44, d);
    lengths_scale_to_the_nearest_pixel(36, d);
}

/// Every point of the colour field moves the window, except those over a caption
/// button; no point below it or outside the window does.
pub proof fn colour_fields_move_the_window(
    point: ScreenPointPx,
    client: Rect,
    dpi: u32,
    header_height: i32,
)
    ensures
        ({
            let (x, y) = (point.x as int, point.y as int);
            let over = caption_button(true, client.right as int, dpi).has(x, y) || caption_button(
                false,
                client.right as int,
                dpi,
            ).has(x, y);
            let hit = caption_hit(point, client, dpi, header_height);
            &&& hit == CaptionHit::Caption <==> client.has(x, y) && y < header_height && !over
            &&& hit == CaptionHit::Caption || hit == CaptionHit::Client
        }),
{
}

/// The action buttons fill their area between the margins, a gap apart: side by side
/// where there is room, and else the main one above the other two, which share their
/// row evenly, up to one pixel. All are equally high.
pub proof fn actions_fill_their_area(client: ResultClient)
    requires
        client.wf(),
        client.usable(),
        client.dpi >= 96,
    ensures
        ({
            let (copy, again, close) = (client.default_copy(), client.pick_again(), client.close());
            let d = client.dpi as int;
            let margin = copy.x;
            let gap = close.x - (again.x + again.width);
            &&& -48 <= 16 * d - 96 * margin < 48
            &&& -48 <= 12 * d - 96 * gap < 48
            &&& close.x + close.width == client.width - margin
            &&& copy.height == again.height && again.height == close.height && again.y == close.y
            &&& -48 <= 32 * d - 96 * copy.height < 48
            &&& client.narrow() ==> {
                &&& copy.width == client.width - 2 * margin
                &&& again.x == margin
                &&& 0 <= close.width - again.width <= 1
                &&& -48 <= 40 * d - 96 * (again.y - copy.y) < 48
            }
            &&& !client.narrow() ==> {
                &&& again.x - (copy.x + copy.width) == gap
                &&& again.y == copy.y
                &&& -48 <= 126 * d - 96 * again.width < 48
                &&& -48 <= 64 * d - 96 * close.width < 48
            }
            &&& client.status().x == margin && client.status().width == client.width - 2 * margin
            &&& -48 <= 40 * d - 96 * (client.status().y - close.y) < 48
            &&& -48 <= 44 * d - 96 * client.status().height < 48
        }),
{
    lemma_result_dips(client.dpi);
    lemma_scaled_sums(client.dpi as int);
    actions_stay_complete(client);
    let d = client.dpi as int;
    lengths_scale_to_the_nearest_pixel(16, d);
    lengths_scale_to_the_nearest_pixel(12, d);
    lengths_scale_to_the_nearest_pixel(32, d);
    lengths_scale_to_the_nearest_pixel(40, d);
    lengths_scale_to_the_nearest_pixel(44, d);
    lengths_scale_to_the_nearest_pixel(64, d);
    lengths_scale_to_the_nearest_pixel(126, d);
}

/// The colour field, the content and the part below it fill the window. The content
/// never gets less than 64 device-independent pixels: a low window takes them from the
/// colour field, which is never higher than it is preferred to be. The part below has
/// room for one row of buttons, or two in a narrow window, and for a shown status.
pub proof fn colour_fields_give_way_to_the_rows(client: ResultClient)
    requires
        client.wf(),
        client.dpi >= 96,
    ensures
        client.header() + client.viewport_height() + client.footer() == client.height,
        client.header() <= dip(112, client.dpi),
        client.viewport_height() >= dip(64, client.dpi),
        client.header() == dip(112, client.dpi) || client.viewport_height() == dip(64, client.dpi),
        client.action_y() > client.header() + client.viewport_height(),
        ({
            let rows: int = if 96 * client.width < 400 * client.dpi - 48 {
                94
            } else {
                54
            };
            let status: int = if client.status_visible {
                56
            } else {
                0
            };
            96 * client.width < 400 * client.dpi - 48 || 96 * client.width >= 400 * client.dpi + 48
                ==> -48 <= (rows + status) * client.dpi - 96 * client.footer() < 48
        }),
{
    lemma_result_dips(client.dpi);
    let d = client.dpi as int;
    lengths_scale_to_the_nearest_pixel(400, d);
    lengths_scale_to_the_nearest_pixel(8, d);
    lengths_scale_to_the_nearest_pixel(54, d);
    lengths_scale_to_the_nearest_pixel(94, d);
    lengths_scale_to_the_nearest_pixel(110, d);
    lengths_scale_to_the_nearest_pixel(150, d);
}

/// Scrolling moves every control of the content up by the offset, and nothing else of
/// it changes. The offset is held to the content: an offset in its range stays, and any
/// other goes to the nearer end.
pub proof fn scrolling_moves_the_rows_up(
    client: ResultClient,
    rect: Rect,
    offset: int,
    other: int,
)
    requires
        client.wf(),
        client.dpi >= 96,
        0 <= rect.left <= 1000,
        0 <= rect.top <= 1000,
        rect.left <= rect.right,
        rect.top <= rect.bottom,
        -1000 <= client.content_width(),
    ensures
        ({
            let (one, two) = (client.scrolled(rect, offset), client.scrolled(rect, other));
            let limit = scroll_limit(client.viewport_height(), client.content_height_px());
            &&& one.y + client.held_offset(offset) == two.y + client.held_offset(other)
            &&& one.x == two.x && one.width == two.width && one.height == two.height
            &&& 0 <= offset <= limit ==> client.held_offset(offset) == offset
            &&& offset < 0 ==> client.held_offset(offset) == 0
            &&& offset > limit ==> client.held_offset(offset) == limit
            &&& -48 <= rect.top * client.dpi - 96 * (one.y + client.held_offset(offset)) < 48
            &&& -48 <= rect.left * client.dpi - 96 * one.x < 48
        }),
{
    lemma_result_dips(client.dpi);
    lemma_dip(rect.top, client.dpi);
    lemma_dip(rect.left, client.dpi);
    lengths_scale_to_the_nearest_pixel(rect.top as int, client.dpi as int);
    lengths_scale_to_the_nearest_pixel(rect.left as int, client.dpi as int);
    let height = content_height(client.content_width());
    assert(196 <= height <= 292);
    lemma_dip(height as i32, client.dpi);
}

/// The window that is asked for begins at the corner and is 420 wide and 364 high, or
/// 390 with a status; the smallest one is 240 wide and 206 or 262 high. All of it in
/// device-independent pixels, to the nearest physical one.
pub proof fn windows_with_a_status_are_higher(left: i32, top: i32, dpi: u32)
    requires
        96 <= dpi <= 9600,
        -0x1000_0000 <= left <= 0x1000_0000,
        -0x1000_0000 <= top <= 0x1000_0000,
    ensures
        ({
            let (plain, told) = (
                preferred_window(left, top, false, dpi),
                preferred_window(left, top, true, dpi),
            );
            let (low, high) = (minimum_extent(false, dpi), minimum_extent(true, dpi));
            &&& plain.left == left && plain.top == top && told.left == left && told.top == top
            &&& plain.right == told.right
            &&& -48 <= 420 * dpi - 96 * (plain.right - left) < 48
            &&& -48 <= 364 * dpi - 96 * (plain.bottom - top) < 48
            &&& -48 <= 390 * dpi - 96 * (told.bottom - top) < 48
            &&& -48 <= 240 * dpi - 96 * low.0 < 48 && high.0 == low.0
            &&& -48 <= 206 * dpi - 96 * low.1 < 48
            &&& -48 <= 262 * dpi - 96 * high.1 < 48
        }),
{
    let d = dpi as int;
    lengths_scale_to_the_nearest_pixel(CLIENT_WIDTH as int, d);
    lengths_scale_to_the_nearest_pixel(CLIENT_HEIGHT as int, d);
    lengths_scale_to_the_nearest_pixel(CLIENT_HEIGHT_WITH_STATUS as int, d);
    lengths_scale_to_the_nearest_pixel(240, d);
    lengths_scale_to_the_nearest_pixel(206, d);
    lengths_scale_to_the_nearest_pixel(262, d);
    lemma_dip(CLIENT_WIDTH, dpi);
    lemma_dip(CLIENT_HEIGHT, dpi);
    lemma_dip(CLIENT_HEIGHT_WITH_STATUS, dpi);
}

/// A rectangle has the corner and the size that it was made from.
pub proof fn sized_rectangles_have_their_size(x: int, y: int, width: int, height: int)
    requires
        fits_i32(x) && fits_i32(y),
        fits_i32(x + width) && fits_i32(y + height),
    ensures
        ({
            let rect = sized(x, y, width, height);
            &&& rect.left == x && rect.top == y
            &&& rect.right - rect.left == width && rect.bottom - rect.top == height
        }),
{
}

/// A plan puts the colour field at the top and the content right below it, both over
/// the width left of the border, and everything else where the client area has it:
/// nothing is exchanged for something else.
pub proof fn plans_place_everything(plan: ResultPlan, client: ResultClient, offset: int, row: int)
    requires
        client.wf(),
        client.usable(),
        client.dpi >= 96,
        plan.for_client(client, offset),
        0 <= row < 4,
    ensures
        plan.swatch.x == 0 && plan.swatch.y == 0 && plan.viewport.x == 0,
        plan.swatch.width == plan.viewport.width,
        plan.swatch.width == client.width - border_px(
            client.width as int,
            client.height as int,
            client.dpi,
            client.border_width_dip,
        ),
        plan.swatch.height == plan.header_height && plan.header_height == client.header(),
        plan.viewport.y == plan.swatch.height,
        plan.viewport.height == plan.viewport_height,
        plan.header_height + plan.viewport_height + client.footer() == client.height,
        plan.minimize.right <= plan.caption_close.left,
        plan.default_copy == client.default_copy(),
        plan.pick_again == client.pick_again(),
        plan.close == client.close(),
        plan.status == client.status(),
        plan.offset == client.held_offset(offset),
        plan.content_height == client.content_height_px(),
        plan.source == client.scrolled(source_rect(client.content_width()), offset),
        plan.rows@[row]@[0] == client.scrolled(row_rect(client.content_width(), row, 0), offset),
        plan.rows@[row]@[1] == client.scrolled(row_rect(client.content_width(), row, 1), offset),
        plan.rows@[row]@[2] == client.scrolled(row_rect(client.content_width(), row, 2), offset),
{
    lemma_result_dips(client.dpi);
    actions_stay_complete(client);
    let d = client.dpi as int;
    assert(dip_px(6, d) + dip_px(36, d) <= dip_px(44, d));
    lemma_scaled_sums(d);
}

/// The content is as wide as the window in whole device-independent pixels, less twenty
/// for the scroll bar.
pub proof fn contents_leave_room_for_the_bar(client: ResultClient)
    requires
        client.wf(),
    ensures
        (client.content_width() + 20) * client.dpi <= client.width * 96,
        client.width * 96 < (client.content_width() + 21) * client.dpi,
        client.inner_width() + border_px(
            client.width as int,
            client.height as int,
            client.dpi,
            client.border_width_dip,
        ) == client.width,
{
    let d = client.dpi as int;
    let scaled = client.width * 96;
    let full = scaled / d;
    assert(full * d <= scaled < (full + 1) * d) by (nonlinear_arith)
        requires
            full == scaled / d,
            d > 0,
            scaled >= 0,
    ;
}

/// The source line stands twelve below the top of the content and keeps a distance from
/// the first row; narrow windows give it room for two lines.
pub proof fn source_lines_stand_above_the_rows(width: int)
    requires
        220 <= width <= i32::MAX,
    ensures
        source_rect(width).top == 12,
        width >= 360 ==> source_rect(width).bottom - source_rect(width).top == 22,
        width < 360 ==> source_rect(width).bottom - source_rect(width).top == 36,
        row_rect(width, 0, 0).top - source_rect(width).bottom >= 4,
{
}

} // verus!
