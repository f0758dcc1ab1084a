//! Shared physical-pixel window constraints. Fonts retain their actual DPI;
//! a smaller work area changes the viewport, never the text scale.
use crate::arith::{
    clamp_i32, clamped, fits_i32, greater, lesser, max_i32, min_i32, saturating_difference,
};
use crate::geometry::Rect;
use crate::i18n::{tr, translation, Language};
use vstd::prelude::*;

verus! {

/// The work area cannot hold the window's controls.
#[derive(Debug, Clone, Copy, PartialEq, Eq, Structural)]
pub struct Unavailable;

/// What a person is told where the work area cannot hold a window's controls.
pub open spec fn unavailable_message(language: Language) -> Seq<char> {
    translation(
        language,
        "当前显示器工作区太小，无法显示操作按钮。请增大可用工作区或调整系统显示缩放。",
        "The display work area is too small for the window controls. Increase the available work area or adjust system display scaling.",
    )@
}

pub fn unavailable_text(language: Language) -> (r: &'static str)
    ensures
        r@ == unavailable_message(language),
{
    tr(
        language,
        "当前显示器工作区太小，无法显示操作按钮。请增大可用工作区或调整系统显示缩放。",
        "The display work area is too small for the window controls. Increase the available work area or adjust system display scaling.",
    )
}

/// A display scaling that windows can be laid out for: known, and at most a
/// hundredfold.
pub fn supported_dpi(dpi: u32) -> (r: bool)
    ensures
        r == (0 < dpi <= 9600),
{
    dpi != 0 && dpi <= 9600
}

/// Width or height that a request keeps inside a work area: its own, unless the
/// work area is shorter. Both are held at the ends of the 32-bit range.
pub open spec fn fitted_extent(request: int, work: int) -> int {
    lesser(
        clamped(request, i32::MIN as int, i32::MAX as int),
        clamped(work, i32::MIN as int, i32::MAX as int),
    )
}

/// Where `fit_rect` puts a request of the given extent along one axis.
pub open spec fn fitted_start(from: int, work_from: int, work_to: int, extent: int) -> int {
    clamped(from, work_from, work_to - extent)
}

/// Whether the coordinates of a placement along one axis can be computed.
pub open spec fn fit_computes(from: int, to: int, work_from: int, work_to: int) -> bool {
    let extent = fitted_extent(to - from, work_to - work_from);
    let start = fitted_start(from, work_from, work_to, extent);
    fits_i32(work_to - extent) && work_from <= work_to - extent && fits_i32(start + extent)
}

/// The request moved into the work area and shrunk to it where it is larger;
/// nothing where what is left falls below `minimum`.
pub open spec fn fitted(request: Rect, work: Rect, minimum: (i32, i32)) -> Option<Rect> {
    let width = fitted_extent(request.right - request.left, work.right - work.left);
    let height = fitted_extent(request.bottom - request.top, work.bottom - work.top);
    if width < minimum.0 || height < minimum.1 {
        None
    } else {
        let left = fitted_start(request.left as int, work.left as int, work.right as int, width);
        let top = fitted_start(request.top as int, work.top as int, work.bottom as int, height);
        Some(
            Rect {
                left: left as i32,
                top: top as i32,
                right: (left + width) as i32,
                bottom: (top + height) as i32,
            },
        )
    }
}

/// Fits a requested window into a work area. The coordinates must be computable
/// whenever the result is not refused; with a non-negative `minimum` they are.
pub fn fit_rect(request: Rect, work: Rect, minimum: (i32, i32)) -> (r: Option<Rect>)
    requires
        fitted(request, work, minimum) is Some ==> {
            &&& fit_computes(
                request.left as int,
                request.right as int,
                work.left as int,
                work.right as int,
            )
            &&& fit_computes(
                request.top as int,
                request.bottom as int,
                work.top as int,
                work.bottom as int,
            )
        },
    ensures
        r == fitted(request, work, minimum),
{
    let width: i32 = min_i32(
        saturating_difference(request.right, request.left),
        saturating_difference(work.right, work.left),
    );
    let height: i32 = min_i32(
        saturating_difference(request.bottom, request.top),
        saturating_difference(work.bottom, work.top),
    );
    if width < minimum.0 || height < minimum.1 {
        return None;
    }
    let left: i32 = clamp_i32(request.left, work.left, work.right - width);
    let top: i32 = clamp_i32(request.top, work.top, work.bottom - height);
    Some(Rect { left, top, right: left + width, bottom: top + height })
}

/// With a non-negative minimum every coordinate of a placement is computable.
pub proof fn non_negative_minimum_always_computes(request: Rect, work: Rect, minimum: (i32, i32))
    requires
        minimum.0 >= 0,
        minimum.1 >= 0,
        fitted(request, work, minimum) is Some,
    ensures
        fit_computes(
            request.left as int,
            request.right as int,
            work.left as int,
            work.right as int,
        ),
        fit_computes(
            request.top as int,
            request.bottom as int,
            work.top as int,
            work.bottom as int,
        ),
{
}

/// A fitted window lies inside the work area, is no smaller than the minimum,
/// and is refused exactly when the request or the work area is below it.
pub proof fn fitted_windows_stay_in_the_work_area(request: Rect, work: Rect, minimum: (i32, i32))
    requires
        minimum.0 >= 0,
        minimum.1 >= 0,
    ensures
        match fitted(request, work, minimum) {
            Some(rect) => {
                &&& rect.inside(work)
                &&& rect.right - rect.left >= minimum.0
                &&& rect.bottom - rect.top >= minimum.1
            },
            None => {
                ||| request.right - request.left < minimum.0
                ||| request.bottom - request.top < minimum.1
                ||| work.right - work.left < minimum.0
                ||| work.bottom - work.top < minimum.1
            },
        },
{
}

/// A request that fits keeps its size, and one that already lies in the work
/// area is not moved.
pub proof fn fitting_requests_keep_their_size(request: Rect, work: Rect, minimum: (i32, i32))
    requires
        0 <= minimum.0 <= request.right - request.left <= work.right - work.left,
        0 <= minimum.1 <= request.bottom - request.top <= work.bottom - work.top,
        fits_i32(request.right - request.left),
        fits_i32(request.bottom - request.top),
    ensures
        fitted(request, work, minimum) is Some,
        fitted(request, work, minimum)->0.right - fitted(request, work, minimum)->0.left
            == request.right - request.left,
        fitted(request, work, minimum)->0.bottom - fitted(request, work, minimum)->0.top
            == request.bottom - request.top,
        request.inside(work) ==> fitted(request, work, minimum) == Some(request),
{
}

/// A scrolling pane above a pane of fixed action buttons.
#[derive(Debug, Clone, Copy, PartialEq, Eq, Structural)]
pub struct SheetLayout {
    pub viewport: Rect,
    pub actions: Rect,
}

impl SheetLayout {
    /// Splits a client area below its header. `header` and `footer` are the
    /// heights kept for the caption and the actions.
    pub fn new(
        width: i32,
        height: i32,
        header: i32,
        footer: i32,
        minimum_content: i32,
    ) -> (r: Result<Self, Unavailable>)
        requires
            fits_i32(height - footer),
            width > 0 ==> fits_i32(height - footer - header),
        ensures
            r == (if width <= 0 || height - footer - header < minimum_content {
                Err(Unavailable)
            } else {
                Ok(
                    SheetLayout {
                        viewport: Rect {
                            left: 0,
                            top: header,
                            right: width,
                            bottom: (height - footer) as i32,
                        },
                        actions: Rect {
                            left: 0,
                            top: (height - footer) as i32,
                            right: width,
                            bottom: height,
                        },
                    },
                )
            }),
            r matches Ok(sheet) ==> sheet.covers(width as int, height as int, header as int),
    {
        let bottom: i32 = height - footer;
        if width <= 0 || bottom - header < minimum_content {
            return Err(Unavailable);
        }
        Ok(
            SheetLayout {
                viewport: Rect { left: 0, top: header, right: width, bottom },
                actions: Rect { left: 0, top: bottom, right: width, bottom: height },
            },
        )
    }

    /// The panes of a client area: one below the other, over the full width,
    /// from the header to the bottom.
    pub open spec fn covers(self, width: int, height: int, header: int) -> bool {
        &&& self.viewport.left == 0 && self.actions.left == 0
        &&& self.viewport.right == width && self.actions.right == width
        &&& self.viewport.top == header
        &&& self.viewport.bottom == self.actions.top
        &&& self.actions.bottom == height
    }
}

/// The largest scroll offset of content seen through a viewport.
pub open spec fn scroll_limit(viewport: int, content: int) -> int {
    greater(content - viewport, 0)
}

/// The offset asked for by a control at `top..bottom` of the viewport, before it
/// is held to the scroll range.
pub open spec fn revealing_offset(
    offset: int,
    top: int,
    bottom: int,
    viewport: int,
    padding: int,
) -> int {
    if top < padding {
        offset + top - padding
    } else if bottom > viewport - padding {
        offset + lesser(bottom - viewport + padding, top - padding)
    } else {
        offset
    }
}

/// Whether every intermediate coordinate of [`reveal_offset`] is representable.
pub open spec fn reveal_computes(
    offset: int,
    top: int,
    bottom: int,
    viewport: int,
    content: int,
    padding: int,
) -> bool {
    &&& fits_i32(content - viewport)
    &&& fits_i32(revealing_offset(offset, top, bottom, viewport, padding))
    &&& top < padding ==> fits_i32(offset + top)
    &&& top >= padding ==> fits_i32(viewport - padding)
    &&& top >= padding && bottom > viewport - padding ==> fits_i32(bottom - viewport) && fits_i32(
        bottom - viewport + padding,
    ) && fits_i32(top - padding)
}

fn fits(value: i64) -> (r: bool)
    ensures
        r == fits_i32(value as int),
{
    i32::MIN as i64 <= value && value <= i32::MAX as i64
}

/// Whether [`reveal_offset`] can be called.
pub fn reveal_is_representable(
    offset: i32,
    top: i32,
    bottom: i32,
    viewport: i32,
    content: i32,
    padding: i32,
) -> (r: bool)
    ensures
        r == reveal_computes(
            offset as int,
            top as int,
            bottom as int,
            viewport as int,
            content as int,
            padding as int,
        ),
{
    let below: i64 = bottom as i64 - viewport as i64;
    let above: i64 = top as i64 - padding as i64;
    let end: i64 = viewport as i64 - padding as i64;
    if !fits(content as i64 - viewport as i64) {
        false
    } else if top < padding {
        fits(offset as i64 + top as i64) && fits(offset as i64 + above)
    } else if bottom as i64 > end {
        let least: i64 = if below + padding as i64 <= above {
            below + padding as i64
        } else {
            above
        };
        fits(end) && fits(below) && fits(below + padding as i64) && fits(above) && fits(
            offset as i64 + least,
        )
    } else {
        fits(end)
    }
}

/// The scroll offset that brings a control at `top..bottom` of the viewport into
/// view with `padding` around it. A control taller than the viewport is aligned
/// at its top; every focusable control is shorter than the supported minimum
/// viewport.
pub fn reveal_offset(
    offset: i32,
    top: i32,
    bottom: i32,
    viewport: i32,
    content: i32,
    padding: i32,
) -> (r: i32)
    requires
        reveal_computes(
            offset as int,
            top as int,
            bottom as int,
            viewport as int,
            content as int,
            padding as int,
        ),
    ensures
        r == clamped(
            revealing_offset(
                offset as int,
                top as int,
                bottom as int,
                viewport as int,
                padding as int,
            ),
            0,
            scroll_limit(viewport as int, content as int),
        ),
{
    let next: i32 = if top < padding {
        offset + top - padding
    } else if bottom > viewport - padding {
        offset + min_i32(bottom - viewport + padding, top - padding)
    } else {
        offset
    };
    clamp_i32(next, 0, max_i32(content - viewport, 0))
}

/// After revealing, a control of the content that is no taller than the viewport
/// less its padding is completely visible. `at` is the control's place in the
/// content, so that it stands at `at - offset` of the viewport.
pub proof fn revealed_controls_are_visible(
    offset: int,
    at: int,
    height: int,
    viewport: int,
    content: int,
    padding: int,
)
    requires
        0 <= padding,
        0 <= height,
        height + 2 * padding <= viewport,
        0 <= at,
        at + height <= content,
        0 <= offset <= scroll_limit(viewport, content),
    ensures
        ({
            let next = clamped(
                revealing_offset(offset, at - offset, at + height - offset, viewport, padding),
                0,
                scroll_limit(viewport, content),
            );
            0 <= at - next && at + height - next <= viewport
        }),
{
}

/// A window along one axis is as long as the request, or as the work area where that
/// is shorter, and no place of this length in the work area is nearer to where the
/// request begins.
pub proof fn fitted_windows_stay_near_the_request(
    request: Rect,
    work: Rect,
    minimum: (i32, i32),
    other_left: int,
    other_top: int,
)
    requires
        minimum.0 >= 0,
        minimum.1 >= 0,
        fitted(request, work, minimum) is Some,
        fits_i32(request.right - request.left) && fits_i32(request.bottom - request.top),
        fits_i32(work.right - work.left) && fits_i32(work.bottom - work.top),
    ensures
        ({
            let rect = fitted(request, work, minimum)->0;
            let (width, height) = (rect.right - rect.left, rect.bottom - rect.top);
            &&& width == request.right - request.left && width <= work.right - work.left || width
                == work.right - work.left && width < request.right - request.left
            &&& height == request.bottom - request.top && height <= work.bottom - work.top || height
                == work.bottom - work.top && height < request.bottom - request.top
            &&& work.left <= other_left && other_left + width <= work.right ==> greater(
                rect.left - request.left,
                request.left - rect.left,
            ) <= greater(other_left - request.left, request.left - other_left)
            &&& work.top <= other_top && other_top + height <= work.bottom ==> greater(
                rect.top - request.top,
                request.top - rect.top,
            ) <= greater(other_top - request.top, request.top - other_top)
        }),
{
}

/// Scrolled to its limit, content shows its last row in the last row of the
/// viewport; content that fits does not scroll.
pub proof fn scrolling_ends_with_the_content(viewport: int, content: int)
    ensures
        content >= viewport ==> content - scroll_limit(viewport, content) == viewport,
        content <= viewport ==> scroll_limit(viewport, content) == 0,
{
}

/// Revealing a control moves the content no more than needed: not at all where the
/// control and its padding are in view, and never further than any other offset that
/// brings them into view.
pub proof fn revealing_moves_no_more_than_needed(
    offset: int,
    at: int,
    height: int,
    viewport: int,
    content: int,
    padding: int,
    other: int,
)
    requires
        0 <= padding,
        0 <= height,
        height + 2 * padding <= viewport,
        0 <= offset <= scroll_limit(viewport, content),
        0 <= other <= scroll_limit(viewport, content),
        padding <= at - other,
        at + height - other <= viewport - padding,
    ensures
        ({
            let next = clamped(
                revealing_offset(offset, at - offset, at + height - offset, viewport, padding),
                0,
                scroll_limit(viewport, content),
            );
            &&& padding <= at - next && at + height - next <= viewport - padding
            &&& greater(next - offset, offset - next) <= greater(other - offset, offset - other)
        }),
{
}

/// A control that is too tall for the viewport is aligned at its top, below the
/// padding.
pub proof fn tall_controls_show_their_top(
    offset: int,
    at: int,
    height: int,
    viewport: int,
    padding: int,
)
    requires
        0 <= padding,
        0 <= height,
        height + 2 * padding > viewport,
    ensures
        at - revealing_offset(offset, at - offset, at + height - offset, viewport, padding)
            == padding,
{
}

/// Two panes that cover a client area leave no row out and share none: a pixel below the
/// header is in exactly one of them, and none above it is in either.
pub proof fn sheets_share_the_client_area(
    sheet: SheetLayout,
    width: int,
    height: int,
    header: int,
    x: int,
    y: int,
)
    requires
        sheet.covers(width, height, header),
        sheet.viewport.top <= sheet.viewport.bottom,
        sheet.actions.top <= sheet.actions.bottom,
    ensures
        sheet.viewport.has(x, y) || sheet.actions.has(x, y) <==> 0 <= x < width && header <= y
            < height,
        !(sheet.viewport.has(x, y) && sheet.actions.has(x, y)),
{
}

} // verus!
