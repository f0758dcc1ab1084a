//! Where the live preview goes relative to the sampled pixel.
use crate::arith::{clamp_i64, clamped};
use crate::geometry::{ScreenPointPx, ScreenRectPx};
use vstd::prelude::*;

verus! {

/// Start of a preview of `size` pixels along one axis of a work area `low..high`:
/// after the sampled pixel, else before it, else as near to the first place as
/// the work area allows.
pub open spec fn axis_start(at: int, low: int, high: int, size: int, gap: int) -> int {
    if low <= at + 1 + gap && at + 1 + gap + size <= high {
        at + 1 + gap
    } else if low <= at - gap - size && at - gap <= high {
        at - gap - size
    } else {
        clamped(at + 1 + gap, low, high - size)
    }
}

/// A preview rectangle placed independently along both axes.
pub open spec fn placed_with_gap(
    point: ScreenPointPx,
    work: ScreenRectPx,
    width: int,
    height: int,
    gap: int,
) -> ScreenRectPx {
    let left = axis_start(point.x as int, work.left as int, work.right as int, width, gap);
    let top = axis_start(point.y as int, work.top as int, work.bottom as int, height, gap);
    ScreenRectPx {
        left: left as i32,
        top: top as i32,
        right: (left + width) as i32,
        bottom: (top + height) as i32,
    }
}

/// Whether a preview of this size can lie in the work area at all.
pub open spec fn preview_fits(work: ScreenRectPx, width: int, height: int) -> bool {
    0 < width <= work.right - work.left && 0 < height <= work.bottom - work.top
}

/// The preview's place: with the gap where that leaves the sampled pixel free,
/// else without it, else nowhere.
pub open spec fn preview_place(
    point: ScreenPointPx,
    work: ScreenRectPx,
    width: int,
    height: int,
    gap: int,
) -> Option<ScreenRectPx> {
    if !preview_fits(work, width, height) {
        None
    } else if !placed_with_gap(point, work, width, height, gap).spec_contains(point) {
        Some(placed_with_gap(point, work, width, height, gap))
    } else if !placed_with_gap(point, work, width, height, 0).spec_contains(point) {
        Some(placed_with_gap(point, work, width, height, 0))
    } else {
        None
    }
}

fn place_axis(at: i32, low: i32, high: i32, size: u32, gap: u32) -> (r: i32)
    requires
        0 < size <= high - low,
    ensures
        r == axis_start(at as int, low as int, high as int, size as int, gap as int),
        low <= r,
        r + size <= high,
{
    let after: i64 = at as i64 + 1 + gap as i64;
    let before: i64 = at as i64 - gap as i64 - size as i64;
    if low as i64 <= after && after + size as i64 <= high as i64 {
        after as i32
    } else if low as i64 <= before && at as i64 - gap as i64 <= high as i64 {
        before as i32
    } else {
        clamp_i64(after, low as i64, high as i64 - size as i64) as i32
    }
}

fn place_rect(
    point: ScreenPointPx,
    work: ScreenRectPx,
    width: u32,
    height: u32,
    gap: u32,
) -> (r: ScreenRectPx)
    requires
        preview_fits(work, width as int, height as int),
    ensures
        r == placed_with_gap(point, work, width as int, height as int, gap as int),
{
    let left: i32 = place_axis(point.x, work.left, work.right, width, gap);
    let top: i32 = place_axis(point.y, work.top, work.bottom, height, gap);
    ScreenRectPx {
        left,
        top,
        right: (left as i64 + width as i64) as i32,
        bottom: (top as i64 + height as i64) as i32,
    }
}

/// Places a preview completely inside the work area without covering the sampled
/// pixel, below and to the right of it where there is room.
pub fn place_preview(
    point: ScreenPointPx,
    work: ScreenRectPx,
    width: u32,
    height: u32,
    gap: u32,
) -> (r: Option<ScreenRectPx>)
    ensures
        r == preview_place(point, work, width as int, height as int, gap as int),
{
    if width == 0 || height == 0 || width > work.width() || height > work.height() {
        return None;
    }
    let preferred = place_rect(point, work, width, height, gap);
    if !preferred.contains(point) {
        return Some(preferred);
    }
    let touching = place_rect(point, work, width, height, 0);
    if !touching.contains(point) {
        return Some(touching);
    }
    None
}

/// A placed preview is complete, in the work area, and never covers the sample.
pub proof fn placed_previews_are_complete(
    point: ScreenPointPx,
    work: ScreenRectPx,
    width: int,
    height: int,
    gap: int,
)
    requires
        gap >= 0,
        preview_place(point, work, width, height, gap) is Some,
    ensures
        ({
            let rect = preview_place(point, work, width, height, gap)->0;
            &&& rect.inside(work)
            &&& rect.right - rect.left == width
            &&& rect.bottom - rect.top == height
            &&& !rect.spec_contains(point)
        }),
{
}

/// A preview is placed exactly when the work area holds some place for it that
/// leaves the sampled pixel free.
pub proof fn a_place_is_found_when_one_exists(
    point: ScreenPointPx,
    work: ScreenRectPx,
    width: int,
    height: int,
    gap: int,
    other: ScreenRectPx,
)
    requires
        gap >= 0,
        width > 0,
        height > 0,
        other.inside(work),
        other.right - other.left == width,
        other.bottom - other.top == height,
        !other.spec_contains(point),
    ensures
        preview_place(point, work, width, height, gap) is Some,
{
}

/// Where the work area has room below and to the right of the sample, the
/// preview stands there, at exactly the gap.
pub proof fn below_right_is_preferred(
    point: ScreenPointPx,
    work: ScreenRectPx,
    width: int,
    height: int,
    gap: int,
)
    requires
        gap >= 0,
        width > 0,
        height > 0,
        work.left <= point.x + 1 + gap,
        work.top <= point.y + 1 + gap,
        point.x + 1 + gap + width <= work.right,
        point.y + 1 + gap + height <= work.bottom,
    ensures
        preview_place(point, work, width, height, gap) == Some(
            ScreenRectPx {
                left: (point.x + 1 + gap) as i32,
                top: (point.y + 1 + gap) as i32,
                right: (point.x + 1 + gap + width) as i32,
                bottom: (point.y + 1 + gap + height) as i32,
            },
        ),
{
}

/// Whether a preview of `size` pixels fits after a pixel, at the gap.
pub open spec fn room_after(at: int, low: int, high: int, size: int, gap: int) -> bool {
    low <= at + 1 + gap && at + 1 + gap + size <= high
}

/// Whether a preview of `size` pixels fits before a pixel, at the gap.
pub open spec fn room_before(at: int, low: int, high: int, size: int, gap: int) -> bool {
    low <= at - gap - size && at - gap <= high
}

/// Whether of all starts inside `low..high` this one is nearest to a wished one.
pub open spec fn nearest_start(start: int, wished: int, low: int, high: int, size: int) -> bool {
    &&& low <= start && start + size <= high
    &&& forall|other: int|
        low <= other && #[trigger] (other + size) <= high ==> (if start >= wished {
            start - wished
        } else {
            wished - start
        }) <= (if other >= wished {
            other - wished
        } else {
            wished - other
        })
}

/// Each axis is placed by itself. Where there is room after the sampled pixel and
/// its gap, the preview begins right there; where there is room only before it, the
/// preview ends exactly at the gap, whatever happens along the other axis.
pub proof fn previews_keep_the_gap(
    point: ScreenPointPx,
    work: ScreenRectPx,
    width: int,
    height: int,
    gap: int,
)
    requires
        gap >= 0,
        preview_place(point, work, width, height, gap) is Some,
    ensures
        ({
            let rect = preview_place(point, work, width, height, gap)->0;
            let (x, y) = (point.x as int, point.y as int);
            let (left, right) = (work.left as int, work.right as int);
            let (top, bottom) = (work.top as int, work.bottom as int);
            &&& room_after(x, left, right, width, gap) ==> rect.left == x + 1 + gap
            &&& room_after(y, top, bottom, height, gap) ==> rect.top == y + 1 + gap
            &&& !room_after(x, left, right, width, gap) && room_before(x, left, right, width, gap)
                ==> rect.right == x - gap
            &&& !room_after(y, top, bottom, height, gap) && room_before(
                y,
                top,
                bottom,
                height,
                gap,
            ) ==> rect.bottom == y - gap
        }),
{
}

/// Along an axis with room on neither side the preview stands as near as it can to
/// the place after the sampled pixel. Where both axes are like that and the pixel
/// would be covered, the preview is placed as if there were no gap.
pub proof fn crowded_previews_stay_near(
    point: ScreenPointPx,
    work: ScreenRectPx,
    width: int,
    height: int,
    gap: int,
)
    requires
        gap >= 0,
        preview_place(point, work, width, height, gap) is Some,
    ensures
        ({
            let rect = preview_place(point, work, width, height, gap)->0;
            let (x, y) = (point.x as int, point.y as int);
            let (left, right) = (work.left as int, work.right as int);
            let (top, bottom) = (work.top as int, work.bottom as int);
            let crowded_x = !room_after(x, left, right, width, gap) && !room_before(
                x,
                left,
                right,
                width,
                gap,
            );
            let crowded_y = !room_after(y, top, bottom, height, gap) && !room_before(
                y,
                top,
                bottom,
                height,
                gap,
            );
            let near_x = nearest_start(rect.left as int, x + 1 + gap, left, right, width);
            let near_y = nearest_start(rect.top as int, y + 1 + gap, top, bottom, height);
            &&& crowded_x && !crowded_y ==> near_x
            &&& crowded_y && !crowded_x ==> near_y
            &&& crowded_x && crowded_y ==> near_x && near_y || preview_place(
                point,
                work,
                width,
                height,
                gap,
            ) == preview_place(point, work, width, height, 0)
        }),
{
}

/// Moving the sampled pixel and the work area together moves the preview with them.
pub proof fn previews_move_with_the_desktop(
    point: ScreenPointPx,
    work: ScreenRectPx,
    moved_point: ScreenPointPx,
    moved_work: ScreenRectPx,
    dx: int,
    dy: int,
    width: int,
    height: int,
    gap: int,
)
    requires
        gap >= 0,
        moved_point.x == point.x + dx && moved_point.y == point.y + dy,
        moved_work.left == work.left + dx && moved_work.right == work.right + dx,
        moved_work.top == work.top + dy && moved_work.bottom == work.bottom + dy,
    ensures
        match (
            preview_place(point, work, width, height, gap),
            preview_place(moved_point, moved_work, width, height, gap),
        ) {
            (Some(rect), Some(moved)) => {
                &&& moved.left == rect.left + dx && moved.right == rect.right + dx
                &&& moved.top == rect.top + dy && moved.bottom == rect.bottom + dy
            },
            (None, None) => true,
            _ => false,
        },
{
}

} // verus!
