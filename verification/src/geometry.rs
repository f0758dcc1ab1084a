//! Physical-pixel points and rectangles. Every rectangle is half open: its left
//! and top edges belong to it, its right and bottom edges do not.
use vstd::prelude::*;

verus! {

/// A pixel on the virtual desktop.
#[derive(Debug, Clone, Copy, PartialEq, Eq, Structural)]
pub struct ScreenPointPx {
    pub x: i32,
    pub y: i32,
}

/// An area of the virtual desktop.
#[derive(Debug, Clone, Copy, PartialEq, Eq, Structural)]
pub struct ScreenRectPx {
    pub left: i32,
    pub top: i32,
    pub right: i32,
    pub bottom: i32,
}

/// An area in window-local coordinates, as native drawing takes it.
#[derive(Debug, Clone, Copy, PartialEq, Eq, Structural)]
pub struct Rect {
    pub left: i32,
    pub top: i32,
    pub right: i32,
    pub bottom: i32,
}

impl Rect {
    /// Whether the rectangle covers no pixel.
    pub open spec fn empty(self) -> bool {
        self.right <= self.left || self.bottom <= self.top
    }

    /// Whether every pixel of the rectangle lies in `outer`.
    pub open spec fn inside(self, outer: Rect) -> bool {
        outer.left <= self.left && outer.top <= self.top && self.right <= outer.right && self.bottom
            <= outer.bottom
    }

    /// Whether the pixel at `(x, y)` belongs to the rectangle.
    pub open spec fn has(self, x: int, y: int) -> bool {
        self.left <= x < self.right && self.top <= y < self.bottom
    }

    pub fn is_empty(&self) -> (r: bool)
        ensures
            r == self.empty(),
    {
        self.right <= self.left || self.bottom <= self.top
    }
}

impl Default for Rect {
    fn default() -> (r: Self)
        ensures
            r == (Rect { left: 0, top: 0, right: 0, bottom: 0 }),
    {
        Rect { left: 0, top: 0, right: 0, bottom: 0 }
    }
}

/// Length of the half-open span `from..to`; an inverted span has none.
pub open spec fn span(from: int, to: int) -> int {
    if to > from {
        to - from
    } else {
        0
    }
}

fn span_u32(from: i32, to: i32) -> (r: u32)
    ensures
        r == span(from as int, to as int),
{
    if to > from {
        (to as i64 - from as i64) as u32
    } else {
        0
    }
}

impl ScreenRectPx {
    pub open spec fn spec_width(self) -> int {
        span(self.left as int, self.right as int)
    }

    pub open spec fn spec_height(self) -> int {
        span(self.top as int, self.bottom as int)
    }

    pub open spec fn spec_contains(self, point: ScreenPointPx) -> bool {
        self.left <= point.x < self.right && self.top <= point.y < self.bottom
    }

    /// Whether the rectangle lies entirely in `outer`.
    pub open spec fn inside(self, outer: ScreenRectPx) -> bool {
        outer.left <= self.left && outer.top <= self.top && self.right <= outer.right && self.bottom
            <= outer.bottom
    }

    pub open spec fn empty(self) -> bool {
        self.left >= self.right || self.top >= self.bottom
    }

    /// The common area of two rectangles, empty or not.
    pub open spec fn overlap(self, other: ScreenRectPx) -> ScreenRectPx {
        ScreenRectPx {
            left: if self.left >= other.left {
                self.left
            } else {
                other.left
            },
            top: if self.top >= other.top {
                self.top
            } else {
                other.top
            },
            right: if self.right <= other.right {
                self.right
            } else {
                other.right
            },
            bottom: if self.bottom <= other.bottom {
                self.bottom
            } else {
                other.bottom
            },
        }
    }

    pub fn width(&self) -> (r: u32)
        ensures
            r == self.spec_width(),
    {
        span_u32(self.left, self.right)
    }

    pub fn height(&self) -> (r: u32)
        ensures
            r == self.spec_height(),
    {
        span_u32(self.top, self.bottom)
    }

    pub fn is_empty(&self) -> (r: bool)
        ensures
            r == self.empty(),
    {
        self.left >= self.right || self.top >= self.bottom
    }

    /// Number of pixels; zero for an inverted rectangle.
    pub fn area(&self) -> (r: u64)
        ensures
            r == self.spec_width() * self.spec_height(),
    {
        let width: u64 = self.width() as u64;
        let height: u64 = self.height() as u64;
        proof {
            assert(0 <= width * height <= 0xffff_ffff * 0xffff_ffff) by (nonlinear_arith)
                requires
                    0 <= width <= 0xffff_ffff,
                    0 <= height <= 0xffff_ffff,
            ;
        }
        width * height
    }

    pub fn contains(&self, point: ScreenPointPx) -> (r: bool)
        ensures
            r == self.spec_contains(point),
    {
        self.left <= point.x && point.x < self.right && self.top <= point.y && point.y
            < self.bottom
    }

    /// The common area, or nothing where no pixel is shared.
    pub fn intersection(&self, other: ScreenRectPx) -> (r: Option<ScreenRectPx>)
        ensures
            r == (if self.overlap(other).empty() {
                None
            } else {
                Some(self.overlap(other))
            }),
    {
        let common = ScreenRectPx {
            left: if self.left >= other.left {
                self.left
            } else {
                other.left
            },
            top: if self.top >= other.top {
                self.top
            } else {
                other.top
            },
            right: if self.right <= other.right {
                self.right
            } else {
                other.right
            },
            bottom: if self.bottom <= other.bottom {
                self.bottom
            } else {
                other.bottom
            },
        };
        if common.is_empty() {
            None
        } else {
            Some(common)
        }
    }
}

/// A pixel is in the intersection exactly when it is in both rectangles, and
/// there is an intersection exactly when such a pixel exists.
pub proof fn intersection_holds_the_shared_pixels(
    a: ScreenRectPx,
    b: ScreenRectPx,
    point: ScreenPointPx,
)
    ensures
        a.overlap(b).spec_contains(point) <==> a.spec_contains(point) && b.spec_contains(point),
        a.overlap(b).empty() ==> !(a.spec_contains(point) && b.spec_contains(point)),
        !a.overlap(b).empty() ==> {
            let corner = ScreenPointPx { x: a.overlap(b).left, y: a.overlap(b).top };
            a.spec_contains(corner) && b.spec_contains(corner)
        },
{
}

/// Pixels captured on each side of the cursor when a sample is frozen.
pub const FREEZE_REACH_PX: i32 = 32;

/// The snapshot taken around `point`: `FREEZE_REACH_PX` pixels to every side,
/// clipped to the monitor that holds the point.
pub open spec fn frozen_area(point: ScreenPointPx, monitor: ScreenRectPx) -> ScreenRectPx {
    ScreenRectPx {
        left: if point.x - FREEZE_REACH_PX < monitor.left {
            monitor.left
        } else {
            (point.x - FREEZE_REACH_PX) as i32
        },
        top: if point.y - FREEZE_REACH_PX < monitor.top {
            monitor.top
        } else {
            (point.y - FREEZE_REACH_PX) as i32
        },
        right: if point.x + FREEZE_REACH_PX + 1 > monitor.right {
            monitor.right
        } else {
            (point.x + FREEZE_REACH_PX + 1) as i32
        },
        bottom: if point.y + FREEZE_REACH_PX + 1 > monitor.bottom {
            monitor.bottom
        } else {
            (point.y + FREEZE_REACH_PX + 1) as i32
        },
    }
}

fn reach_back(at: i32, limit: i32) -> (r: i32)
    requires
        limit <= at,
    ensures
        r == if at - FREEZE_REACH_PX < limit {
            limit as int
        } else {
            at - FREEZE_REACH_PX
        },
{
    let wide: i64 = at as i64 - FREEZE_REACH_PX as i64;
    if wide < limit as i64 {
        limit
    } else {
        wide as i32
    }
}

fn reach_forward(at: i32, limit: i32) -> (r: i32)
    requires
        at < limit,
    ensures
        r == if at + FREEZE_REACH_PX + 1 > limit {
            limit as int
        } else {
            at + FREEZE_REACH_PX + 1
        },
{
    let wide: i64 = at as i64 + FREEZE_REACH_PX as i64 + 1;
    if wide > limit as i64 {
        limit
    } else {
        wide as i32
    }
}

/// The local area to capture around `point`, never leaving `monitor`. A point
/// outside the monitor has none.
pub fn freeze_rect(point: ScreenPointPx, monitor: ScreenRectPx) -> (r: Option<ScreenRectPx>)
    ensures
        r == (if monitor.spec_contains(point) {
            Some(frozen_area(point, monitor))
        } else {
            None
        }),
{
    if !monitor.contains(point) {
        return None;
    }
    Some(
        ScreenRectPx {
            left: reach_back(point.x, monitor.left),
            top: reach_back(point.y, monitor.top),
            right: reach_forward(point.x, monitor.right),
            bottom: reach_forward(point.y, monitor.bottom),
        },
    )
}

/// A frozen area lies on its monitor, holds the sampled pixel, and is at most
/// 65 pixels wide and high.
pub proof fn frozen_area_is_local(point: ScreenPointPx, monitor: ScreenRectPx)
    requires
        monitor.spec_contains(point),
    ensures
        frozen_area(point, monitor).inside(monitor),
        frozen_area(point, monitor).spec_contains(point),
        frozen_area(point, monitor).spec_width() <= 65,
        frozen_area(point, monitor).spec_height() <= 65,
{
}

/// A pixel is captured exactly where it lies on the monitor and is at most
/// thirty-two columns and rows away from the sampled one.
pub proof fn frozen_areas_hold_the_neighbourhood(
    point: ScreenPointPx,
    monitor: ScreenRectPx,
    other: ScreenPointPx,
)
    requires
        monitor.spec_contains(point),
    ensures
        frozen_area(point, monitor).spec_contains(other) <==> monitor.spec_contains(other) && -32
            <= other.x - point.x <= 32 && -32 <= other.y - point.y <= 32,
{
}

/// A rectangle of some width and height begins at its first pixel and ends before
/// its right and bottom edge; an empty one has no pixel, and one of both extents is
/// zero.
pub proof fn extents_count_the_pixels(rect: ScreenRectPx, point: ScreenPointPx)
    ensures
        rect.spec_contains(point) <==> 0 <= point.x - rect.left < rect.spec_width() && 0 <= point.y
            - rect.top < rect.spec_height(),
        rect.empty() <==> rect.spec_width() * rect.spec_height() == 0,
        rect.empty() ==> !rect.spec_contains(point),
        rect.spec_width() >= 0 && rect.spec_height() >= 0,
{
    let (w, h) = (rect.spec_width(), rect.spec_height());
    assert(w * h == 0 <==> w == 0 || h == 0) by (nonlinear_arith)
        requires
            w >= 0,
            h >= 0,
    ;
}

/// A local rectangle without a pixel is empty, and one inside another has no pixel
/// that the other lacks.
pub proof fn inner_rectangles_share_their_pixels(inner: Rect, outer: Rect, x: int, y: int)
    ensures
        inner.empty() ==> !inner.has(x, y),
        !inner.empty() ==> inner.has(inner.left as int, inner.top as int) && inner.has(
            inner.right - 1,
            inner.bottom - 1,
        ),
        inner.inside(outer) && inner.has(x, y) ==> outer.has(x, y),
{
}

} // verus!
