//! Reusable decorative backdrop; refreshed only when moved, without timers.
//! The owning overlay must be excluded from captures before constructing this.
use crate::arith::fits_i32;
use crate::config::MAX_BACKGROUND_TRANSPARENCY_PERCENT;
use crate::geometry::{Rect, ScreenPointPx};
use crate::pixel_effects::{blur_and_tint, effect_error, horizontal_pass, vertical_pass};
use vstd::prelude::*;

verus! {

#[derive(Debug, Clone, Copy, PartialEq, Eq, Structural)]
pub enum FrostError {
    InvalidTransparency,
    InvalidLayout,
    /// The backdrop's place is not a desktop coordinate.
    OriginOverflow,
    /// The captured pixels do not fit the panel.
    InvalidEffect,
}

/// What painting the backdrop needs first.
#[derive(Debug, Clone, Copy, PartialEq, Eq, Structural)]
pub enum BackdropStep {
    /// The pixels blurred last are still the right ones.
    Reuse,
    /// Capture the desktop from this point, then blur it.
    Capture(ScreenPointPx),
}

/// A backdrop of a fixed size, and the desktop point its pixels were taken from.
#[derive(Debug)]
pub struct FrostedPanel {
    width: usize,
    height: usize,
    radius: usize,
    transparency_percent: u8,
    scratch: Vec<u8>,
    origin: Option<ScreenPointPx>,
}

/// Why a backdrop of this size cannot be made, if it cannot.
pub open spec fn panel_fault(width: int, height: int, transparency_percent: u8) -> Option<FrostError> {
    if transparency_percent > MAX_BACKGROUND_TRANSPARENCY_PERCENT {
        Some(FrostError::InvalidTransparency)
    } else if width <= 0 || height <= 0 || width * height * 4 > usize::MAX {
        Some(FrostError::InvalidLayout)
    } else {
        None
    }
}

/// The desktop point under the corner of `rect` in a window at `origin`.
pub open spec fn backdrop_origin(rect: Rect, origin: ScreenPointPx) -> Option<ScreenPointPx> {
    if fits_i32(origin.x + rect.left) && fits_i32(origin.y + rect.top) {
        Some(
            ScreenPointPx {
                x: (origin.x + rect.left) as i32,
                y: (origin.y + rect.top) as i32,
            },
        )
    } else {
        None
    }
}

impl FrostedPanel {
    /// The panel's blur radius is at least one pixel.
    pub open spec fn made_for(
        &self,
        width: int,
        height: int,
        radius: int,
        transparency_percent: u8,
    ) -> bool {
        &&& self.spec_width() == width
        &&& self.spec_height() == height
        &&& self.spec_radius() == (if radius > 1 {
            radius
        } else {
            1
        })
        &&& self.spec_transparency() == transparency_percent
    }

    pub closed spec fn spec_width(&self) -> int {
        self.width as int
    }

    pub closed spec fn spec_height(&self) -> int {
        self.height as int
    }

    pub closed spec fn spec_radius(&self) -> int {
        self.radius as int
    }

    pub closed spec fn spec_transparency(&self) -> int {
        self.transparency_percent as int
    }

    pub closed spec fn spec_scratch(&self) -> Seq<u8> {
        self.scratch@
    }

    /// The point whose backdrop is ready, if one is.
    pub closed spec fn ready_for(&self) -> Option<ScreenPointPx> {
        self.origin
    }

    pub open spec fn same_panel(&self, other: &FrostedPanel) -> bool {
        &&& self.spec_width() == other.spec_width()
        &&& self.spec_height() == other.spec_height()
        &&& self.spec_radius() == other.spec_radius()
        &&& self.spec_transparency() == other.spec_transparency()
    }

    /// The scratch storage covers the panel.
    pub open spec fn wf(&self) -> bool {
        &&& self.spec_width() > 0
        &&& self.spec_height() > 0
        &&& self.spec_width() * self.spec_height() * 4 <= usize::MAX
        &&& self.spec_scratch().len() == self.spec_width() * self.spec_height() * 4
        &&& self.spec_radius() >= 1
        &&& 0 <= self.spec_transparency() <= MAX_BACKGROUND_TRANSPARENCY_PERCENT
    }

    pub fn new(width: i32, height: i32, radius: i32, transparency_percent: u8) -> (r: Result<
        Self,
        FrostError,
    >)
        ensures
            r matches Err(error) ==> panel_fault(width as int, height as int, transparency_percent)
                == Some(error),
            r matches Ok(panel) ==> {
                &&& panel_fault(width as int, height as int, transparency_percent) is None
                &&& panel.wf()
                &&& panel.made_for(width as int, height as int, radius as int, transparency_percent)
                &&& panel.ready_for() is None
                &&& panel.spec_scratch() == Seq::new((width * height * 4) as nat, |i: int| 0u8)
            },
    {
        if transparency_percent > MAX_BACKGROUND_TRANSPARENCY_PERCENT {
            return Err(FrostError::InvalidTransparency);
        }
        if width <= 0 || height <= 0 {
            return Err(FrostError::InvalidLayout);
        }
        proof {
            assert(width * height >= 1) by (nonlinear_arith)
                requires
                    width >= 1,
                    height >= 1,
            ;
        }
        let columns: usize = width as usize;
        let rows: usize = height as usize;
        let area: usize = match columns.checked_mul(rows) {
            Some(area) => area,
            None => return Err(FrostError::InvalidLayout),
        };
        let len: usize = match area.checked_mul(4) {
            Some(len) => len,
            None => return Err(FrostError::InvalidLayout),
        };
        let scratch: Vec<u8> = vec![0; len];
        Ok(
            FrostedPanel {
                width: columns,
                height: rows,
                radius: if radius > 1 {
                    radius as usize
                } else {
                    1
                },
                transparency_percent,
                scratch,
                origin: None,
            },
        )
    }

    /// Decides whether the backdrop for `rect` of a window at `origin` has to be
    /// captured anew. From here until the capture is blurred no backdrop is ready.
    pub fn begin_paint(&mut self, rect: Rect, origin: ScreenPointPx) -> (r: Result<
        BackdropStep,
        FrostError,
    >)
        requires
            old(self).wf(),
        ensures
            final(self).wf(),
            final(self).same_panel(old(self)),
            final(self).spec_scratch() == old(self).spec_scratch(),
            match backdrop_origin(rect, origin) {
                None => r == Err::<BackdropStep, FrostError>(FrostError::OriginOverflow)
                    && final(self).ready_for() is None,
                Some(at) => if old(self).ready_for() == Some(at) {
                    r == Ok::<BackdropStep, FrostError>(BackdropStep::Reuse)
                        && final(self).ready_for() == Some(at)
                } else {
                    r == Ok::<BackdropStep, FrostError>(BackdropStep::Capture(at))
                        && final(self).ready_for() is None
                },
            },
    {
        let at = match (origin.x.checked_add(rect.left), origin.y.checked_add(rect.top)) {
            (Some(x), Some(y)) => ScreenPointPx { x, y },
            _ => {
                self.origin = None;
                return Err(FrostError::OriginOverflow);
            },
        };
        match self.origin {
            Some(ready) => {
                if ready == at {
                    return Ok(BackdropStep::Reuse);
                }
            },
            None => {},
        }
        self.origin = None;
        Ok(BackdropStep::Capture(at))
    }

    /// Blurs and tints the pixels captured for `at`. Only then is the backdrop
    /// ready; a failure leaves none, so that the next paint captures again.
    pub fn finish_capture(&mut self, pixels: &mut [u8], at: ScreenPointPx) -> (r: Result<
        (),
        FrostError,
    >)
        requires
            old(self).wf(),
        ensures
            final(self).wf(),
            final(self).same_panel(old(self)),
            match effect_error(
                old(pixels)@.len() as int,
                old(self).spec_scratch().len() as int,
                old(self).spec_width(),
                old(self).spec_height(),
                old(self).spec_radius(),
                old(self).spec_transparency(),
            ) {
                Some(_) => {
                    &&& r == Err::<(), FrostError>(FrostError::InvalidEffect)
                    &&& final(self).ready_for() is None
                    &&& final(self).spec_scratch() == old(self).spec_scratch()
                    &&& final(pixels)@ == old(pixels)@
                },
                None => {
                    &&& r is Ok
                    &&& final(self).ready_for() == Some(at)
                    &&& final(self).spec_scratch() == horizontal_pass(
                        old(pixels)@,
                        old(self).spec_scratch(),
                        old(self).spec_width(),
                        old(self).spec_radius(),
                    )
                    &&& final(pixels)@ == vertical_pass(
                        final(self).spec_scratch(),
                        old(pixels)@,
                        old(self).spec_width(),
                        old(self).spec_height(),
                        old(self).spec_radius(),
                        old(self).spec_transparency(),
                    )
                },
            },
    {
        self.origin = None;
        let result = blur_and_tint(
            pixels,
            self.scratch.as_mut_slice(),
            self.width,
            self.height,
            self.radius,
            self.transparency_percent,
        );
        match result {
            Ok(()) => {
                self.origin = Some(at);
                Ok(())
            },
            Err(_) => Err(FrostError::InvalidEffect),
        }
    }
}

/// A backdrop keeps its size, blurs by at least one pixel, and is captured from the
/// point of the desktop that its corner covers: the window's place and the corner's
/// place in it, added up.
pub proof fn backdrops_show_what_they_cover(
    rect: Rect,
    origin: ScreenPointPx,
    panel: FrostedPanel,
    width: int,
    height: int,
    radius: int,
    transparency_percent: u8,
)
    requires
        panel.made_for(width, height, radius, transparency_percent),
    ensures
        backdrop_origin(rect, origin) matches Some(at) ==> at.x - rect.left == origin.x && at.y
            - rect.top == origin.y,
        backdrop_origin(rect, origin) is None ==> !(i32::MIN <= origin.x + rect.left <= i32::MAX
            && i32::MIN <= origin.y + rect.top <= i32::MAX),
        panel.spec_width() == width && panel.spec_height() == height,
        panel.spec_radius() >= 1 && panel.spec_radius() >= radius,
        radius >= 1 ==> panel.spec_radius() == radius,
        panel.spec_transparency() == transparency_percent,
{
}

/// A backdrop can be made exactly for a size of at least one pixel whose bytes can
/// be counted, up to eighty percent of transparency.
pub proof fn backdrops_need_room_and_a_tint(width: int, height: int, transparency_percent: u8)
    ensures
        panel_fault(width, height, transparency_percent) is None <==> 1 <= width && 1 <= height
            && 4 * (width * height) <= usize::MAX && transparency_percent <= 80,
        panel_fault(width, height, transparency_percent) == Some(FrostError::InvalidTransparency)
            <==> transparency_percent > 80,
{
}

} // verus!
