//! The state of an open magnifier: what is hovered, what is picked, and what is
//! drawn.
use crate::arith::{clamped, greater};
use crate::color::{color_ref, color_ref_of_hex, Rgb8};
use crate::config::{AppearanceConfig, ConfigError, MAX_BORDER_WIDTH_DIP};
use crate::drawing::{
    border_px, border_steps, border_thickness, decides, dip, dip_is_monotone, fill_steps,
    label_steps, push_border, push_fill, push_label, stretched, stretched_color, swatch, swatch_color, DrawStep,
    Palette,
};
use crate::footer::{
    fits_text_width, footer_choice, footer_for, footer_labels, footer_places, footer_swatch_width,
    moderate, moderate_measure, smallest_text_width, smallest_width, swatch_extent, Footer,
    FooterLabel, FooterMeasure,
};
use crate::frost::{panel_fault, FrostedPanel};
use crate::geometry::{Rect, ScreenPointPx, ScreenRectPx};
use crate::magnifier::{
    clipped, clipped_frame_edges, compact_rows, creation_point, footer_height, frame_edge,
    inside_uncovered_window, layout_fault, local_rect, localized,
    magnifiers_are_centred_on_the_frozen_pixel, magnifiers_fit_the_work_area, native_extent,
    packed_rows, uncovered, window_layout, window_places, LayoutFault,
};
use crate::result_layout::lemma_dip;
use crate::sample::{PickedColor, SampleKind};
use crate::zoom::{
    centered_view, centers_are_exact, centers_map_back, centred_pixels_stand_in_the_middle,
    drawn_cells_are_complete, drawn_cells_fill_the_viewport, hits_name_their_pixel, off_by,
    rescaled_view, shows, zooming_keeps_the_pixel_under_the_cursor, CachePoint, FrozenImage, ImageError, SourcePixel, ZoomScale, ZoomView,
};
use vstd::arithmetic::div_mod::{lemma_fundamental_div_mod, lemma_fundamental_div_mod_converse};
use vstd::prelude::*;

verus! {

/// Largest side of a snapshot that is taken for freezing.
pub const MAX_SNAPSHOT_PX: u32 = 65;

/// Why an area cannot be frozen.
#[derive(Debug, Clone, Copy, PartialEq, Eq, Structural)]
pub enum FreezeError {
    Appearance(ConfigError),
    Image(ImageError),
    /// The snapshot is larger than a local capture, or the work area is empty.
    OutsideLimits,
    /// The frozen point is not in the snapshot.
    FocusOutside,
    Layout(LayoutFault),
}

/// Why a magnifier can no longer be used.
#[derive(Debug, Clone, Copy, PartialEq, Eq, Structural)]
pub enum MagnifierFault {
    /// Painting failed; the caller holds the native error.
    Paint,
    /// Display scaling changed while frozen.
    ScalingChanged,
    /// There is no frozen view.
    MissingView,
}

/// What became of a change of scale.
#[derive(Debug, Clone, Copy, PartialEq, Eq, Structural)]
pub enum ScaleStep {
    /// Down from the smallest scale: discard the magnifier and pick live again.
    Leave,
    /// Nothing visible changed.
    Kept,
    /// The window has to be painted again.
    Redraw,
}

/// A checked snapshot, and where its hidden window is created.
#[derive(Debug)]
pub struct FreezePlan {
    pub image: FrozenImage,
    pub focus: ScreenPointPx,
    pub work_area: ScreenRectPx,
    pub appearance: AppearanceConfig,
    pub cache: CachePoint,
    pub creation_point: ScreenPointPx,
}

/// The snapshot pixel of a desktop point, if the snapshot has it.
pub open spec fn cache_of(image: FrozenImage, focus: ScreenPointPx) -> Option<CachePoint> {
    let x = focus.x - image.origin.x;
    let y = focus.y - image.origin.y;
    if image.has(x, y) {
        Some(CachePoint { x: x as u32, y: y as u32 })
    } else {
        None
    }
}

/// Why an area cannot be frozen, if it cannot.
pub open spec fn freeze_fault(
    image: FrozenImage,
    focus: ScreenPointPx,
    work_area: ScreenRectPx,
    appearance: AppearanceConfig,
) -> Option<FreezeError> {
    if appearance.border_width_dip > MAX_BORDER_WIDTH_DIP {
        Some(FreezeError::Appearance(ConfigError::BorderTooWide))
    } else if !appearance.valid() {
        Some(FreezeError::Appearance(ConfigError::BackgroundTooTransparent))
    } else if image.fault() is Some {
        Some(FreezeError::Image(image.fault()->0))
    } else if image.width > MAX_SNAPSHOT_PX || image.height > MAX_SNAPSHOT_PX || work_area.empty() {
        Some(FreezeError::OutsideLimits)
    } else if cache_of(image, focus) is None {
        Some(FreezeError::FocusOutside)
    } else {
        None
    }
}

impl FreezePlan {
    /// What every plan keeps: its parts are valid and belong together.
    pub open spec fn wf(&self) -> bool {
        &&& self.image.fault() is None
        &&& self.image.width <= MAX_SNAPSHOT_PX && self.image.height <= MAX_SNAPSHOT_PX
        &&& self.image.stride_bytes == self.image.width * 4
        &&& self.appearance.valid()
        &&& !self.work_area.empty()
        &&& cache_of(self.image, self.focus) == Some(self.cache)
    }

    /// How a plan relates to what it was made from: the snapshot keeps its place
    /// and its colours and loses only the padding between its rows.
    pub open spec fn prepared_from(
        &self,
        image: FrozenImage,
        focus: ScreenPointPx,
        work_area: ScreenRectPx,
        appearance: AppearanceConfig,
    ) -> bool {
        &&& self.wf()
        &&& self.image.origin == image.origin
        &&& self.image.width == image.width
        &&& self.image.height == image.height
        &&& self.image.bgrx@ == (if image.stride_bytes == image.width * 4 {
            image.bgrx@
        } else {
            packed_rows(image)
        })
        &&& forall|x: int, y: int|
            image.has(x, y) ==> #[trigger] self.image.color_at(x, y) == image.color_at(x, y)
        &&& self.focus == focus
        &&& self.work_area == work_area
        &&& self.appearance == appearance
        &&& self.creation_point.x == clamped(
            focus.x as int,
            work_area.left as int,
            work_area.right - 1,
        )
        &&& self.creation_point.y == clamped(
            focus.y as int,
            work_area.top as int,
            work_area.bottom - 1,
        )
    }

    /// Checks a snapshot and removes its row padding.
    pub fn prepare(
        image: FrozenImage,
        focus: ScreenPointPx,
        work_area: ScreenRectPx,
        appearance: AppearanceConfig,
    ) -> (r: Result<FreezePlan, FreezeError>)
        ensures
            match freeze_fault(image, focus, work_area, appearance) {
                Some(error) => r == Err::<FreezePlan, FreezeError>(error),
                None => r matches Ok(plan) && plan.prepared_from(
                    image,
                    focus,
                    work_area,
                    appearance,
                ),
            },
    {
        match appearance.validate() {
            Ok(()) => {},
            Err(error) => return Err(FreezeError::Appearance(error)),
        }
        match image.validate() {
            Ok(()) => {},
            Err(error) => return Err(FreezeError::Image(error)),
        }
        if image.width > MAX_SNAPSHOT_PX || image.height > MAX_SNAPSHOT_PX || work_area.is_empty() {
            return Err(FreezeError::OutsideLimits);
        }
        let x: i64 = focus.x as i64 - image.origin.x as i64;
        let y: i64 = focus.y as i64 - image.origin.y as i64;
        if x < 0 || y < 0 || x >= image.width as i64 || y >= image.height as i64 {
            return Err(FreezeError::FocusOutside);
        }
        let mut image = image;
        compact_rows(&mut image);
        Ok(
            FreezePlan {
                image,
                focus,
                work_area,
                appearance,
                cache: CachePoint { x: x as u32, y: y as u32 },
                creation_point: creation_point(focus, work_area),
            },
        )
    }
}

/// The drawing surface of a magnifier.
#[derive(Debug)]
pub struct Surface {
    pub width: i32,
    pub height: i32,
    pub dpi: u32,
    pub appearance: AppearanceConfig,
    pub frost: Option<FrostedPanel>,
}

impl Surface {
    /// What a new surface of this size holds.
    pub open spec fn made_for(
        &self,
        width: int,
        height: int,
        dpi: u32,
        capture_excluded: bool,
        appearance: AppearanceConfig,
    ) -> bool {
        let transparency = appearance.background_transparency_percent;
        &&& self.width == width
        &&& self.height == height
        &&& self.dpi == dpi
        &&& self.appearance == appearance
        &&& self.frost is Some <==> capture_excluded && transparency != 0 && panel_fault(
            width,
            footer_height(dpi) as int,
            transparency,
        ) is None
        &&& self.frost matches Some(panel) ==> panel.wf() && panel.ready_for() is None
            && panel.made_for(width, footer_height(dpi) as int, dip(6, dpi) as int, transparency)
    }

    /// A surface of this size. The backdrop fills the information bar, and only
    /// where the overlay is excluded from captures and not opaque.
    pub fn new(
        width: i32,
        height: i32,
        dpi: u32,
        capture_excluded: bool,
        appearance: AppearanceConfig,
    ) -> (r: Self)
        ensures
            r.made_for(width as int, height as int, dpi, capture_excluded, appearance),
    {
        let frost = if capture_excluded && appearance.background_transparency_percent != 0 {
            match FrostedPanel::new(
                width,
                footer_height(dpi),
                dip(6, dpi),
                appearance.background_transparency_percent,
            ) {
                Ok(panel) => Some(panel),
                Err(_) => None,
            }
        } else {
            None
        };
        Surface { width, height, dpi, appearance, frost }
    }
}

/// An open magnifier. Before its native window has a size the first three fields
/// are empty.
#[derive(Debug)]
pub struct MagnifierWindow {
    pub view: Option<ZoomView>,
    pub surface: Option<Surface>,
    pub bounds: Option<ScreenRectPx>,
    pub visible: bool,
    pub hover: Option<SourcePixel>,
    pub footer: Footer,
    pub paint_failed: bool,
    pub layout_invalidated: bool,
}

impl Default for MagnifierWindow {
    fn default() -> (r: Self)
        ensures
            r.wf(),
            r.view is None,
            r.surface is None,
            r.bounds is None,
            !r.visible,
            r.hover is None,
            r.footer.rgb is None,
            r.footer.hex@.len() == 0,
            r.footer.scale@.len() == 0,
            r.footer.coordinates@.len() == 0,
            r.footer.compact_coordinates@.len() == 0,
            !r.paint_failed,
            !r.layout_invalidated,
    {
        MagnifierWindow {
            view: None,
            surface: None,
            bounds: None,
            visible: false,
            hover: None,
            footer: Footer {
                rgb: None,
                hex: Vec::new(),
                scale: Vec::new(),
                coordinates: Vec::new(),
                compact_coordinates: Vec::new(),
            },
            paint_failed: false,
            layout_invalidated: false,
        }
    }
}

impl MagnifierWindow {
    /// A view, where there is one, is well formed.
    pub open spec fn wf(&self) -> bool {
        self.view matches Some(view) ==> view.wf() && view.spec_image().stride_bytes
            == view.spec_image().width * 4
    }

    /// The scale shown in the information bar; four where there is no view.
    pub open spec fn shown_factor(&self) -> u32 {
        match self.view {
            Some(view) => view.spec_scale().cell() as u32,
            None => 4,
        }
    }

    /// Whether a pointer at this point can reach a pixel at all.
    pub open spec fn reaches(&self, point: ScreenPointPx) -> bool {
        self.bounds matches Some(bounds) && self.surface matches Some(surface) && uncovered(
            point,
            bounds,
            surface.dpi,
            surface.appearance.border_width_dip,
        )
    }

    /// The pixel of the view under a point that the pointer can reach.
    pub open spec fn reached(&self, point: ScreenPointPx) -> Option<SourcePixel> {
        if self.reaches(point) && self.view is Some {
            self.view->0.hit(point)
        } else {
            None
        }
    }

    /// The pixel that a click at this point picks.
    pub open spec fn picked(&self, point: ScreenPointPx) -> Option<SourcePixel> {
        if self.visible && !self.layout_invalidated && !self.paint_failed {
            self.reached(point)
        } else {
            None
        }
    }

    /// Everything but the view, the hover and its texts is the same.
    pub open spec fn same_window(&self, other: &MagnifierWindow) -> bool {
        &&& self.surface == other.surface
        &&& self.bounds == other.bounds
        &&& self.visible == other.visible
        &&& self.paint_failed == other.paint_failed
        &&& self.layout_invalidated == other.layout_invalidated
    }

    /// A failed drawing is told once; a changed scaling stays.
    pub open spec fn reported(&self, other: &MagnifierWindow) -> bool {
        &&& self.surface == other.surface
        &&& self.bounds == other.bounds
        &&& self.visible == other.visible
        &&& !self.paint_failed
        &&& self.layout_invalidated == other.layout_invalidated
    }

    /// Lays a checked snapshot out on a display of this DPI. The window is not
    /// visible yet.
    pub fn from_plan(plan: FreezePlan, dpi: u32, capture_excluded: bool) -> (r: Result<
        MagnifierWindow,
        FreezeError,
    >)
        requires
            plan.wf(),
        ensures
            match layout_fault(plan.work_area, dpi, plan.image.width, plan.image.height) {
                Some(fault) => r == Err::<MagnifierWindow, FreezeError>(FreezeError::Layout(fault)),
                None => r matches Ok(window) && window.laid_out(plan, dpi, capture_excluded),
            },
    {
        let (bounds, viewport) = match window_layout(
            plan.focus,
            plan.work_area,
            dpi,
            plan.image.width,
            plan.image.height,
        ) {
            Ok(places) => places,
            Err(fault) => return Err(FreezeError::Layout(fault)),
        };
        proof {
            magnifiers_fit_the_work_area(
                plan.focus,
                plan.work_area,
                dpi,
                plan.image.width,
                plan.image.height,
            );
        }
        let appearance = plan.appearance;
        let focus = plan.focus;
        let view = match ZoomView::new(plan.image, viewport, ZoomScale::X4, plan.cache) {
            Ok(view) => view,
            Err(_) => return Err(FreezeError::FocusOutside),
        };
        let surface = Surface::new(
            bounds.width() as i32,
            bounds.height() as i32,
            dpi,
            capture_excluded,
            appearance,
        );
        let hover = if inside_uncovered_window(focus, bounds, dpi, appearance.border_width_dip) {
            view.hit_test(focus)
        } else {
            None
        };
        let footer = footer_for(hover, 4);
        Ok(
            MagnifierWindow {
                view: Some(view),
                surface: Some(surface),
                bounds: Some(bounds),
                visible: false,
                hover,
                footer,
                paint_failed: false,
                layout_invalidated: false,
            },
        )
    }

    /// What a new magnifier holds: the snapshot centred on the frozen pixel at the
    /// smallest scale, and the texts of the pixel under the cursor.
    pub open spec fn laid_out(&self, plan: FreezePlan, dpi: u32, capture_excluded: bool) -> bool {
        let (bounds, viewport) = window_places(
            plan.focus,
            plan.work_area,
            dpi,
            plan.image.width,
            plan.image.height,
        );
        &&& self.wf()
        &&& self.drawable()
        &&& self.view matches Some(view) && {
            &&& view.spec_image() == plan.image
            &&& view.spec_viewport() == viewport
            &&& view.spec_scale() == ZoomScale::X4
            &&& view.spec_selected() == plan.cache
            &&& view.spec_source() == centered_view(
                plan.image,
                viewport,
                ZoomScale::X4,
                plan.cache,
            )
        }
        &&& self.surface matches Some(surface) && surface.made_for(
            bounds.right - bounds.left,
            bounds.bottom - bounds.top,
            dpi,
            capture_excluded,
            plan.appearance,
        )
        &&& self.bounds == Some(bounds)
        &&& !self.visible && !self.paint_failed && !self.layout_invalidated
        &&& self.hover == self.reached(plan.focus)
        &&& self.footer.describes(self.hover, 4)
    }

    /// Freezes an area with the usual appearance on a display of this DPI.
    pub fn new(
        image: FrozenImage,
        focus: ScreenPointPx,
        work_area: ScreenRectPx,
        dpi: u32,
        capture_excluded: bool,
    ) -> (r: Result<MagnifierWindow, FreezeError>)
        ensures
            ({
                let appearance = AppearanceConfig {
                    border_width_dip: 2,
                    background_transparency_percent: 35,
                };
                match freeze_fault(image, focus, work_area, appearance) {
                    Some(error) => r == Err::<MagnifierWindow, FreezeError>(error),
                    None => match layout_fault(work_area, dpi, image.width, image.height) {
                        Some(fault) => r == Err::<MagnifierWindow, FreezeError>(
                            FreezeError::Layout(fault),
                        ),
                        None => r matches Ok(window) && exists|plan: FreezePlan|
                            #[trigger] plan.prepared_from(image, focus, work_area, appearance)
                                && window.laid_out(plan, dpi, capture_excluded),
                    },
                }
            }),
    {
        MagnifierWindow::with_appearance(
            image,
            focus,
            work_area,
            AppearanceConfig::default(),
            dpi,
            capture_excluded,
        )
    }

    /// Freezes an area with the given appearance on a display of this DPI.
    pub fn with_appearance(
        image: FrozenImage,
        focus: ScreenPointPx,
        work_area: ScreenRectPx,
        appearance: AppearanceConfig,
        dpi: u32,
        capture_excluded: bool,
    ) -> (r: Result<MagnifierWindow, FreezeError>)
        ensures
            match freeze_fault(image, focus, work_area, appearance) {
                Some(error) => r == Err::<MagnifierWindow, FreezeError>(error),
                None => match layout_fault(work_area, dpi, image.width, image.height) {
                    Some(fault) => r == Err::<MagnifierWindow, FreezeError>(
                        FreezeError::Layout(fault),
                    ),
                    None => r matches Ok(window) && exists|plan: FreezePlan|
                        #[trigger] plan.prepared_from(image, focus, work_area, appearance)
                            && window.laid_out(plan, dpi, capture_excluded),
                },
            },
    {
        match FreezePlan::prepare(image, focus, work_area, appearance) {
            Ok(plan) => MagnifierWindow::from_plan(plan, dpi, capture_excluded),
            Err(error) => Err(error),
        }
    }

    /// Marks the window as shown.
    pub fn shown(&mut self)
        ensures
            final(self).visible,
            final(self).view == old(self).view,
            final(self).surface == old(self).surface,
            final(self).bounds == old(self).bounds,
            final(self).hover == old(self).hover,
            final(self).footer == old(self).footer,
            final(self).paint_failed == old(self).paint_failed,
            final(self).layout_invalidated == old(self).layout_invalidated,
    {
        self.visible = true;
    }

    /// Where the window is, while it is visible.
    pub fn rect(&self) -> (r: Option<ScreenRectPx>)
        ensures
            r == (if self.visible {
                self.bounds
            } else {
                None
            }),
    {
        if self.visible {
            self.bounds
        } else {
            None
        }
    }

    /// Marks the window as hidden and says whether the native window has to be.
    pub fn hide_window(&mut self) -> (r: bool)
        ensures
            r == old(self).visible,
            !final(self).visible,
            final(self).view == old(self).view,
            final(self).surface == old(self).surface,
            final(self).bounds == old(self).bounds,
            final(self).hover == old(self).hover,
            final(self).footer == old(self).footer,
            final(self).paint_failed == old(self).paint_failed,
            final(self).layout_invalidated == old(self).layout_invalidated,
    {
        let visible = self.visible;
        self.visible = false;
        visible
    }

    pub fn scale_factor(&self) -> (r: u32)
        ensures
            r == self.shown_factor(),
    {
        match &self.view {
            Some(view) => view.scale().factor(),
            None => 4,
        }
    }

    fn accepts_pointer(&self, point: ScreenPointPx) -> (r: bool)
        ensures
            r == self.reaches(point),
    {
        match (&self.bounds, &self.surface) {
            (Some(bounds), Some(surface)) => inside_uncovered_window(
                point,
                *bounds,
                surface.dpi,
                surface.appearance.border_width_dip,
            ),
            _ => false,
        }
    }

    /// The colour that a click at this point picks. It is taken from the event
    /// coordinate, even if hover painting is delayed.
    pub fn hit_test(&self, point: ScreenPointPx) -> (r: Option<PickedColor>)
        requires
            self.wf(),
        ensures
            r == (match self.picked(point) {
                Some(pixel) => Some(
                    PickedColor {
                        rgb: pixel.rgb,
                        source: pixel.source,
                        kind: SampleKind::Frozen,
                    },
                ),
                None => None,
            }),
    {
        if !self.visible || self.layout_invalidated || self.paint_failed || !self.accepts_pointer(
            point,
        ) {
            return None;
        }
        match &self.view {
            Some(view) => match view.hit_test(point) {
                Some(pixel) => Some(
                    PickedColor {
                        rgb: pixel.rgb,
                        source: pixel.source,
                        kind: SampleKind::Frozen,
                    },
                ),
                None => None,
            },
            None => None,
        }
    }

    /// Brings the texts in line with the hover.
    pub fn refresh_text(&mut self)
        ensures
            final(self).footer.describes(old(self).hover, old(self).shown_factor()),
            final(self).view == old(self).view,
            final(self).hover == old(self).hover,
            final(self).same_window(old(self)),
    {
        let factor: u32 = self.scale_factor();
        self.footer = footer_for(self.hover, factor);
    }

    /// Reports what makes the magnifier unusable. A paint failure is reported
    /// once; a changed display scaling is reported from then on.
    pub fn check(&mut self) -> (r: Result<(), MagnifierFault>)
        ensures
            r == (if old(self).paint_failed {
                Err::<(), MagnifierFault>(MagnifierFault::Paint)
            } else if old(self).layout_invalidated {
                Err(MagnifierFault::ScalingChanged)
            } else {
                Ok(())
            }),
            !final(self).paint_failed,
            final(self).view == old(self).view,
            final(self).surface == old(self).surface,
            final(self).bounds == old(self).bounds,
            final(self).visible == old(self).visible,
            final(self).hover == old(self).hover,
            final(self).footer == old(self).footer,
            final(self).layout_invalidated == old(self).layout_invalidated,
    {
        if self.paint_failed {
            self.paint_failed = false;
            return Err(MagnifierFault::Paint);
        }
        if self.layout_invalidated {
            return Err(MagnifierFault::ScalingChanged);
        }
        Ok(())
    }

    /// The fault that an event finds, if any.
    pub open spec fn fault(&self) -> Option<MagnifierFault> {
        if self.paint_failed {
            Some(MagnifierFault::Paint)
        } else if self.layout_invalidated {
            Some(MagnifierFault::ScalingChanged)
        } else {
            None
        }
    }

    /// Follows the cursor. Says whether the window has to be painted again.
    pub fn update_hover(&mut self, point: ScreenPointPx) -> (r: Result<bool, MagnifierFault>)
        requires
            old(self).wf(),
        ensures
            final(self).wf(),
            match old(self).fault() {
                Some(fault) => {
                    &&& r == Err::<bool, MagnifierFault>(fault)
                    &&& final(self).view == old(self).view
                    &&& final(self).hover == old(self).hover
                    &&& final(self).footer == old(self).footer
                    &&& final(self).reported(old(self))
                },
                None => {
                    &&& r == Ok::<bool, MagnifierFault>(old(self).hover != old(self).reached(point))
                    &&& final(self).hover == old(self).reached(point)
                    &&& final(self).same_window(old(self))
                    &&& final(self).view is Some <==> old(self).view is Some
                    &&& old(self).view matches Some(before) ==> {
                        let after = final(self).view->0;
                        &&& after.spec_image() == before.spec_image()
                        &&& after.spec_viewport() == before.spec_viewport()
                        &&& after.spec_scale() == before.spec_scale()
                        &&& after.spec_source() == before.spec_source()
                        &&& after.spec_selected() == (match old(self).reached(point) {
                            Some(pixel) => pixel.cache,
                            None => before.spec_selected(),
                        })
                    }
                    &&& old(self).hover != old(self).reached(point)
                        ==> final(self).footer.describes(
                        final(self).hover,
                        old(self).shown_factor(),
                    )
                    &&& old(self).hover == old(self).reached(point) ==> final(self).footer == old(self).footer
                },
            },
    {
        match self.check() {
            Ok(()) => {},
            Err(fault) => return Err(fault),
        }
        let accepts = self.accepts_pointer(point);
        let mut hover: Option<SourcePixel> = None;
        let view = self.view.take();
        if let Some(mut view) = view {
            if accepts {
                hover = view.select_at(point);
            }
            self.view = Some(view);
        }
        let same = match (&self.hover, &hover) {
            (Some(a), Some(b)) => *a == *b,
            (None, None) => true,
            _ => false,
        };
        if same {
            return Ok(false);
        }
        self.hover = hover;
        self.refresh_text();
        Ok(true)
    }

    /// Zooms in or out around the cursor.
    pub fn change_scale(&mut self, up: bool, point: ScreenPointPx) -> (r: Result<
        ScaleStep,
        MagnifierFault,
    >)
        requires
            old(self).wf(),
        ensures
            final(self).wf(),
            match old(self).fault() {
                Some(fault) => {
                    &&& r == Err::<ScaleStep, MagnifierFault>(fault)
                    &&& final(self).view == old(self).view
                    &&& final(self).hover == old(self).hover
                    &&& final(self).footer == old(self).footer
                    &&& final(self).reported(old(self))
                },
                None => match old(self).view {
                    None => r == Err::<ScaleStep, MagnifierFault>(MagnifierFault::MissingView)
                        && final(self).view is None && final(self).hover == old(self).hover
                        && final(self).footer == old(self).footer && final(self).same_window(
                        old(self),
                    ),
                    Some(before) => if !up && before.spec_scale() == ZoomScale::X4 {
                        &&& r == Ok::<ScaleStep, MagnifierFault>(ScaleStep::Leave)
                        &&& final(self).view == old(self).view
                        &&& final(self).hover == old(self).hover
                        &&& final(self).footer == old(self).footer
                        &&& final(self).same_window(old(self))
                    } else {
                        let next = if up {
                            before.spec_scale().next()
                        } else {
                            before.spec_scale().previous()->0
                        };
                        let redraw = before.spec_scale() != next || old(self).hover != final(self).hover;
                        &&& final(self).same_window(old(self))
                        &&& final(self).view is Some
                        &&& rescaled(before, final(self).view->0, next, point)
                        &&& final(self).hover == final(self).reached(point)
                        &&& r == Ok::<ScaleStep, MagnifierFault>(
                            if redraw {
                                ScaleStep::Redraw
                            } else {
                                ScaleStep::Kept
                            },
                        )
                        &&& redraw ==> final(self).footer.describes(
                            final(self).hover,
                            next.cell() as u32,
                        )
                        &&& !redraw ==> final(self).footer == old(self).footer
                    },
                },
            },
    {
        match self.check() {
            Ok(()) => {},
            Err(fault) => return Err(fault),
        }
        let accepts = self.accepts_pointer(point);
        let mut view = match self.view.take() {
            Some(view) => view,
            None => return Err(MagnifierFault::MissingView),
        };
        let previous = view.scale();
        let next = if up {
            previous.increase()
        } else {
            match previous.decrease() {
                Some(next) => next,
                None => {
                    self.view = Some(view);
                    return Ok(ScaleStep::Leave);
                },
            }
        };
        view.change_scale(next, point);
        let hover = if accepts {
            view.hit_test(point)
        } else {
            None
        };
        self.view = Some(view);
        let same = match (&self.hover, &hover) {
            (Some(a), Some(b)) => *a == *b,
            (None, None) => true,
            _ => false,
        };
        self.hover = hover;
        if previous != next || !same {
            self.refresh_text();
            Ok(ScaleStep::Redraw)
        } else {
            Ok(ScaleStep::Kept)
        }
    }

    /// Records that painting failed.
    pub fn painting_failed(&mut self)
        ensures
            final(self).paint_failed,
            final(self).view == old(self).view,
            final(self).surface == old(self).surface,
            final(self).bounds == old(self).bounds,
            final(self).visible == old(self).visible,
            final(self).hover == old(self).hover,
            final(self).footer == old(self).footer,
            final(self).layout_invalidated == old(self).layout_invalidated,
    {
        self.paint_failed = true;
    }

    /// Records that the display scaling changed.
    pub fn scaling_changed(&mut self)
        ensures
            final(self).layout_invalidated,
            final(self).view == old(self).view,
            final(self).surface == old(self).surface,
            final(self).bounds == old(self).bounds,
            final(self).visible == old(self).visible,
            final(self).hover == old(self).hover,
            final(self).footer == old(self).footer,
            final(self).paint_failed == old(self).paint_failed,
    {
        self.layout_invalidated = true;
    }

    /// Whether the border at the bottom lies below the pixels.
    pub open spec fn bar_holds_border(&self) -> bool {
        self.view matches Some(view) && self.surface matches Some(surface) && self.bounds matches Some(
            bounds,
        ) && view.spec_viewport().bottom <= bounds.bottom - border_px(
            surface.width as int,
            surface.height as int,
            surface.dpi,
            surface.appearance.border_width_dip,
        )
    }

    /// Whether the parts that are drawn belong together.
    pub open spec fn drawable(&self) -> bool {
        self.view matches Some(view) && self.surface matches Some(surface) && self.bounds matches Some(
            bounds,
        ) && {
            &&& view.spec_viewport().inside(bounds)
            &&& bounds.right - bounds.left <= 0x0400_0000
            &&& bounds.bottom - bounds.top <= 0x0400_0000
            &&& surface.width == bounds.right - bounds.left
            &&& surface.height == bounds.bottom - bounds.top
            &&& moderate(footer_height(surface.dpi) as int)
        }
    }
}

/// How a view relates to the one before a change of scale around a point.
pub open spec fn rescaled(before: ZoomView, after: ZoomView, next: ZoomScale, point: ScreenPointPx) -> bool {
    &&& after.spec_image() == before.spec_image()
    &&& after.spec_viewport() == before.spec_viewport()
    &&& after.spec_scale() == next
    &&& after.spec_selected() == (match before.hit(point) {
        Some(pixel) => pixel.cache,
        None => before.spec_selected(),
    })
    &&& after.spec_source() == rescaled_view(before, next, point)
}

/// Colour of the lines between large cells.
pub const GRID_COLOR: u32 = 0x0050_5050;

/// Number of grid lines along an extent, one at the start of every cell.
pub open spec fn line_count(extent: int, scale: int) -> nat {
    if extent <= 0 {
        0
    } else {
        ((extent + scale - 1) / scale) as nat
    }
}

/// One vertical grid line for every column of cells.
pub open spec fn vertical_lines(drawn: Rect, scale: int) -> Seq<DrawStep> {
    Seq::new(
        line_count(drawn.right - drawn.left, scale),
        |i: int|
            DrawStep::Fill {
                rect: Rect {
                    left: (drawn.left + i * scale) as i32,
                    top: drawn.top,
                    right: (drawn.left + i * scale + 1) as i32,
                    bottom: drawn.bottom,
                },
                color: GRID_COLOR,
            },
    )
}

/// One horizontal grid line for every row of cells.
pub open spec fn horizontal_lines(drawn: Rect, scale: int) -> Seq<DrawStep> {
    Seq::new(
        line_count(drawn.bottom - drawn.top, scale),
        |i: int|
            DrawStep::Fill {
                rect: Rect {
                    left: drawn.left,
                    top: (drawn.top + i * scale) as i32,
                    right: drawn.right,
                    bottom: (drawn.top + i * scale + 1) as i32,
                },
                color: GRID_COLOR,
            },
    )
}

/// The grid is drawn from sixteen times on, over complete cells.
pub open spec fn grid_steps(drawn: Rect, scale: int) -> Seq<DrawStep> {
    if scale >= 16 && !drawn.empty() {
        vertical_lines(drawn, scale) + horizontal_lines(drawn, scale)
    } else {
        Seq::empty()
    }
}

pub open spec fn edge_steps(edge: Option<Rect>, color: u32) -> Seq<DrawStep> {
    match edge {
        Some(rect) => fill_steps(rect, color),
        None => Seq::empty(),
    }
}

/// The four edges of a frame, each clipped to the image.
pub open spec fn frame_steps(rect: Rect, clip: Rect, color: u32) -> Seq<DrawStep> {
    edge_steps(clipped(frame_edge(rect, 0), clip), color) + edge_steps(
        clipped(frame_edge(rect, 1), clip),
        color,
    ) + edge_steps(clipped(frame_edge(rect, 2), clip), color) + edge_steps(
        clipped(frame_edge(rect, 3), clip),
        color,
    )
}

/// The frame around the hovered cell: black outside, white inside.
pub open spec fn hover_steps(center: Option<ScreenPointPx>, bounds: ScreenRectPx, drawn: Rect, scale: int) -> Seq<DrawStep> {
    match center {
        Some(center) => {
            let left = center.x - bounds.left - scale / 2;
            let top = center.y - bounds.top - scale / 2;
            frame_steps(
                Rect {
                    left: (left - 1) as i32,
                    top: (top - 1) as i32,
                    right: (left + scale + 1) as i32,
                    bottom: (top + scale + 1) as i32,
                },
                drawn,
                0,
            ) + frame_steps(
                Rect {
                    left: left as i32,
                    top: top as i32,
                    right: (left + scale) as i32,
                    bottom: (top + scale) as i32,
                },
                drawn,
                0x00ff_ffff,
            )
        },
        None => Seq::empty(),
    }
}

/// One text of the information bar, moved down to the bar and cut at the border.
pub open spec fn footer_label_steps(label: FooterLabel, top: int, limit: int, footer: Footer) -> Seq<DrawStep> {
    if label.shown {
        label_steps(
            label.font,
            Rect {
                top: (top + label.rect.top) as i32,
                bottom: (if top + label.rect.bottom <= limit {
                    top + label.rect.bottom
                } else {
                    limit
                }) as i32,
                ..label.rect
            },
            label.color,
            label.text,
            footer.shown_text(label.text).len() as int,
        )
    } else {
        Seq::empty()
    }
}

/// The information bar: base, backdrop, swatch and texts. `top` is its first row.
pub open spec fn footer_steps(
    width: i32,
    height: i32,
    dpi: u32,
    border_width_dip: u8,
    frosted: bool,
    top: i32,
    footer: Footer,
    text_width: int,
    measures: Seq<FooterMeasure>,
) -> Seq<DrawStep> {
    let panel = Rect { left: 0, top, right: width, bottom: height };
    let color = color_ref_of_hex(Palette::Panel.hex()) as u32;
    let border = border_px(width as int, height as int, dpi, border_width_dip);
    let swatch = swatch_extent(width as int, dpi, border, text_width);
    let (hex, scale, position) = footer_places(width as int, dpi, border, swatch, measures);
    fill_steps(panel, color) + backdrop_steps(frosted, panel) + fill_steps(
        Rect { left: 0, top, right: swatch as i32, bottom: (height - border) as i32 },
        swatch_color(footer.rgb) as u32,
    ) + footer_label_steps(hex, top as int, height - border, footer) + footer_label_steps(
        scale,
        top as int,
        height - border,
        footer,
    ) + footer_label_steps(position, top as int, height - border, footer)
}

/// The shown rows of the snapshot, stretched to the drawn cells.
pub open spec fn pixel_steps(view: ZoomView, drawn: Rect) -> Seq<DrawStep> {
    let source = view.spec_source();
    let stride = view.spec_image().stride_bytes;
    seq![
        DrawStep::Pixels {
            dest: drawn,
            source,
            first_byte: (source.y * stride) as usize,
            end_byte: ((source.y + source.height) * stride) as usize,
        },
    ]
}

/// Everything that a magnifier draws, in order: background, pixels, grid, the
/// frame around the hovered cell, the information bar and the border.
pub open spec fn magnifier_steps(
    view: ZoomView,
    surface: Surface,
    bounds: ScreenRectPx,
    hover: Option<SourcePixel>,
    footer: Footer,
    text_width: int,
    measures: Seq<FooterMeasure>,
) -> Seq<DrawStep> {
    let drawn = localized(view.drawn(), bounds);
    let viewport = localized(view.spec_viewport(), bounds);
    let center = match hover {
        Some(pixel) => view.center(pixel.cache),
        None => None,
    };
    fill_steps(
        Rect { left: 0, top: 0, right: surface.width, bottom: surface.height },
        color_ref_of_hex(Palette::Background.hex()) as u32,
    ) + pixel_steps(view, drawn) + grid_steps(drawn, view.spec_scale().cell()) + hover_steps(
        center,
        bounds,
        drawn,
        view.spec_scale().cell(),
    ) + footer_steps(
        surface.width,
        surface.height,
        surface.dpi,
        surface.appearance.border_width_dip,
        surface.frost is Some,
        viewport.bottom,
        footer,
        text_width,
        measures,
    ) + border_steps(
        surface.width,
        surface.height,
        surface.dpi,
        surface.appearance.border_width_dip,
    )
}

fn push_grid(steps: &mut Vec<DrawStep>, drawn: Rect, scale: ZoomScale)
    requires
        0 <= drawn.left <= drawn.right <= 0x0400_0000,
        0 <= drawn.top <= drawn.bottom <= 0x0400_0000,
    ensures
        final(steps)@ == old(steps)@ + grid_steps(drawn, scale.cell()),
{
    let step: i32 = scale.factor() as i32;
    let ghost before = steps@;
    if step < 16 || drawn.is_empty() {
        assert(steps@ =~= before + grid_steps(drawn, scale.cell()));
        return;
    }
    let ghost k = scale.cell();
    let mut x: i32 = drawn.left;
    let ghost mut i: int = 0;
    proof {
        assert(before + vertical_lines(drawn, k).take(0) =~= before);
        assert(0 * k == 0) by (nonlinear_arith);
    }
    while x < drawn.right
        invariant
            step == k,
            k == 16 || k == 32,
            0 <= drawn.left <= drawn.right <= 0x0400_0000,
            !drawn.empty(),
            drawn.left <= x <= drawn.right + k,
            x == drawn.left + i * k,
            0 <= i <= line_count(drawn.right - drawn.left, k),
            x >= drawn.right ==> i == line_count(drawn.right - drawn.left, k),
            steps@ == before + vertical_lines(drawn, k).take(i),
        decreases drawn.right + k - x,
    {
        proof {
            assert((i + 1) * k == i * k + k) by (nonlinear_arith);
        }
        steps.push(
            DrawStep::Fill {
                rect: Rect { left: x, top: drawn.top, right: x + 1, bottom: drawn.bottom },
                color: GRID_COLOR,
            },
        );
        assert(steps@ =~= before + vertical_lines(drawn, k).take(i + 1));
        x = x + step;
        proof {
            i = i + 1;
        }
    }
    assert(vertical_lines(drawn, k).take(i) =~= vertical_lines(drawn, k));
    let ghost middle = steps@;
    let mut y: i32 = drawn.top;
    let ghost mut j: int = 0;
    proof {
        assert(middle + horizontal_lines(drawn, k).take(0) =~= middle);
        assert(0 * k == 0) by (nonlinear_arith);
    }
    while y < drawn.bottom
        invariant
            step == k,
            k == 16 || k == 32,
            0 <= drawn.top <= drawn.bottom <= 0x0400_0000,
            !drawn.empty(),
            drawn.top <= y <= drawn.bottom + k,
            y == drawn.top + j * k,
            0 <= j <= line_count(drawn.bottom - drawn.top, k),
            y >= drawn.bottom ==> j == line_count(drawn.bottom - drawn.top, k),
            steps@ == middle + horizontal_lines(drawn, k).take(j),
        decreases drawn.bottom + k - y,
    {
        proof {
            assert((j + 1) * k == j * k + k) by (nonlinear_arith);
        }
        steps.push(
            DrawStep::Fill {
                rect: Rect { left: drawn.left, top: y, right: drawn.right, bottom: y + 1 },
                color: GRID_COLOR,
            },
        );
        assert(steps@ =~= middle + horizontal_lines(drawn, k).take(j + 1));
        y = y + step;
        proof {
            j = j + 1;
        }
    }
    assert(horizontal_lines(drawn, k).take(j) =~= horizontal_lines(drawn, k));
    assert(steps@ =~= before + grid_steps(drawn, k));
}

fn push_edge(steps: &mut Vec<DrawStep>, edge: Option<Rect>, color: u32)
    ensures
        final(steps)@ == old(steps)@ + edge_steps(edge, color),
{
    match edge {
        Some(rect) => push_fill(steps, rect, color),
        None => {},
    }
    assert(steps@ =~= old(steps)@ + edge_steps(edge, color));
}

fn push_frame(steps: &mut Vec<DrawStep>, rect: Rect, clip: Rect, color: u32)
    requires
        rect.top < i32::MAX,
        rect.left < i32::MAX,
        rect.bottom > i32::MIN,
        rect.right > i32::MIN,
    ensures
        final(steps)@ == old(steps)@ + frame_steps(rect, clip, color),
{
    let edges = clipped_frame_edges(rect, clip);
    assert(edges@[0] == clipped(frame_edge(rect, 0), clip));
    assert(edges@[1] == clipped(frame_edge(rect, 1), clip));
    assert(edges@[2] == clipped(frame_edge(rect, 2), clip));
    assert(edges@[3] == clipped(frame_edge(rect, 3), clip));
    push_edge(steps, edges[0], color);
    push_edge(steps, edges[1], color);
    push_edge(steps, edges[2], color);
    push_edge(steps, edges[3], color);
    assert(steps@ =~= old(steps)@ + frame_steps(rect, clip, color));
}

fn push_hover(
    steps: &mut Vec<DrawStep>,
    center: Option<ScreenPointPx>,
    bounds: ScreenRectPx,
    drawn: Rect,
    scale: ZoomScale,
)
    requires
        center matches Some(point) ==> moderate(point.x - bounds.left) && moderate(
            point.y - bounds.top,
        ),
    ensures
        final(steps)@ == old(steps)@ + hover_steps(center, bounds, drawn, scale.cell()),
{
    if let Some(point) = center {
        let side: i32 = scale.factor() as i32;
        let left: i32 = point.x - bounds.left - side / 2;
        let top: i32 = point.y - bounds.top - side / 2;
        push_frame(
            steps,
            Rect { left: left - 1, top: top - 1, right: left + side + 1, bottom: top + side + 1 },
            drawn,
            0,
        );
        push_frame(
            steps,
            Rect { left, top, right: left + side, bottom: top + side },
            drawn,
            0x00ff_ffff,
        );
    }
    assert(steps@ =~= old(steps)@ + hover_steps(center, bounds, drawn, scale.cell()));
}

fn push_footer_label(
    steps: &mut Vec<DrawStep>,
    label: FooterLabel,
    top: i32,
    limit: i32,
    footer: &Footer,
)
    requires
        0 <= top <= 0x0800_0000,
        -0x1000_0000 <= label.rect.top <= 0x2000_0000,
        -0x1000_0000 <= label.rect.bottom <= 0x2000_0000,
    ensures
        final(steps)@ == old(steps)@ + footer_label_steps(
            label,
            top as int,
            limit as int,
            *footer,
        ),
{
    if label.shown {
        let length: usize = footer.text(label.text).len();
        let bottom: i32 = if top + label.rect.bottom <= limit {
            top + label.rect.bottom
        } else {
            limit
        };
        push_label(
            steps,
            label.font,
            Rect { top: top + label.rect.top, bottom, ..label.rect },
            label.color,
            label.text,
            length,
        );
    }
    assert(steps@ =~= old(steps)@ + footer_label_steps(label, top as int, limit as int, *footer));
}

pub open spec fn backdrop_steps(frosted: bool, rect: Rect) -> Seq<DrawStep> {
    if frosted {
        seq![
            DrawStep::Backdrop { rect, fallback: color_ref_of_hex(Palette::Panel.hex()) as u32 },
        ]
    } else {
        Seq::empty()
    }
}

fn push_backdrop(steps: &mut Vec<DrawStep>, frosted: bool, rect: Rect)
    ensures
        final(steps)@ == old(steps)@ + backdrop_steps(frosted, rect),
{
    if frosted {
        steps.push(DrawStep::Backdrop { rect, fallback: Palette::Panel.color() });
    }
    assert(steps@ =~= old(steps)@ + backdrop_steps(frosted, rect));
}

/// The steps of the information bar whose first row is `top`. `text_width` is the
/// width of its smallest texts.
fn footer_plan(
    surface: &Surface,
    top: i32,
    footer: &Footer,
    text_width: i32,
    measures: &[FooterMeasure; 4],
) -> (r: Vec<DrawStep>)
    requires
        0 <= top <= surface.height <= 0x0400_0000,
        0 <= surface.width <= 0x0400_0000,
        moderate(footer_height(surface.dpi) as int),
        fits_text_width(text_width as int),
        forall|i: int| 0 <= i < 4 ==> moderate_measure(#[trigger] measures@[i]),
    ensures
        r@ == footer_steps(
            surface.width,
            surface.height,
            surface.dpi,
            surface.appearance.border_width_dip,
            surface.frost is Some,
            top,
            *footer,
            text_width as int,
            measures@,
        ),
{
    let mut steps: Vec<DrawStep> = Vec::new();
    let panel = Rect { left: 0, top, right: surface.width, bottom: surface.height };
    push_fill(&mut steps, panel, Palette::Panel.color());
    proof {
        let first = fill_steps(panel, color_ref_of_hex(Palette::Panel.hex()) as u32);
        assert(Seq::<DrawStep>::empty() + first =~= first);
    }
    push_backdrop(&mut steps, surface.frost.is_some(), panel);
    let border: i32 = border_thickness(
        surface.width,
        surface.height,
        surface.dpi,
        surface.appearance.border_width_dip,
    );
    let swatch_width: i32 = footer_swatch_width(surface.width, surface.dpi, border, text_width);
    push_fill(
        &mut steps,
        Rect { left: 0, top, right: swatch_width, bottom: surface.height - border },
        swatch(footer.rgb),
    );
    let (hex, scale, position) = footer_labels(
        surface.width,
        surface.dpi,
        border,
        swatch_width,
        measures,
    );
    proof {
        lemma_label_rows(surface.width as int, surface.dpi, border as int, swatch_width as int, measures@);
    }
    push_footer_label(&mut steps, hex, top, surface.height - border, footer);
    push_footer_label(&mut steps, scale, top, surface.height - border, footer);
    push_footer_label(&mut steps, position, top, surface.height - border, footer);
    steps
}

/// The rows of the placed texts stay small.
proof fn lemma_label_rows(width: int, dpi: u32, border: int, swatch: int, measures: Seq<FooterMeasure>)
    requires
        measures.len() == 4,
        moderate(width),
        moderate(border),
        moderate(swatch),
        moderate(footer_height(dpi) as int),
        forall|i: int| 0 <= i < 4 ==> moderate_measure(#[trigger] measures[i]),
    ensures
        ({
            let (hex, scale, position) = footer_places(width, dpi, border, swatch, measures);
            &&& 0 <= hex.rect.top <= 0x2000_0000 && 0 <= hex.rect.bottom <= 0x2000_0000
            &&& 0 <= scale.rect.top <= 0x2000_0000 && 0 <= scale.rect.bottom <= 0x2000_0000
            &&& 0 <= position.rect.top <= 0x2000_0000 && 0 <= position.rect.bottom <= 0x2000_0000
        }),
{
    let left = swatch + 2;
    let available = greater(width - border - 2, left) - left;
    let choice = footer_choice(measures, available);
    assert(moderate_measure(measures[choice]));
}

fn push_pixels(steps: &mut Vec<DrawStep>, view: &ZoomView, drawn: Rect)
    requires
        view.wf(),
    ensures
        final(steps)@ == old(steps)@ + pixel_steps(*view, drawn),
{
    let source = view.source_view();
    let image = view.image();
    let stride: usize = image.stride_bytes;
    proof {
        assert(image.bgrx.len() == image.bgrx@.len());
        assert(0 <= source.y * stride && source.y * stride <= (source.y + source.height) * stride && (
        source.y + source.height) * stride <= stride * image.height) by (nonlinear_arith)
            requires
                0 <= source.y,
                0 <= source.height,
                source.y + source.height <= image.height,
                0 <= stride,
        ;
    }
    steps.push(
        DrawStep::Pixels {
            dest: drawn,
            source,
            first_byte: source.y as usize * stride,
            end_byte: (source.y + source.height) as usize * stride,
        },
    );
    assert(steps@ =~= old(steps)@ + pixel_steps(*view, drawn));
}

fn draw_plan(
    view: &ZoomView,
    surface: &Surface,
    bounds: ScreenRectPx,
    hover: Option<SourcePixel>,
    footer: &Footer,
    text_width: i32,
    measures: &[FooterMeasure; 4],
) -> (r: Vec<DrawStep>)
    requires
        view.wf(),
        view.spec_viewport().inside(bounds),
        bounds.right - bounds.left <= 0x0400_0000,
        bounds.bottom - bounds.top <= 0x0400_0000,
        surface.width == bounds.right - bounds.left,
        surface.height == bounds.bottom - bounds.top,
        moderate(footer_height(surface.dpi) as int),
        fits_text_width(text_width as int),
        forall|i: int| 0 <= i < 4 ==> moderate_measure(#[trigger] measures@[i]),
    ensures
        r@ == magnifier_steps(
            *view,
            *surface,
            bounds,
            hover,
            *footer,
            text_width as int,
            measures@,
        ),
{
    let mut steps: Vec<DrawStep> = Vec::new();
    proof {
        drawn_cells_are_complete(*view);
    }
    let whole = Rect { left: 0, top: 0, right: surface.width, bottom: surface.height };
    push_fill(&mut steps, whole, Palette::Background.color());
    proof {
        let first = fill_steps(whole, color_ref_of_hex(Palette::Background.hex()) as u32);
        assert(Seq::<DrawStep>::empty() + first =~= first);
    }
    let drawn = local_rect(view.drawn_rect(), bounds);
    let viewport = local_rect(view.viewport(), bounds);
    push_pixels(&mut steps, view, drawn);
    push_grid(&mut steps, drawn, view.scale());
    let center = match hover {
        Some(pixel) => view.cell_center(pixel.cache),
        None => None,
    };
    proof {
        if center is Some {
            centers_map_back(*view, hover->0.cache);
        }
    }
    push_hover(&mut steps, center, bounds, drawn, view.scale());
    let mut bar: Vec<DrawStep> = footer_plan(
        surface,
        viewport.bottom,
        footer,
        text_width,
        measures,
    );
    steps.append(&mut bar);
    push_border(
        &mut steps,
        surface.width,
        surface.height,
        surface.dpi,
        surface.appearance.border_width_dip,
    );
    steps
}

impl MagnifierWindow {
    /// The steps that draw the window; none where there is nothing to draw yet.
    /// `measures` are the sizes of the texts of each font choice.
    pub fn draw(&self, measures: &[FooterMeasure; 4]) -> (r: Vec<DrawStep>)
        requires
            self.wf(),
            self.view is Some && self.surface is Some && self.bounds is Some ==> self.drawable(),
            forall|i: int| 0 <= i < 4 ==> moderate_measure(#[trigger] measures@[i]),
        ensures
            r@ == (if self.view is Some && self.surface is Some && self.bounds is Some {
                magnifier_steps(
                    self.view->0,
                    self.surface->0,
                    self.bounds->0,
                    self.hover,
                    self.footer,
                    smallest_text_width(measures@),
                    measures@,
                )
            } else {
                Seq::empty()
            }),
    {
        match (&self.view, &self.surface, &self.bounds) {
            (Some(view), Some(surface), Some(bounds)) => draw_plan(
                view,
                surface,
                *bounds,
                self.hover,
                &self.footer,
                smallest_width(measures),
                measures,
            ),
            _ => Vec::new(),
        }
    }
}

/// Neither the information bar, nor the right border, nor anything outside the
/// window picks a colour or is hovered.
pub proof fn only_uncovered_pixels_are_picked(window: MagnifierWindow, point: ScreenPointPx)
    requires
        window.wf(),
        window.view matches Some(view) && window.bounds matches Some(bounds)
            && window.surface matches Some(surface) && (!view.spec_viewport().spec_contains(point)
            || !bounds.spec_contains(point) || point.x >= bounds.right - border_px(
            native_extent(bounds.spec_width()),
            native_extent(bounds.spec_height()),
            surface.dpi,
            surface.appearance.border_width_dip,
        )),
    ensures
        window.reached(point) is None,
        window.picked(point) is None,
{
    drawn_cells_are_complete(window.view->0);
}

/// Once the cursor was followed to a point, a click there picks exactly the pixel
/// that is hovered and described.
pub proof fn clicks_pick_what_is_hovered(window: MagnifierWindow, point: ScreenPointPx)
    requires
        window.wf(),
        window.hover == window.reached(point),
        window.visible,
        window.fault() is None,
    ensures
        window.picked(point) == window.hover,
{
}

/// A hidden magnifier, one that failed to paint, and one whose display scaling
/// changed pick nothing.
pub proof fn unusable_magnifiers_pick_nothing(window: MagnifierWindow, point: ScreenPointPx)
    requires
        !window.visible || window.fault() is Some,
    ensures
        window.picked(point) is None,
{
}

/// The frame of the hovered pixel surrounds exactly its cell: the corner of the
/// white frame is the first pixel of the cell, and that pixel shows the hover.
pub proof fn the_frame_surrounds_the_hovered_cell(view: ZoomView, cache: CachePoint, corner: ScreenPointPx)
    requires
        view.wf(),
        shows(view.spec_source(), cache),
        corner.x == view.center(cache)->0.x - view.spec_scale().cell() / 2,
        corner.y == view.center(cache)->0.y - view.spec_scale().cell() / 2,
    ensures
        corner.x == view.drawn().left + (cache.x - view.spec_source().x) * view.spec_scale().cell(),
        corner.y == view.drawn().top + (cache.y - view.spec_source().y) * view.spec_scale().cell(),
{
    centers_map_back(view, cache);
    centers_are_exact(view, cache);
}

/// Stretching by a whole factor repeats every pixel that often.
proof fn lemma_stretched(distance: int, source: int, cell: int)
    requires
        0 <= distance < source * cell,
        cell > 0,
    ensures
        stretched(distance, source, source * cell) == distance / cell,
        0 <= distance / cell < source,
{
    let index = distance / cell;
    let rest = distance % cell;
    lemma_fundamental_div_mod(distance, cell);
    assert(source > 0 && 0 <= index < source) by (nonlinear_arith)
        requires
            0 <= distance < source * cell,
            cell > 0,
            distance == cell * index + rest,
            0 <= rest < cell,
    ;
    assert(distance * source == (source * cell) * index + rest * source) by (nonlinear_arith)
        requires
            distance == cell * index + rest,
    ;
    assert(0 <= rest * source < source * cell) by (nonlinear_arith)
        requires
            0 <= rest < cell,
            source > 0,
    ;
    assert(index * (source * cell) == (source * cell) * index) by (nonlinear_arith);
    lemma_fundamental_div_mod_converse(
        distance * source,
        source * cell,
        index,
        rest * source,
    );
}

/// The colour that a step of a view's snapshot paints at a point.
pub open spec fn step_color(step: DrawStep, view: ZoomView, x: int, y: int) -> Option<Rgb8> {
    match step {
        DrawStep::Pixels { dest, source, first_byte, end_byte } => Some(
            stretched_color(
                dest,
                source,
                view.spec_image().bgrx@.subrange(first_byte as int, end_byte as int),
                view.spec_image().width as int,
                x,
                y,
            ),
        ),
        _ => None,
    }
}

/// The magnified snapshot shows at every point the very pixel that is hovered and
/// picked there.
pub proof fn painted_pixels_are_the_picked_ones(window: MagnifierWindow, point: ScreenPointPx)
    requires
        window.wf(),
        window.drawable(),
        window.reached(point) is Some,
    ensures
        step_color(
            pixel_steps(
                window.view->0,
                localized(window.view->0.drawn(), window.bounds->0),
            )[0],
            window.view->0,
            point.x - window.bounds->0.left,
            point.y - window.bounds->0.top,
        ) == Some(window.reached(point)->0.rgb),
{
    let view = window.view->0;
    let bounds = window.bounds->0;
    drawn_cells_are_complete(view);
    let image = view.spec_image();
    let source = view.spec_source();
    let cell = view.spec_scale().cell();
    let dx = point.x - view.drawn().left;
    let dy = point.y - view.drawn().top;
    lemma_stretched(dx, source.width as int, cell);
    lemma_stretched(dy, source.height as int, cell);
    let column = source.x + dx / cell;
    let row = dy / cell;
    let width = image.width as int;
    let stride = image.stride_bytes as int;
    let first = source.y * stride;
    let end = (source.y + source.height) * stride;
    let at = (row * width + column) * 4;
    assert(0 <= first && first <= end && end <= stride * image.height) by (nonlinear_arith)
        requires
            first == source.y * stride,
            end == (source.y + source.height) * stride,
            0 <= source.y,
            0 <= source.height,
            source.y + source.height <= image.height,
            0 <= stride,
    ;
    assert(image.bgrx.len() == image.bgrx@.len());
    assert(0 <= at && at + 4 <= end - first) by (nonlinear_arith)
        requires
            at == (row * width + column) * 4,
            first == source.y * stride,
            end == (source.y + source.height) * stride,
            stride == width * 4,
            0 <= row < source.height,
            0 <= column < width,
    ;
    assert(first + at == (source.y + row) * stride + column * 4) by (nonlinear_arith)
        requires
            at == (row * width + column) * 4,
            first == source.y * stride,
            stride == width * 4,
    ;
}

/// Whether none of the steps can change a pixel.
pub open spec fn spares(steps: Seq<DrawStep>, x: int, y: int) -> bool {
    forall|i: int| 0 <= i < steps.len() ==> !(#[trigger] steps[i]).covers(x, y)
}

proof fn lemma_spares_both(one: Seq<DrawStep>, other: Seq<DrawStep>, x: int, y: int)
    requires
        spares(one, x, y),
        spares(other, x, y),
    ensures
        spares(one + other, x, y),
{
}

/// Grid lines begin cells, so they miss the middle of every cell.
proof fn lemma_grid_spares(drawn: Rect, scale: ZoomScale, column: int, row: int, x: int, y: int)
    requires
        0 <= drawn.left <= drawn.right <= 0x0400_0000,
        0 <= drawn.top <= drawn.bottom <= 0x0400_0000,
        x == drawn.left + column * scale.cell() + scale.cell() / 2,
        y == drawn.top + row * scale.cell() + scale.cell() / 2,
    ensures
        spares(grid_steps(drawn, scale.cell()), x, y),
{
    let k = scale.cell();
    if k >= 16 && !drawn.empty() {
        let vertical = vertical_lines(drawn, k);
        let horizontal = horizontal_lines(drawn, k);
        assert forall|i: int| 0 <= i < vertical.len() implies !(#[trigger] vertical[i]).covers(
            x,
            y,
        ) by {
            match scale {
                ZoomScale::X4 => {},
                ZoomScale::X8 => {},
                ZoomScale::X16 => {},
                ZoomScale::X32 => {},
            }
        }
        assert forall|i: int| 0 <= i < horizontal.len() implies !(#[trigger] horizontal[i]).covers(
            x,
            y,
        ) by {
            match scale {
                ZoomScale::X4 => {},
                ZoomScale::X8 => {},
                ZoomScale::X16 => {},
                ZoomScale::X32 => {},
            }
        }
        lemma_spares_both(vertical, horizontal, x, y);
    }
}

/// A frame is drawn along its edges only.
proof fn lemma_frame_spares(rect: Rect, clip: Rect, color: u32, x: int, y: int)
    requires
        i32::MIN < rect.left < i32::MAX && i32::MIN < rect.right < i32::MAX,
        i32::MIN < rect.top < i32::MAX && i32::MIN < rect.bottom < i32::MAX,
        x != rect.left && x != rect.right - 1,
        y != rect.top && y != rect.bottom - 1,
    ensures
        spares(frame_steps(rect, clip, color), x, y),
{
}

/// The frames around a hovered cell miss the middle of every cell.
proof fn lemma_hover_spares(
    center: Option<ScreenPointPx>,
    bounds: ScreenRectPx,
    drawn: Rect,
    scale: ZoomScale,
    columns: int,
    rows: int,
    x: int,
    y: int,
)
    requires
        center matches Some(middle) ==> {
            &&& moderate(middle.x - bounds.left)
            &&& moderate(middle.y - bounds.top)
            &&& x == middle.x - bounds.left + columns * scale.cell()
            &&& y == middle.y - bounds.top + rows * scale.cell()
        },
    ensures
        spares(hover_steps(center, bounds, drawn, scale.cell()), x, y),
{
    if let Some(middle) = center {
        let k = scale.cell();
        let left = middle.x - bounds.left - k / 2;
        let top = middle.y - bounds.top - k / 2;
        match scale {
            ZoomScale::X4 => {},
            ZoomScale::X8 => {},
            ZoomScale::X16 => {},
            ZoomScale::X32 => {},
        }
        let outer = Rect {
            left: (left - 1) as i32,
            top: (top - 1) as i32,
            right: (left + k + 1) as i32,
            bottom: (top + k + 1) as i32,
        };
        let inner = Rect {
            left: left as i32,
            top: top as i32,
            right: (left + k) as i32,
            bottom: (top + k) as i32,
        };
        lemma_frame_spares(outer, drawn, 0, x, y);
        lemma_frame_spares(inner, drawn, 0x00ff_ffff, x, y);
        lemma_spares_both(
            frame_steps(outer, drawn, 0),
            frame_steps(inner, drawn, 0x00ff_ffff),
            x,
            y,
        );
    }
}

/// Everything in the information bar lies below its first row.
proof fn lemma_footer_spares(
    surface: Surface,
    top: i32,
    footer: Footer,
    text_width: int,
    measures: Seq<FooterMeasure>,
    x: int,
    y: int,
)
    requires
        0 <= top <= surface.height <= 0x0400_0000,
        0 <= surface.width <= 0x0400_0000,
        moderate(footer_height(surface.dpi) as int),
        measures.len() == 4,
        forall|i: int| 0 <= i < 4 ==> moderate_measure(#[trigger] measures[i]),
        y < top,
    ensures
        spares(
            footer_steps(
                surface.width,
                surface.height,
                surface.dpi,
                surface.appearance.border_width_dip,
                surface.frost is Some,
                top,
                footer,
                text_width,
                measures,
            ),
            x,
            y,
        ),
{
    let border = border_px(
        surface.width as int,
        surface.height as int,
        surface.dpi,
        surface.appearance.border_width_dip,
    );
    let swatch = swatch_extent(surface.width as int, surface.dpi, border, text_width);
    lemma_label_rows(surface.width as int, surface.dpi, border, swatch, measures);
}

/// The border lies along the right and bottom edges only.
proof fn lemma_border_spares(surface: Surface, x: int, y: int)
    requires
        0 <= surface.width,
        0 <= surface.height,
        x < surface.width - border_px(
            surface.width as int,
            surface.height as int,
            surface.dpi,
            surface.appearance.border_width_dip,
        ),
        y < surface.height - border_px(
            surface.width as int,
            surface.height as int,
            surface.dpi,
            surface.appearance.border_width_dip,
        ),
    ensures
        spares(
            border_steps(
                surface.width,
                surface.height,
                surface.dpi,
                surface.appearance.border_width_dip,
            ),
            x,
            y,
        ),
{
}

/// The steps after the first two are those of the remaining parts.
proof fn lemma_later_steps(
    whole: Seq<DrawStep>,
    pixels: Seq<DrawStep>,
    grid: Seq<DrawStep>,
    frame: Seq<DrawStep>,
    bar: Seq<DrawStep>,
    border: Seq<DrawStep>,
    x: int,
    y: int,
)
    requires
        whole.len() == 1,
        pixels.len() == 1,
        spares(grid, x, y),
        spares(frame, x, y),
        spares(bar, x, y),
        spares(border, x, y),
    ensures
        ({
            let steps = whole + pixels + grid + frame + bar + border;
            &&& steps[1] == pixels[0]
            &&& forall|i: int| 1 < i < steps.len() ==> !(#[trigger] steps[i]).covers(x, y)
        }),
{
    let steps = whole + pixels + grid + frame + bar + border;
    let later = grid + frame + bar + border;
    lemma_spares_both(grid, frame, x, y);
    lemma_spares_both(grid + frame, bar, x, y);
    lemma_spares_both(grid + frame + bar, border, x, y);
    assert(steps =~= whole + pixels + later);
    assert forall|i: int| 1 < i < steps.len() implies !(#[trigger] steps[i]).covers(x, y) by {
        assert(steps[i] == later[i - 2]);
    }
}

/// Neither the grid nor a frame covers the middle of a cell.
proof fn lemma_cells_spared(
    view: ZoomView,
    bounds: ScreenRectPx,
    hover: Option<SourcePixel>,
    cache: CachePoint,
)
    requires
        view.wf(),
        view.spec_viewport().inside(bounds),
        bounds.right - bounds.left <= 0x0400_0000,
        bounds.bottom - bounds.top <= 0x0400_0000,
        shows(view.spec_source(), cache),
    ensures
        ({
            let x = view.center(cache)->0.x - bounds.left;
            let y = view.center(cache)->0.y - bounds.top;
            let drawn = localized(view.drawn(), bounds);
            let hovered = match hover {
                Some(pixel) => view.center(pixel.cache),
                None => None,
            };
            &&& spares(grid_steps(drawn, view.spec_scale().cell()), x, y)
            &&& spares(hover_steps(hovered, bounds, drawn, view.spec_scale().cell()), x, y)
            &&& drawn.has(x, y)
        }),
{
    drawn_cells_are_complete(view);
    centers_are_exact(view, cache);
    centers_map_back(view, cache);
    let drawn = localized(view.drawn(), bounds);
    let scale = view.spec_scale();
    let source = view.spec_source();
    let x = view.center(cache)->0.x - bounds.left;
    let y = view.center(cache)->0.y - bounds.top;
    lemma_grid_spares(drawn, scale, cache.x - source.x, cache.y - source.y, x, y);
    let hovered = match hover {
        Some(pixel) => view.center(pixel.cache),
        None => None,
    };
    if hovered is Some {
        let other = hover->0.cache;
        centers_are_exact(view, other);
        centers_map_back(view, other);
        let cell = scale.cell();
        assert((cache.x - source.x) * cell == (other.x - source.x) * cell + (cache.x - other.x)
            * cell) by (nonlinear_arith);
        assert((cache.y - source.y) * cell == (other.y - source.y) * cell + (cache.y - other.y)
            * cell) by (nonlinear_arith);
        lemma_hover_spares(
            hovered,
            bounds,
            drawn,
            scale,
            cache.x - other.x,
            cache.y - other.y,
            x,
            y,
        );
    }
}

/// Whatever is hovered, the middle of a cell that the pointer can reach shows the
/// cell's own pixel: that is what is painted there, and of all later steps none
/// covers it.
pub proof fn reachable_cells_stay_visible(
    window: MagnifierWindow,
    cache: CachePoint,
    measures: Seq<FooterMeasure>,
)
    requires
        window.wf(),
        window.drawable(),
        measures.len() == 4,
        forall|i: int| 0 <= i < 4 ==> moderate_measure(#[trigger] measures[i]),
        shows(window.view->0.spec_source(), cache),
        window.reached(window.view->0.center(cache)->0) is Some,
        window.bar_holds_border(),
    ensures
        ({
            let center = window.view->0.center(cache)->0;
            let x = center.x - window.bounds->0.left;
            let y = center.y - window.bounds->0.top;
            let steps = magnifier_steps(
                window.view->0,
                window.surface->0,
                window.bounds->0,
                window.hover,
                window.footer,
                smallest_text_width(measures),
                measures,
            );
            &&& steps[1] == pixel_steps(
                window.view->0,
                localized(window.view->0.drawn(), window.bounds->0),
            )[0]
            &&& step_color(steps[1], window.view->0, x, y) == Some(
                window.view->0.spec_image().color_at(cache.x as int, cache.y as int),
            )
            &&& forall|i: int| 1 < i < steps.len() ==> !(#[trigger] steps[i]).covers(x, y)
        }),
{
    let text_width = smallest_text_width(measures);
    let view = window.view->0;
    let surface = window.surface->0;
    let bounds = window.bounds->0;
    let x = view.center(cache)->0.x - bounds.left;
    let y = view.center(cache)->0.y - bounds.top;
    let drawn = localized(view.drawn(), bounds);
    let viewport = localized(view.spec_viewport(), bounds);
    let hovered = match window.hover {
        Some(pixel) => view.center(pixel.cache),
        None => None,
    };
    drawn_cells_are_complete(view);
    centers_map_back(view, cache);
    painted_pixels_are_the_picked_ones(window, view.center(cache)->0);
    lemma_cells_spared(view, bounds, window.hover, cache);
    lemma_footer_spares(surface, viewport.bottom, window.footer, text_width, measures, x, y);
    lemma_border_spares(surface, x, y);
    lemma_later_steps(
        fill_steps(
            Rect { left: 0, top: 0, right: surface.width, bottom: surface.height },
            color_ref_of_hex(Palette::Background.hex()) as u32,
        ),
        pixel_steps(view, drawn),
        grid_steps(drawn, view.spec_scale().cell()),
        hover_steps(hovered, bounds, drawn, view.spec_scale().cell()),
        footer_steps(
            surface.width,
            surface.height,
            surface.dpi,
            surface.appearance.border_width_dip,
            surface.frost is Some,
            viewport.bottom,
            window.footer,
            text_width,
            measures,
        ),
        border_steps(
            surface.width,
            surface.height,
            surface.dpi,
            surface.appearance.border_width_dip,
        ),
        x,
        y,
    );
}

/// The information bar of a new magnifier is high enough for its border, so that
/// the border leaves every row of pixels free.
pub proof fn bars_hold_their_border(
    window: MagnifierWindow,
    plan: FreezePlan,
    dpi: u32,
    capture_excluded: bool,
)
    requires
        plan.wf(),
        2 <= dpi,
        layout_fault(plan.work_area, dpi, plan.image.width, plan.image.height) is None,
        window.laid_out(plan, dpi, capture_excluded),
    ensures
        window.bar_holds_border(),
{
    magnifiers_fit_the_work_area(
        plan.focus,
        plan.work_area,
        dpi,
        plan.image.width,
        plan.image.height,
    );
    let width_dip = plan.appearance.border_width_dip;
    dip_is_monotone(width_dip as int, 6, dpi as int, dpi as int);
    lemma_dip(width_dip as i32, dpi);
    lemma_dip(28, dpi);
}

/// Whether the work area has room for a new magnifier that is centred on the frozen
/// pixel.
pub open spec fn room_to_centre(plan: FreezePlan, dpi: u32) -> bool {
    let (window, viewport) = window_places(
        plan.focus,
        plan.work_area,
        dpi,
        plan.image.width,
        plan.image.height,
    );
    let x = plan.focus.x - (viewport.right - viewport.left) / 2;
    let y = plan.focus.y - (viewport.bottom - viewport.top) / 2;
    &&& plan.work_area.left <= x && x + (window.right - window.left) <= plan.work_area.right
    &&& plan.work_area.top <= y && y + (window.bottom - window.top) <= plan.work_area.bottom
}

/// Right after freezing the frozen pixel itself stands under the cursor: it is
/// hovered, described and ready to be picked. The work area has room to centre the
/// window, the snapshot reaches half a view to every side, and the border does not
/// reach the middle.
pub proof fn frozen_pixels_stand_under_the_cursor(
    window: MagnifierWindow,
    plan: FreezePlan,
    dpi: u32,
    capture_excluded: bool,
)
    requires
        plan.wf(),
        layout_fault(plan.work_area, dpi, plan.image.width, plan.image.height) is None,
        window.laid_out(plan, dpi, capture_excluded),
        room_to_centre(plan, dpi),
        ({
            let (columns, rows) = (window.view->0.columns(), window.view->0.rows());
            &&& columns / 2 <= plan.cache.x && plan.cache.x - columns / 2 + columns
                <= plan.image.width
            &&& rows / 2 <= plan.cache.y && plan.cache.y - rows / 2 + rows <= plan.image.height
        }),
        ({
            let bounds = window.bounds->0;
            border_px(
                bounds.right - bounds.left,
                bounds.bottom - bounds.top,
                dpi,
                plan.appearance.border_width_dip,
            ) < (bounds.right - bounds.left) / 2
        }),
    ensures
        window.reached(plan.focus) matches Some(pixel) && {
            &&& pixel.source == plan.focus
            &&& pixel.cache == plan.cache
            &&& pixel.rgb == plan.image.color_at(
                plan.focus.x - plan.image.origin.x,
                plan.focus.y - plan.image.origin.y,
            )
            &&& window.hover == Some(pixel)
            &&& window.footer.rgb == Some(pixel.rgb)
        },
{
    let view = window.view->0;
    let bounds = window.bounds->0;
    magnifiers_fit_the_work_area(
        plan.focus,
        plan.work_area,
        dpi,
        plan.image.width,
        plan.image.height,
    );
    magnifiers_are_centred_on_the_frozen_pixel(
        plan.focus,
        plan.work_area,
        dpi,
        plan.image.width,
        plan.image.height,
        plan.focus,
    );
    drawn_cells_are_complete(view);
    drawn_cells_fill_the_viewport(view);
    centred_pixels_stand_in_the_middle(
        plan.cache.x as int,
        view.columns(),
        plan.image.width as int,
        0,
    );
    centred_pixels_stand_in_the_middle(
        plan.cache.y as int,
        view.rows(),
        plan.image.height as int,
        0,
    );
    hits_name_their_pixel(view, plan.focus);
}

/// A snapshot of the full reach, thirty-two pixels to every side of the frozen one,
/// always shows the frozen pixel under the cursor where the window can be centred.
pub proof fn full_snapshots_show_the_frozen_pixel(
    window: MagnifierWindow,
    plan: FreezePlan,
    dpi: u32,
    capture_excluded: bool,
)
    requires
        plan.wf(),
        layout_fault(plan.work_area, dpi, plan.image.width, plan.image.height) is None,
        window.laid_out(plan, dpi, capture_excluded),
        room_to_centre(plan, dpi),
        plan.image.width == 65 && plan.image.height == 65,
        plan.image.origin.x == plan.focus.x - 32 && plan.image.origin.y == plan.focus.y - 32,
        ({
            let bounds = window.bounds->0;
            border_px(
                bounds.right - bounds.left,
                bounds.bottom - bounds.top,
                dpi,
                plan.appearance.border_width_dip,
            ) < (bounds.right - bounds.left) / 2
        }),
    ensures
        window.reached(plan.focus) matches Some(pixel) && pixel.source == plan.focus,
{
    let view = window.view->0;
    drawn_cells_are_complete(view);
    assert(0 <= view.columns() <= 65 && 0 <= view.rows() <= 65);
    frozen_pixels_stand_under_the_cursor(window, plan, dpi, capture_excluded);
}

/// A point reaches a pixel exactly where it lies over a drawn cell and left of the
/// border; then hovering, clicking and describing agree on the desktop pixel whose
/// colour the snapshot holds there.
pub proof fn points_over_cells_reach_their_pixel(window: MagnifierWindow, point: ScreenPointPx)
    requires
        window.wf(),
        window.drawable(),
    ensures
        ({
            let (view, bounds, surface) = (window.view->0, window.bounds->0, window.surface->0);
            let image = view.spec_image();
            &&& window.reached(point) is Some <==> view.drawn().spec_contains(point) && point.x
                < bounds.right - border_px(
                surface.width as int,
                surface.height as int,
                surface.dpi,
                surface.appearance.border_width_dip,
            )
            &&& window.reached(point) matches Some(pixel) ==> {
                &&& view.hit(point) == Some(pixel)
                &&& cache_of(image, pixel.source) == Some(pixel.cache)
                &&& pixel.rgb == image.color_at(
                    pixel.source.x - image.origin.x,
                    pixel.source.y - image.origin.y,
                )
                &&& window.visible && window.fault() is None ==> window.picked(point) == Some(
                    pixel,
                )
            }
        }),
{
    let view = window.view->0;
    drawn_cells_are_complete(view);
    hits_name_their_pixel(view, point);
}

/// From sixteen times on, one grid line runs along the first pixels of every column
/// and every row of cells, and nowhere else.
pub proof fn grid_lines_begin_every_cell(drawn: Rect, scale: ZoomScale, x: int, y: int)
    requires
        0 <= drawn.left < drawn.right <= 0x0400_0000,
        0 <= drawn.top < drawn.bottom <= 0x0400_0000,
    ensures
        !spares(grid_steps(drawn, scale.cell()), x, y) <==> scale.cell() >= 16 && drawn.has(x, y)
            && ((x - drawn.left) % scale.cell() == 0 || (y - drawn.top) % scale.cell() == 0),
{
    let k = scale.cell();
    let steps = grid_steps(drawn, k);
    if k >= 16 {
        let vertical = vertical_lines(drawn, k);
        let horizontal = horizontal_lines(drawn, k);
        let columns = line_count(drawn.right - drawn.left, k);
        if drawn.has(x, y) && (x - drawn.left) % k == 0 {
            let i = (x - drawn.left) / k;
            match scale {
                ZoomScale::X4 => {},
                ZoomScale::X8 => {},
                ZoomScale::X16 => {},
                ZoomScale::X32 => {},
            }
            assert(0 <= i < columns && i * k == x - drawn.left);
            assert(steps[i] == vertical[i]);
            assert(steps[i].covers(x, y));
        } else if drawn.has(x, y) && (y - drawn.top) % k == 0 {
            let i = (y - drawn.top) / k;
            match scale {
                ZoomScale::X4 => {},
                ZoomScale::X8 => {},
                ZoomScale::X16 => {},
                ZoomScale::X32 => {},
            }
            assert(0 <= i < line_count(drawn.bottom - drawn.top, k) && i * k == y - drawn.top);
            assert(steps[columns + i] == horizontal[i]);
            assert(steps[columns + i].covers(x, y));
        } else {
            assert forall|i: int| 0 <= i < steps.len() implies !(#[trigger] steps[i]).covers(
                x,
                y,
            ) by {
                if i < columns {
                    assert(steps[i] == vertical[i]);
                } else {
                    assert(steps[i] == horizontal[i - columns]);
                }
                match scale {
                    ZoomScale::X4 => {},
                    ZoomScale::X8 => {},
                    ZoomScale::X16 => {},
                    ZoomScale::X32 => {},
                }
            }
        }
    }
}

/// Whether any of the steps fills a pixel with a colour.
pub open spec fn fills(steps: Seq<DrawStep>, color: u32, x: int, y: int) -> bool {
    exists|i: int|
        0 <= i < steps.len() && (#[trigger] steps[i]).covers(x, y) && steps[i] is Fill
            && steps[i]->Fill_color == color
}

proof fn lemma_fills_both(
    one: Seq<DrawStep>,
    other: Seq<DrawStep>,
    color: u32,
    x: int,
    y: int,
)
    ensures
        fills(one + other, color, x, y) <==> fills(one, color, x, y) || fills(other, color, x, y),
{
    let both = one + other;
    if fills(one, color, x, y) {
        let i = choose|i: int|
            0 <= i < one.len() && (#[trigger] one[i]).covers(x, y) && one[i] is Fill
                && one[i]->Fill_color == color;
        assert(both[i] == one[i]);
    }
    if fills(other, color, x, y) {
        let i = choose|i: int|
            0 <= i < other.len() && (#[trigger] other[i]).covers(x, y) && other[i] is Fill
                && other[i]->Fill_color == color;
        assert(both[one.len() + i] == other[i]);
    }
    if fills(both, color, x, y) {
        let i = choose|i: int|
            0 <= i < both.len() && (#[trigger] both[i]).covers(x, y) && both[i] is Fill
                && both[i]->Fill_color == color;
        if i < one.len() {
            assert(both[i] == one[i]);
        } else {
            assert(both[i] == other[i - one.len()]);
        }
    }
}

proof fn lemma_edge_fills(edge: Option<Rect>, color: u32, other: u32, x: int, y: int)
    ensures
        fills(edge_steps(edge, color), other, x, y) <==> edge is Some && edge->0.has(x, y) && color
            == other,
{
    if edge is Some && edge->0.has(x, y) && color == other {
        assert(edge_steps(edge, color)[0].covers(x, y));
    }
}

/// A frame fills the pixels at the rim of its rectangle, those inside the clip, and
/// no others; it has one colour.
pub proof fn frames_cover_the_clipped_rim(
    rect: Rect,
    clip: Rect,
    color: u32,
    other: u32,
    x: int,
    y: int,
)
    requires
        i32::MIN < rect.left < rect.right < i32::MAX,
        i32::MIN < rect.top < rect.bottom < i32::MAX,
    ensures
        fills(frame_steps(rect, clip, color), other, x, y) <==> other == color && clip.has(x, y)
            && rect.has(x, y) && (x == rect.left || x == rect.right - 1 || y == rect.top || y
            == rect.bottom - 1),
{
    let e0 = edge_steps(clipped(frame_edge(rect, 0), clip), color);
    let e1 = edge_steps(clipped(frame_edge(rect, 1), clip), color);
    let e2 = edge_steps(clipped(frame_edge(rect, 2), clip), color);
    let e3 = edge_steps(clipped(frame_edge(rect, 3), clip), color);
    lemma_fills_both(e0, e1, other, x, y);
    lemma_fills_both(e0 + e1, e2, other, x, y);
    lemma_fills_both(e0 + e1 + e2, e3, other, x, y);
    lemma_edge_fills(clipped(frame_edge(rect, 0), clip), color, other, x, y);
    lemma_edge_fills(clipped(frame_edge(rect, 1), clip), color, other, x, y);
    lemma_edge_fills(clipped(frame_edge(rect, 2), clip), color, other, x, y);
    lemma_edge_fills(clipped(frame_edge(rect, 3), clip), color, other, x, y);
}

/// The hovered cell is framed twice: a white line along its own outermost pixels and
/// a black one right around it, both only over drawn cells. `column` and `row` count
/// from the corner of the cell.
pub proof fn hover_frames_surround_the_cell(
    view: ZoomView,
    bounds: ScreenRectPx,
    cache: CachePoint,
    column: int,
    row: int,
)
    requires
        view.wf(),
        shows(view.spec_source(), cache),
        view.spec_viewport().inside(bounds),
        bounds.right - bounds.left <= 0x0400_0000,
        bounds.bottom - bounds.top <= 0x0400_0000,
    ensures
        ({
            let k = view.spec_scale().cell();
            let drawn = localized(view.drawn(), bounds);
            let steps = hover_steps(view.center(cache), bounds, drawn, k);
            let x = drawn.left + (cache.x - view.spec_source().x) * k + column;
            let y = drawn.top + (cache.y - view.spec_source().y) * k + row;
            &&& fills(steps, 0x00ff_ffff, x, y) <==> drawn.has(x, y) && 0 <= column < k && 0 <= row
                < k && (column == 0 || column == k - 1 || row == 0 || row == k - 1)
            &&& fills(steps, 0, x, y) <==> drawn.has(x, y) && -1 <= column <= k && -1 <= row <= k
                && (column == -1 || column == k || row == -1 || row == k)
        }),
        hover_steps(None, bounds, localized(view.drawn(), bounds), view.spec_scale().cell()).len()
            == 0,
{
    let k = view.spec_scale().cell();
    let drawn = localized(view.drawn(), bounds);
    centers_map_back(view, cache);
    centers_are_exact(view, cache);
    drawn_cells_are_complete(view);
    let (dx, dy) = (cache.x - view.spec_source().x, cache.y - view.spec_source().y);
    let (columns, rows) = (view.spec_source().width as int, view.spec_source().height as int);
    assert(0 <= dx * k && dx * k + k <= columns * k) by (nonlinear_arith)
        requires
            0 <= dx < columns,
            k > 0,
    ;
    assert(0 <= dy * k && dy * k + k <= rows * k) by (nonlinear_arith)
        requires
            0 <= dy < rows,
            k > 0,
    ;
    lemma_hover_frames(view.center(cache)->0, bounds, drawn, view.spec_scale(), column, row);
}

/// The two frames around a cell, from its middle.
proof fn lemma_hover_frames(
    center: ScreenPointPx,
    bounds: ScreenRectPx,
    drawn: Rect,
    scale: ZoomScale,
    column: int,
    row: int,
)
    requires
        0 <= center.x - bounds.left <= 0x0400_0000,
        0 <= center.y - bounds.top <= 0x0400_0000,
    ensures
        ({
            let k = scale.cell();
            let steps = hover_steps(Some(center), bounds, drawn, k);
            let x = center.x - bounds.left - k / 2 + column;
            let y = center.y - bounds.top - k / 2 + row;
            &&& fills(steps, 0x00ff_ffff, x, y) <==> drawn.has(x, y) && 0 <= column < k && 0 <= row
                < k && (column == 0 || column == k - 1 || row == 0 || row == k - 1)
            &&& fills(steps, 0, x, y) <==> drawn.has(x, y) && -1 <= column <= k && -1 <= row <= k
                && (column == -1 || column == k || row == -1 || row == k)
        }),
{
    let k = scale.cell();
    let left = center.x - bounds.left - k / 2;
    let top = center.y - bounds.top - k / 2;
    let (x, y) = (left + column, top + row);
    let outer = Rect {
        left: (left - 1) as i32,
        top: (top - 1) as i32,
        right: (left + k + 1) as i32,
        bottom: (top + k + 1) as i32,
    };
    let inner = Rect {
        left: left as i32,
        top: top as i32,
        right: (left + k) as i32,
        bottom: (top + k) as i32,
    };
    let (black, white) = (frame_steps(outer, drawn, 0), frame_steps(inner, drawn, 0x00ff_ffff));
    lemma_fills_both(black, white, 0, x, y);
    lemma_fills_both(black, white, 0x00ff_ffff, x, y);
    frames_cover_the_clipped_rim(outer, drawn, 0, 0, x, y);
    frames_cover_the_clipped_rim(outer, drawn, 0, 0x00ff_ffff, x, y);
    frames_cover_the_clipped_rim(inner, drawn, 0x00ff_ffff, 0, x, y);
    frames_cover_the_clipped_rim(inner, drawn, 0x00ff_ffff, 0x00ff_ffff, x, y);
}

/// A snapshot pixel stands as far right of and below the snapshot's corner as its
/// column and row say, and every desktop pixel over the snapshot has one.
pub proof fn snapshot_pixels_have_one_place(
    image: FrozenImage,
    focus: ScreenPointPx,
    cache: CachePoint,
)
    ensures
        cache_of(image, focus) == Some(cache) <==> cache.x < image.width && cache.y < image.height
            && focus.x == image.origin.x + cache.x && focus.y == image.origin.y + cache.y,
        cache_of(image, focus) is Some <==> 0 <= focus.x - image.origin.x < image.width && 0
            <= focus.y - image.origin.y < image.height,
{
}

/// The window is created at the frozen pixel where the work area holds it, and
/// otherwise at the nearest place of the work area.
pub proof fn windows_are_created_near_the_focus(
    plan: FreezePlan,
    image: FrozenImage,
    focus: ScreenPointPx,
    work_area: ScreenRectPx,
    appearance: AppearanceConfig,
    other: ScreenPointPx,
)
    requires
        plan.prepared_from(image, focus, work_area, appearance),
        work_area.spec_contains(other),
    ensures
        work_area.spec_contains(plan.creation_point),
        work_area.spec_contains(focus) ==> plan.creation_point == focus,
        off_by(plan.creation_point.x as int, focus.x as int) <= off_by(
            other.x as int,
            focus.x as int,
        ),
        off_by(plan.creation_point.y as int, focus.y as int) <= off_by(
            other.y as int,
            focus.y as int,
        ),
{
}

/// The snapshot of a plan shows every desktop pixel in the colour that was
/// captured, the frozen one among them.
pub proof fn plans_keep_the_captured_colours(
    plan: FreezePlan,
    image: FrozenImage,
    focus: ScreenPointPx,
    work_area: ScreenRectPx,
    appearance: AppearanceConfig,
    point: ScreenPointPx,
)
    requires
        plan.prepared_from(image, focus, work_area, appearance),
        cache_of(image, point) is Some,
    ensures
        cache_of(plan.image, point) == cache_of(image, point),
        plan.image.color_at(point.x - image.origin.x, point.y - image.origin.y) == image.color_at(
            point.x - image.origin.x,
            point.y - image.origin.y,
        ),
        plan.focus == focus,
        plan.image.origin.x + plan.cache.x == focus.x,
        plan.image.origin.y + plan.cache.y == focus.y,
{
}

/// An area can be frozen exactly where the appearance is within its limits, the
/// snapshot is complete, at most 65 pixels wide and high and holds the focus, and
/// the work area is not empty.
pub proof fn usable_areas_can_be_frozen(
    image: FrozenImage,
    focus: ScreenPointPx,
    work_area: ScreenRectPx,
    appearance: AppearanceConfig,
)
    ensures
        freeze_fault(image, focus, work_area, appearance) is None <==> {
            &&& appearance.border_width_dip <= 6
            &&& appearance.background_transparency_percent <= 80
            &&& image.fault() is None
            &&& image.width <= 65 && image.height <= 65
            &&& work_area.left < work_area.right && work_area.top < work_area.bottom
            &&& image.has(focus.x - image.origin.x, focus.y - image.origin.y)
        },
{
}

/// A text of the bar can change exactly the pixels of its place, moved down to the
/// bar, above the limit; one that is not shown, or has no character, none.
pub proof fn bar_texts_stand_in_the_bar(
    label: FooterLabel,
    top: int,
    limit: int,
    footer: Footer,
    x: int,
    y: int,
)
    requires
        moderate(top),
        moderate(limit),
        moderate(label.rect.top as int),
        moderate(label.rect.bottom as int),
    ensures
        !spares(footer_label_steps(label, top, limit, footer), x, y) <==> label.shown
            && footer.shown_text(label.text).len() > 0 && label.rect.has(x, y - top) && y < limit,
        footer_label_steps(label, top, limit, footer).len() <= 1,
        forall|i: int|
            0 <= i < footer_label_steps(label, top, limit, footer).len()
                ==> #[trigger] footer_label_steps(label, top, limit, footer)[i] is Label
                && footer_label_steps(label, top, limit, footer)[i]->Label_text == label.text
                && footer_label_steps(label, top, limit, footer)[i]->Label_color == label.color
                && footer_label_steps(label, top, limit, footer)[i]->Label_font == label.font,
{
    let steps = footer_label_steps(label, top, limit, footer);
    if label.shown && footer.shown_text(label.text).len() > 0 && label.rect.has(x, y - top) && y
        < limit {
        assert(steps[0].covers(x, y));
    }
}

/// The texts of the bar stand right of the swatch.
proof fn lemma_bar_labels_spare(
    width: int,
    dpi: u32,
    border: int,
    swatch: int,
    top: int,
    limit: int,
    footer: Footer,
    measures: Seq<FooterMeasure>,
    x: int,
    y: int,
)
    requires
        measures.len() == 4,
        0 <= width <= 0x0400_0000,
        0 <= border <= 0x0400_0000,
        0 <= swatch <= 0x0400_0000,
        moderate(footer_height(dpi) as int),
        0 <= top <= 0x0400_0000,
        0 <= limit <= 0x0400_0000,
        forall|i: int| 0 <= i < 4 ==> moderate_measure(#[trigger] measures[i]),
        forall|i: int|
            0 <= i < 4 ==> (#[trigger] measures[i]).hex.cx >= 0 && measures[i].position.cx >= 0
                && measures[i].scale.cx >= 0,
        x < swatch,
    ensures
        ({
            let (hex, scale, position) = footer_places(width, dpi, border, swatch, measures);
            &&& spares(footer_label_steps(hex, top, limit, footer), x, y)
            &&& spares(footer_label_steps(scale, top, limit, footer), x, y)
            &&& spares(footer_label_steps(position, top, limit, footer), x, y)
        }),
{
    let right = greater(width - border - 2, swatch + 2);
    let choice = footer_choice(measures, right - swatch - 2);
    assert(moderate_measure(measures[choice]));
    assert(measures[choice].hex.cx >= 0);
}

/// The first columns of the information bar show the colour of the hovered pixel up
/// to the border, and nothing is drawn over them. The index of the fill is handed
/// out.
pub proof fn bars_show_the_hovered_colour(
    surface: Surface,
    top: i32,
    footer: Footer,
    text_width: int,
    measures: Seq<FooterMeasure>,
    x: int,
    y: int,
) -> (index: int)
    requires
        0 <= top <= surface.height <= 0x0400_0000,
        0 <= surface.width <= 0x0400_0000,
        moderate(footer_height(surface.dpi) as int),
        moderate(text_width),
        measures.len() == 4,
        forall|i: int| 0 <= i < 4 ==> moderate_measure(#[trigger] measures[i]),
        forall|i: int|
            0 <= i < 4 ==> (#[trigger] measures[i]).hex.cx >= 0 && measures[i].position.cx >= 0
                && measures[i].scale.cx >= 0,
        ({
            let border = border_px(
                surface.width as int,
                surface.height as int,
                surface.dpi,
                surface.appearance.border_width_dip,
            );
            &&& 0 <= x < swatch_extent(surface.width as int, surface.dpi, border, text_width)
            &&& top <= y < surface.height - border
        }),
    ensures
        ({
            let steps = footer_steps(
                surface.width,
                surface.height,
                surface.dpi,
                surface.appearance.border_width_dip,
                surface.frost is Some,
                top,
                footer,
                text_width,
                measures,
            );
            &&& decides(steps, index, x, y)
            &&& steps[index] is Fill
            &&& footer.rgb matches Some(rgb) ==> steps[index]->Fill_color == color_ref(
                rgb.r as int,
                rgb.g as int,
                rgb.b as int,
            )
            &&& footer.rgb is None ==> steps[index]->Fill_color == color_ref_of_hex(
                Palette::Empty.hex(),
            )
        }),
{
    let steps = footer_steps(
        surface.width,
        surface.height,
        surface.dpi,
        surface.appearance.border_width_dip,
        surface.frost is Some,
        top,
        footer,
        text_width,
        measures,
    );
    let border = border_px(
        surface.width as int,
        surface.height as int,
        surface.dpi,
        surface.appearance.border_width_dip,
    );
    let limit = surface.height - border;
    let swatch = swatch_extent(surface.width as int, surface.dpi, border, text_width);
    let (hex, scale, position) = footer_places(
        surface.width as int,
        surface.dpi,
        border,
        swatch,
        measures,
    );
    lemma_bar_labels_spare(
        surface.width as int,
        surface.dpi,
        border,
        swatch,
        top as int,
        limit,
        footer,
        measures,
        x,
        y,
    );
    let one = footer_label_steps(hex, top as int, limit, footer);
    let two = footer_label_steps(scale, top as int, limit, footer);
    let three = footer_label_steps(position, top as int, limit, footer);
    let panel = Rect { left: 0, top, right: surface.width, bottom: surface.height };
    let head = fill_steps(panel, color_ref_of_hex(Palette::Panel.hex()) as u32) + backdrop_steps(
        surface.frost is Some,
        panel,
    ) + fill_steps(
        Rect { left: 0, top, right: swatch as i32, bottom: (surface.height - border) as i32 },
        swatch_color(footer.rgb) as u32,
    );
    let index = head.len() - 1;
    assert(steps =~= head + one + two + three);
    assert(head[index] == (DrawStep::Fill {
        rect: Rect { left: 0, top, right: swatch as i32, bottom: (surface.height - border) as i32 },
        color: swatch_color(footer.rgb) as u32,
    }));
    assert(steps[index] == head[index]);
    if footer.rgb is Some {
        assert(0 <= swatch_color(footer.rgb) < 0x100_0000);
    }
    assert forall|j: int| index < j < steps.len() implies !(#[trigger] steps[j]).covers(x, y) by {
        let k = j - head.len();
        if k < one.len() {
            assert(steps[j] == one[k]);
        } else if k < one.len() + two.len() {
            assert(steps[j] == two[k - one.len()]);
        } else {
            assert(steps[j] == three[k - one.len() - two.len()]);
        }
    }
    index
}

/// The whole window is painted first, in the background colour, and the whole bar
/// below the pixels in the panel colour, under a backdrop where there is one.
pub proof fn magnifiers_have_a_background(
    view: ZoomView,
    surface: Surface,
    bounds: ScreenRectPx,
    hover: Option<SourcePixel>,
    footer: Footer,
    top: i32,
    text_width: int,
    measures: Seq<FooterMeasure>,
    x: int,
    y: int,
)
    requires
        0 <= x < surface.width,
        0 <= y < surface.height,
    ensures
        ({
            let first = magnifier_steps(view, surface, bounds, hover, footer, text_width, measures)[0];
            &&& first is Fill && first.covers(x, y)
            &&& first->Fill_color == color_ref_of_hex(Palette::Background.hex())
        }),
        top <= y ==> {
            let bar = footer_steps(
                surface.width,
                surface.height,
                surface.dpi,
                surface.appearance.border_width_dip,
                surface.frost is Some,
                top,
                footer,
                text_width,
                measures,
            );
            let panel = color_ref_of_hex(Palette::Panel.hex());
            &&& bar[0] is Fill && bar[0].covers(x, y) && bar[0]->Fill_color == panel
            &&& surface.frost is Some ==> bar[1] is Backdrop && bar[1].covers(x, y)
                && bar[1]->fallback == panel
        },
{
}

/// A magnifier whose scale changed around a point shows the same snapshot in the same
/// viewport at the new scale. The pixel under the point is the selected one, and stays
/// under it as long as the point stays over the cells and the snapshot reaches far
/// enough; beside the pixels the selection stays what it was.
pub proof fn zooming_keeps_the_hovered_pixel(
    before: ZoomView,
    after: ZoomView,
    next: ZoomScale,
    point: ScreenPointPx,
)
    requires
        before.wf(),
        after.wf(),
        rescaled(before, after, next, point),
    ensures
        after.spec_image() == before.spec_image(),
        after.spec_viewport() == before.spec_viewport(),
        after.spec_scale() == next,
        before.hit(point) is None ==> after.spec_selected() == before.spec_selected(),
        before.hit(point) matches Some(pixel) ==> {
            let column = (point.x - after.drawn().left) / next.cell();
            let row = (point.y - after.drawn().top) / next.cell();
            &&& after.spec_selected() == pixel.cache
            &&& after.drawn().spec_contains(point) && 0 <= pixel.cache.x - column
                <= before.spec_image().width - after.columns() && 0 <= pixel.cache.y - row
                <= before.spec_image().height - after.rows() ==> after.hit(point) == Some(pixel)
        },
{
    if before.hit(point) is Some {
        let pixel = before.hit(point)->0;
        let column = (point.x - after.drawn().left) / next.cell();
        let row = (point.y - after.drawn().top) / next.cell();
        if after.drawn().spec_contains(point) && 0 <= pixel.cache.x - column
            <= before.spec_image().width - after.columns() && 0 <= pixel.cache.y - row
            <= before.spec_image().height - after.rows() {
            zooming_keeps_the_pixel_under_the_cursor(before, after, point);
        }
    }
}

/// Windows that are the same but for the view, the hover and its texts pick the same
/// pixel wherever their views show the same; telling a fault once makes the window
/// usable again unless its scaling changed.
pub proof fn same_windows_pick_alike(
    one: MagnifierWindow,
    other: MagnifierWindow,
    point: ScreenPointPx,
)
    requires
        one.view == other.view,
    ensures
        one.same_window(&other) ==> one.picked(point) == other.picked(point) && one.fault()
            == other.fault(),
        one.reported(&other) ==> one.reached(point) == other.reached(point) && (one.fault() is None
            <==> !other.layout_invalidated),
        one.reported(&other) && !other.paint_failed ==> one.same_window(&other),
{
}

/// The factor that is shown is that of the view, and four before there is one.
pub proof fn shown_factors_are_those_of_the_view(window: MagnifierWindow)
    ensures
        window.view matches Some(view) ==> window.shown_factor() == view.spec_scale().cell(),
        window.view is None ==> window.shown_factor() == ZoomScale::X4.cell(),
{
}

} // verus!
