//! The live preview that follows the cursor: when its texts, its surface and its
//! place have to change.
use crate::color::Rgb8;
use crate::config::{AppearanceConfig, ConfigError, MAX_BORDER_WIDTH_DIP};
use crate::drawing::{
    dip, dip_is_monotone, dip_px, lengths_scale_to_the_nearest_pixel, live_preview_height_dip,
    preview_height_dip, Content, Surface,
};
use crate::format::{
    format_hex, hex_text, hex_text_identifies_the_colour, hex_text_lists_the_channels,
};
use crate::geometry::{ScreenPointPx, ScreenRectPx};
use crate::i18n::{tr, translation, Language};
use crate::placement::{
    place_preview, placed_previews_are_complete, preview_place, previews_keep_the_gap,
};
use crate::text::{
    decimal_text, decimal_texts_read_back, push_decimal, utf16, wide, writes_signed,
};
use crate::window_lifetime::WindowHandle;
use vstd::prelude::*;
use vstd::string::*;

verus! {

/// Why a preview cannot be shown.
#[derive(Debug, Clone, Copy, PartialEq, Eq, Structural)]
pub enum PreviewFault {
    /// Painting failed; the caller holds the native error.
    Paint,
    EmptyWorkArea,
    /// The sampled pixel is on no display.
    OutsideDisplays,
    /// The window did not reach the display of the sampled pixel.
    WrongDisplay,
    UnknownDpi,
    /// No place leaves the sampled pixel free.
    NoSpace,
}

/// A refused update, and whether the native window has to be hidden for it.
#[derive(Debug, Clone, Copy, PartialEq, Eq, Structural)]
pub struct Refused {
    pub fault: PreviewFault,
    pub hide_native: bool,
}

/// What to do before the window is laid out on its display.
#[derive(Debug, Clone, Copy, PartialEq, Eq, Structural)]
pub enum DisplayStep {
    /// The window is on the display of the sampled pixel.
    Stay,
    /// Hide the window where it is visible and move it, one pixel large, to the
    /// corner of the work area, so that its real DPI can be read there.
    Move { hide_native: bool, left: i32, top: i32 },
}

/// One pass of laying the preview out.
#[derive(Debug, Clone, Copy, PartialEq, Eq, Structural)]
pub struct LayoutPass {
    pub rect: ScreenRectPx,
    pub width: i32,
    pub height: i32,
    /// The drawing surface was made anew.
    pub rebuilt: bool,
    /// The native window has to be moved.
    pub reposition: bool,
}

/// The preview window. `rect` is its place while it is visible.
#[derive(Debug)]
pub struct PreviewWindow {
    pub appearance: AppearanceConfig,
    pub capture_exclusion_enabled: bool,
    pub sample: Option<(ScreenPointPx, Option<Rgb8>)>,
    pub content: Option<Content>,
    pub surface: Option<Surface>,
    pub rect: Option<ScreenRectPx>,
    pub dpi_dirty: bool,
    pub paint_failed: bool,
}

/// Width of the preview in device-independent pixels.
pub const PREVIEW_WIDTH_DIP: i32 = 168;

/// Distance between the sampled pixel and the preview.
pub const PREVIEW_GAP_DIP: i32 = 16;

/// The colour line: the sample, or that there is none.
pub open spec fn color_line(rgb: Option<Rgb8>, language: Language) -> Seq<char> {
    match rgb {
        Some(rgb) => hex_text(rgb),
        None => translation(language, "暂不可采样", "Unavailable")@,
    }
}

/// The coordinate line: `X 12  Y 34`.
pub open spec fn coordinate_line(point: ScreenPointPx) -> Seq<char> {
    "X "@ + decimal_text(point.x as int) + "  Y "@ + decimal_text(point.y as int)
}

/// Whether a DPI value can be used.
pub open spec fn usable_dpi(dpi: u32) -> bool {
    0 < dpi <= 9600
}

/// Where the preview of a sample goes on a display of this DPI.
pub open spec fn preview_target(
    point: ScreenPointPx,
    work_area: ScreenRectPx,
    dpi: u32,
    border_width_dip: u8,
) -> Option<ScreenRectPx> {
    preview_place(
        point,
        work_area,
        dip_px(PREVIEW_WIDTH_DIP as int, dpi as int),
        dip_px(preview_height_dip(border_width_dip), dpi as int),
        dip_px(PREVIEW_GAP_DIP as int, dpi as int),
    )
}

impl PreviewWindow {
    /// The appearance is within its limits.
    pub open spec fn wf(&self) -> bool {
        self.appearance.valid()
    }

    /// Only the given parts may differ.
    pub open spec fn same_but_place(&self, other: &PreviewWindow) -> bool {
        &&& self.appearance == other.appearance
        &&& self.capture_exclusion_enabled == other.capture_exclusion_enabled
        &&& self.sample == other.sample
        &&& self.content == other.content
        &&& self.surface == other.surface
    }

    pub fn new() -> (r: PreviewWindow)
        ensures
            r.fresh(
                AppearanceConfig { border_width_dip: 2, background_transparency_percent: 35 },
            ),
    {
        PreviewWindow {
            appearance: AppearanceConfig {
                border_width_dip: 2,
                background_transparency_percent: 35,
            },
            capture_exclusion_enabled: false,
            sample: None,
            content: None,
            surface: None,
            rect: None,
            dpi_dirty: false,
            paint_failed: false,
        }
    }

    /// A preview that has shown nothing yet.
    pub open spec fn fresh(&self, appearance: AppearanceConfig) -> bool {
        &&& self.wf()
        &&& self.appearance == appearance
        &&& !self.capture_exclusion_enabled
        &&& self.sample is None
        &&& self.content is None
        &&& self.surface is None
        &&& self.rect is None
        &&& !self.dpi_dirty
        &&& !self.paint_failed
    }

    pub fn with_appearance(appearance: AppearanceConfig) -> (r: Result<PreviewWindow, ConfigError>)
        ensures
            r is Ok <==> appearance.valid(),
            r matches Ok(window) ==> window.fresh(appearance),
            r matches Err(error) ==> error == (if appearance.border_width_dip
                > MAX_BORDER_WIDTH_DIP {
                ConfigError::BorderTooWide
            } else {
                ConfigError::BackgroundTooTransparent
            }),
    {
        match appearance.validate() {
            Ok(()) => Ok(
                PreviewWindow {
                    appearance,
                    capture_exclusion_enabled: false,
                    sample: None,
                    content: None,
                    surface: None,
                    rect: None,
                    dpi_dirty: false,
                    paint_failed: false,
                },
            ),
            Err(error) => Err(error),
        }
    }

    /// Only a currently visible rectangle can obstruct a sample.
    pub fn rect(&self) -> (r: Option<ScreenRectPx>)
        ensures
            r == self.rect,
    {
        self.rect
    }

    pub fn capture_exclusion_enabled(&self) -> (r: bool)
        ensures
            r == self.capture_exclusion_enabled,
    {
        self.capture_exclusion_enabled
    }

    /// Marks the preview as hidden and says whether the native window has to be.
    pub fn hide_window(&mut self) -> (r: bool)
        ensures
            r == (old(self).rect is Some),
            final(self).rect is None,
            final(self).same_but_place(old(self)),
            final(self).dpi_dirty == old(self).dpi_dirty,
            final(self).paint_failed == old(self).paint_failed,
    {
        let was_visible = self.rect.is_some();
        self.rect = None;
        was_visible
    }

    /// Begins an update. A paint failure is reported once, and an empty work area
    /// hides the preview.
    pub fn begin_update(&mut self, work_area: ScreenRectPx) -> (r: Result<(), Refused>)
        ensures
            final(self).same_but_place(old(self)),
            final(self).dpi_dirty == old(self).dpi_dirty,
            !final(self).paint_failed,
            if old(self).paint_failed {
                &&& r == Err::<(), Refused>(
                    Refused { fault: PreviewFault::Paint, hide_native: false },
                )
                &&& final(self).rect == old(self).rect
            } else if work_area.empty() {
                &&& r == Err::<(), Refused>(
                    Refused {
                        fault: PreviewFault::EmptyWorkArea,
                        hide_native: old(self).rect is Some,
                    },
                )
                &&& final(self).rect is None
            } else {
                r is Ok && final(self).rect == old(self).rect
            },
    {
        if self.paint_failed {
            self.paint_failed = false;
            return Err(Refused { fault: PreviewFault::Paint, hide_native: false });
        }
        if work_area.is_empty() {
            let hide_native = self.hide_window();
            return Err(Refused { fault: PreviewFault::EmptyWorkArea, hide_native });
        }
        Ok(())
    }

    /// Decides whether the window has to change displays. `target` is the display
    /// of the sampled pixel and `current` that of the window; zero is none.
    pub fn target_display(
        &mut self,
        target: WindowHandle,
        current: WindowHandle,
        work_area: ScreenRectPx,
    ) -> (r: Result<DisplayStep, Refused>)
        ensures
            final(self).same_but_place(old(self)),
            final(self).dpi_dirty == old(self).dpi_dirty,
            final(self).paint_failed == old(self).paint_failed,
            if target == 0 {
                &&& r == Err::<DisplayStep, Refused>(
                    Refused {
                        fault: PreviewFault::OutsideDisplays,
                        hide_native: old(self).rect is Some,
                    },
                )
                &&& final(self).rect is None
            } else if current != target {
                &&& r == Ok::<DisplayStep, Refused>(
                    DisplayStep::Move {
                        hide_native: old(self).rect is Some,
                        left: work_area.left,
                        top: work_area.top,
                    },
                )
                &&& final(self).rect is None
            } else {
                &&& r == Ok::<DisplayStep, Refused>(DisplayStep::Stay)
                &&& final(self).rect == old(self).rect
            },
    {
        if target == 0 {
            let hide_native = self.hide_window();
            return Err(Refused { fault: PreviewFault::OutsideDisplays, hide_native });
        }
        if current != target {
            let hide_native = self.hide_window();
            return Ok(
                DisplayStep::Move { hide_native, left: work_area.left, top: work_area.top },
            );
        }
        Ok(DisplayStep::Stay)
    }

    /// Checks that a moved window reached its display.
    pub fn display_reached(target: WindowHandle, current: WindowHandle) -> (r: Result<(), Refused>)
        ensures
            r == (if current == target {
                Ok(())
            } else {
                Err(Refused { fault: PreviewFault::WrongDisplay, hide_native: false })
            }),
    {
        if current == target {
            Ok(())
        } else {
            Err(Refused { fault: PreviewFault::WrongDisplay, hide_native: false })
        }
    }

    /// Takes over a sample. Says whether its texts changed.
    pub fn set_sample(&mut self, point: ScreenPointPx, rgb: Option<Rgb8>, language: Language) -> (r:
        bool)
        ensures
            r == (old(self).sample != Some((point, rgb))),
            final(self).sample == Some((point, rgb)),
            final(self).appearance == old(self).appearance,
            final(self).capture_exclusion_enabled == old(self).capture_exclusion_enabled,
            final(self).surface == old(self).surface,
            final(self).rect == old(self).rect,
            final(self).dpi_dirty == old(self).dpi_dirty,
            final(self).paint_failed == old(self).paint_failed,
            !r ==> final(self).content == old(self).content,
            r ==> (final(self).content matches Some(content) && {
                &&& content.rgb == rgb
                &&& content.color_text@ == utf16(color_line(rgb, language))
                &&& content.coordinates@ == utf16(coordinate_line(point))
            }),
    {
        if let Some((shown_point, shown_rgb)) = self.sample {
            let same_rgb = match (shown_rgb, rgb) {
                (Some(a), Some(b)) => a == b,
                (None, None) => true,
                _ => false,
            };
            if shown_point == point && same_rgb {
                return false;
            }
        }
        let color_text = match rgb {
            Some(rgb) => format_hex(rgb),
            None => String::from_str(tr(language, "暂不可采样", "Unavailable")),
        };
        let mut coordinates = String::from_str("X ");
        push_decimal(&mut coordinates, point.x);
        coordinates.append("  Y ");
        push_decimal(&mut coordinates, point.y);
        self.sample = Some((point, rgb));
        self.content = Some(
            Content {
                rgb,
                color_text: wide(color_text.as_str()),
                coordinates: wide(coordinates.as_str()),
            },
        );
        true
    }

    /// Whether the surface has this size and DPI.
    pub open spec fn surface_fits(&self, width: int, height: int, dpi: u32) -> bool {
        self.surface matches Some(surface) && surface.width == width && surface.height == height
            && surface.dpi == dpi
    }

    /// One pass of laying the preview out for the DPI of its window. Moving between
    /// displays of different DPI can change it once more, so the caller makes a
    /// second pass where the DPI changed meanwhile.
    pub fn layout_pass(&mut self, point: ScreenPointPx, work_area: ScreenRectPx, dpi: u32) -> (r:
        Result<LayoutPass, Refused>)
        requires
            old(self).wf(),
        ensures
            final(self).wf(),
            final(self).appearance == old(self).appearance,
            final(self).capture_exclusion_enabled == old(self).capture_exclusion_enabled,
            final(self).sample == old(self).sample,
            final(self).content == old(self).content,
            final(self).paint_failed == old(self).paint_failed,
            !usable_dpi(dpi) ==> {
                &&& r == Err::<LayoutPass, Refused>(
                    Refused { fault: PreviewFault::UnknownDpi, hide_native: false },
                )
                &&& final(self).rect == old(self).rect
                &&& final(self).surface == old(self).surface
                &&& final(self).dpi_dirty == old(self).dpi_dirty
            },
            usable_dpi(dpi) ==> match preview_target(
                point,
                work_area,
                dpi,
                old(self).appearance.border_width_dip,
            ) {
                None => {
                    &&& r == Err::<LayoutPass, Refused>(
                        Refused {
                            fault: PreviewFault::NoSpace,
                            hide_native: old(self).rect is Some,
                        },
                    )
                    &&& final(self).rect is None
                    &&& final(self).surface == old(self).surface
                    &&& final(self).dpi_dirty == old(self).dpi_dirty
                },
                Some(rect) => {
                    let width = dip_px(PREVIEW_WIDTH_DIP as int, dpi as int);
                    let height = dip_px(
                        preview_height_dip(old(self).appearance.border_width_dip),
                        dpi as int,
                    );
                    &&& r == Ok::<LayoutPass, Refused>(
                        LayoutPass {
                            rect,
                            width: width as i32,
                            height: height as i32,
                            rebuilt: !old(self).surface_fits(width, height, dpi),
                            reposition: old(self).rect != Some(rect),
                        },
                    )
                    &&& final(self).rect == old(self).rect
                    &&& !final(self).dpi_dirty
                    &&& final(self).surface_fits(width, height, dpi)
                    &&& old(self).surface_fits(width, height, dpi) ==> final(self).surface == old(
                        self).surface
                    &&& !old(self).surface_fits(width, height, dpi)
                        ==> final(self).surface->0.made_for(
                        width,
                        height,
                        dpi,
                        old(self).capture_exclusion_enabled,
                        old(self).appearance,
                    )
                },
            },
    {
        if dpi == 0 || dpi > 9600 {
            return Err(Refused { fault: PreviewFault::UnknownDpi, hide_native: false });
        }
        proof {
            dip_is_monotone(0, 168, dpi as int, 9600);
            dip_is_monotone(0, 42, dpi as int, 9600);
            dip_is_monotone(0, 16, dpi as int, 9600);
            dip_is_monotone(preview_height_dip(self.appearance.border_width_dip), 42, dpi as int, 9600);
            dip_is_monotone(38, 168, dpi as int, 9600);
        }
        let width: i32 = dip(PREVIEW_WIDTH_DIP, dpi);
        let height: i32 = dip(live_preview_height_dip(self.appearance.border_width_dip), dpi);
        let gap: i32 = dip(PREVIEW_GAP_DIP, dpi);
        let rect = match place_preview(point, work_area, width as u32, height as u32, gap as u32) {
            Some(rect) => rect,
            None => {
                let hide_native = self.hide_window();
                return Err(Refused { fault: PreviewFault::NoSpace, hide_native });
            },
        };
        let rebuilt = match &self.surface {
            Some(surface) => surface.width != width || surface.height != height || surface.dpi
                != dpi,
            None => true,
        };
        if rebuilt {
            self.surface = Some(
                Surface::new(
                    width,
                    height,
                    dpi,
                    self.capture_exclusion_enabled,
                    self.appearance,
                ),
            );
        }
        let reposition = match self.rect {
            Some(shown) => shown != rect,
            None => true,
        };
        self.dpi_dirty = false;
        Ok(LayoutPass { rect, width, height, rebuilt, reposition })
    }

    /// Records that the native window was moved.
    pub fn positioned(&mut self, rect: ScreenRectPx)
        ensures
            final(self).rect == Some(rect),
            final(self).same_but_place(old(self)),
            final(self).dpi_dirty == old(self).dpi_dirty,
            final(self).paint_failed == old(self).paint_failed,
    {
        self.rect = Some(rect);
    }
}

/// The progress of one update: whether anything changed, and the passes made.
#[derive(Debug, Clone, Copy, PartialEq, Eq, Structural)]
pub struct UpdateProgress {
    pub changed: bool,
    pub passes: u8,
}

/// Most passes of one update.
pub const MAX_LAYOUT_PASSES: u8 = 2;

impl UpdateProgress {
    /// Starts with whether the texts changed.
    pub fn new(content_changed: bool) -> (r: Self)
        ensures
            r.changed == content_changed,
            r.passes == 0,
    {
        UpdateProgress { changed: content_changed, passes: 0 }
    }

    /// Counts a finished pass. Says whether another one is due: the DPI changed
    /// during it, and the last pass is not made yet.
    pub fn finish_pass(&mut self, pass: LayoutPass, dpi_dirty: bool) -> (r: bool)
        requires
            old(self).passes < MAX_LAYOUT_PASSES,
        ensures
            final(self).passes == old(self).passes + 1,
            final(self).changed == (old(self).changed || pass.rebuilt || pass.reposition),
            r == (dpi_dirty && old(self).passes + 1 < MAX_LAYOUT_PASSES),
    {
        self.passes = self.passes + 1;
        self.changed = self.changed || pass.rebuilt || pass.reposition;
        dpi_dirty && self.passes < MAX_LAYOUT_PASSES
    }
}

/// A pass that succeeds, followed by the move it asks for, leaves the preview
/// where it belongs: completely inside the work area, with the sampled pixel free.
pub proof fn finished_passes_keep_the_sample_free(
    point: ScreenPointPx,
    work_area: ScreenRectPx,
    dpi: u32,
    border_width_dip: u8,
)
    requires
        usable_dpi(dpi),
        border_width_dip <= MAX_BORDER_WIDTH_DIP,
        preview_target(point, work_area, dpi, border_width_dip) is Some,
    ensures
        preview_target(point, work_area, dpi, border_width_dip)->0.inside(work_area),
        !preview_target(point, work_area, dpi, border_width_dip)->0.spec_contains(point),
{
    dip_is_monotone(0, PREVIEW_GAP_DIP as int, dpi as int, dpi as int);
    placed_previews_are_complete(
        point,
        work_area,
        dip_px(PREVIEW_WIDTH_DIP as int, dpi as int),
        dip_px(preview_height_dip(border_width_dip), dpi as int),
        dip_px(PREVIEW_GAP_DIP as int, dpi as int),
    );
}

/// The native messages that an overlay answers itself.
#[derive(Debug, Clone, Copy, PartialEq, Eq, Structural)]
pub enum OverlayMessage {
    Paint,
    DpiChanged,
    EraseBackground,
    MouseActivate,
    HitTest,
    Other,
}

/// How an overlay answers a message.
#[derive(Debug, Clone, Copy, PartialEq, Eq, Structural)]
pub enum OverlayReply {
    /// Draw the buffer, then answer zero.
    Draw,
    /// Record that the DPI changed, then answer zero.
    RecordDpi,
    /// Answer with this value.
    Value(isize),
    /// Leave the message to the system.
    Default,
}

/// Overlays never take the focus or the mouse: a click is not to activate them,
/// and the pointer goes through to what lies below. Before the callback state is
/// attached every message is left to the system.
pub fn overlay_reply(attached: bool, message: OverlayMessage) -> (r: OverlayReply)
    ensures
        r == (if !attached {
            OverlayReply::Default
        } else {
            match message {
                OverlayMessage::Paint => OverlayReply::Draw,
                OverlayMessage::DpiChanged => OverlayReply::RecordDpi,
                OverlayMessage::EraseBackground => OverlayReply::Value(1),
                OverlayMessage::MouseActivate => OverlayReply::Value(3),
                OverlayMessage::HitTest => OverlayReply::Value(-1isize),
                OverlayMessage::Other => OverlayReply::Default,
            }
        }),
{
    if !attached {
        return OverlayReply::Default;
    }
    match message {
        OverlayMessage::Paint => OverlayReply::Draw,
        OverlayMessage::DpiChanged => OverlayReply::RecordDpi,
        OverlayMessage::EraseBackground => OverlayReply::Value(1),
        OverlayMessage::MouseActivate => OverlayReply::Value(3),
        OverlayMessage::HitTest => OverlayReply::Value(-1),
        OverlayMessage::Other => OverlayReply::Default,
    }
}

/// The coordinate line names the sampled pixel: the column after `X`, the row after
/// `Y`. The two numbers are handed out.
pub proof fn coordinate_lines_name_the_pixel(point: ScreenPointPx) -> (parts: (
    Seq<char>,
    Seq<char>,
))
    ensures
        coordinate_line(point) == seq!['X', ' '] + parts.0 + seq![' ', ' ', 'Y', ' '] + parts.1,
        writes_signed(parts.0, point.x as int),
        writes_signed(parts.1, point.y as int),
{
    reveal_strlit("X ");
    reveal_strlit("  Y ");
    let parts = (decimal_text(point.x as int), decimal_text(point.y as int));
    decimal_texts_read_back(point.x as int, 0);
    decimal_texts_read_back(point.y as int, 0);
    assert(coordinate_line(point) =~= seq!['X', ' '] + parts.0 + seq![' ', ' ', 'Y', ' ']
        + parts.1);
    parts
}

/// The colour line is `#` and the sample's channels in every language, and begins
/// with something else where there is no sample.
pub proof fn colour_lines_tell_the_sample(a: Rgb8, b: Rgb8, language: Language, other: Language)
    ensures
        color_line(Some(a), language) == color_line(Some(b), other) <==> a == b,
        color_line(Some(a), language)[0] == '#',
        color_line(None, language).len() > 0 && color_line(None, language)[0] != '#',
{
    reveal_strlit("暂不可采样");
    reveal_strlit("Unavailable");
    hex_text_lists_the_channels(a);
    if hex_text(a) == hex_text(b) {
        hex_text_identifies_the_colour(a, b);
    }
}

/// A preview is 168 device-independent pixels wide and as high as its border asks
/// for, and stands 16 from the sampled pixel wherever there is room for that below it
/// and to its right; all to the nearest pixel.
pub proof fn previews_have_their_size(
    point: ScreenPointPx,
    work_area: ScreenRectPx,
    dpi: u32,
    border_width_dip: u8,
)
    requires
        usable_dpi(dpi),
        border_width_dip <= 6,
        preview_target(point, work_area, dpi, border_width_dip) is Some,
    ensures
        ({
            let rect = preview_target(point, work_area, dpi, border_width_dip)->0;
            let (width, height) = (rect.right - rect.left, rect.bottom - rect.top);
            &&& -48 <= 168 * dpi - 96 * width < 48
            &&& -48 <= (if border_width_dip > 2 {
                36 + border_width_dip
            } else {
                38
            }) * dpi - 96 * height < 48
            &&& point.x >= work_area.left && 96 * (point.x + 1 + width) + 16 * dpi + 48 <= 96
                * work_area.right ==> -48 <= 16 * dpi - 96 * (rect.left - point.x - 1) < 48
            &&& point.y >= work_area.top && 96 * (point.y + 1 + height) + 16 * dpi + 48 <= 96
                * work_area.bottom ==> -48 <= 16 * dpi - 96 * (rect.top - point.y - 1) < 48
        }),
{
    let d = dpi as int;
    lengths_scale_to_the_nearest_pixel(168, d);
    lengths_scale_to_the_nearest_pixel(16, d);
    lengths_scale_to_the_nearest_pixel(preview_height_dip(border_width_dip), d);
    let (width, height) = (dip_px(168, d), dip_px(preview_height_dip(border_width_dip), d));
    let gap = dip_px(16, d);
    assert(0 <= gap);
    placed_previews_are_complete(point, work_area, width, height, gap);
    previews_keep_the_gap(point, work_area, width, height, gap);
}

/// A surface fits exactly the size and the DPI that it was made for.
pub proof fn surfaces_fit_what_they_were_made_for(
    window: PreviewWindow,
    width: int,
    height: int,
    dpi: u32,
    made_width: int,
    made_height: int,
    made_dpi: u32,
    capture_excluded: bool,
    appearance: AppearanceConfig,
)
    ensures
        window.surface is None ==> !window.surface_fits(width, height, dpi),
        window.surface matches Some(surface) && surface.made_for(
            made_width,
            made_height,
            made_dpi,
            capture_excluded,
            appearance,
        ) ==> (window.surface_fits(width, height, dpi) <==> width == made_width && height
            == made_height && dpi == made_dpi),
{
}

/// A DPI can be used exactly where it is known and at most a hundred times the
/// standard one.
pub proof fn known_scalings_can_be_used(dpi: u32)
    ensures
        usable_dpi(dpi) <==> 1 <= dpi <= 100 * 96,
{
}

} // verus!
