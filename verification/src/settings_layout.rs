//! Where the parts of the settings window go.
use crate::arith::{clamp_i32, clamped, fits_i32, greater, lesser, max_i32, min_i32, quotient};
use crate::color::color_ref_of_hex;
use crate::drawing::{dip, dip_is_monotone, dip_px, lengths_scale_to_the_nearest_pixel};
use crate::geometry::Rect;
use crate::layout::{
    fitted, revealed_controls_are_visible, revealing_offset, scroll_limit, SheetLayout, Unavailable,
};
use crate::result_layout::{
    fit_within, lemma_dip, place_within, rect_at, sized, work_center, Place,
};
use crate::settings_preview::{HEIGHT as PREVIEW_HEIGHT, WIDTH as PREVIEW_WIDTH};
use crate::theme::{at_least_96, drawing_dpi, Shade};
use vstd::prelude::*;

verus! {

/// Control numbers.
pub const APPLY: usize = 1;

pub const CLOSE: usize = 2;

pub const HOTKEY_LABEL: usize = 10;

pub const KEY_LABEL: usize = 11;

pub const HINT: usize = 12;

pub const FORMAT_LABEL: usize = 13;

pub const STATUS: usize = 14;

pub const TITLE: usize = 15;

pub const SUBTITLE: usize = 16;

pub const COPY_HEADING: usize = 17;

pub const USAGE_HEADING: usize = 18;

pub const USAGE_HINT: usize = 19;

pub const APPEARANCE_HEADING: usize = 20;

pub const BORDER_LABEL: usize = 21;

pub const BORDER_VALUE: usize = 22;

pub const TRANSPARENCY_LABEL: usize = 23;

pub const TRANSPARENCY_VALUE: usize = 24;

pub const PREVIEW_HEADING: usize = 25;

pub const APPEARANCE_PREVIEW: usize = 26;

pub const PREVIEW_HINT: usize = 27;

pub const LANGUAGE_LABEL: usize = 28;

pub const DETAILS: usize = 29;

pub const CTRL: usize = 101;

pub const ALT: usize = 102;

pub const SHIFT: usize = 103;

pub const KEY: usize = 104;

pub const FORMAT: usize = 105;

pub const AUTO_COPY: usize = 106;

pub const BORDER_WIDTH: usize = 107;

pub const BACKGROUND_TRANSPARENCY: usize = 108;

pub const QUICK_PICK: usize = 109;

pub const LANGUAGE: usize = 110;

pub const CONTENT: usize = 200;

/// Preferred width of the client area in device-independent pixels.
pub const CLIENT_WIDTH: i32 = 500;

/// Height of the content of a window of the preferred width.
pub const WIDE_CONTENT_HEIGHT: i32 = 686;

/// Height of the part below the content where the status stands beside the buttons.
pub const WIDE_FOOTER_HEIGHT: i32 = 64;

/// Smallest usable client area in device-independent pixels.
pub const MINIMUM_WIDTH: i32 = 280;

pub const MINIMUM_HEIGHT: i32 = 180;

/// The scrolling content in device-independent pixels: where each control stands,
/// and the three cards behind them.
#[derive(Debug)]
pub struct SettingsContentLayout {
    pub controls: Vec<(usize, Rect)>,
    pub panels: [Rect; 3],
    pub height: i32,
}

/// Whether the content is wide enough to put labels beside their controls.
pub open spec fn two_columns(width: int) -> bool {
    width >= 460
}

/// How far wide content is moved to the right to stay in the middle.
pub open spec fn centering(width: int) -> int {
    if width > 480 {
        (width - 480) / 2
    } else {
        0
    }
}

/// The controls of wide content.
pub open spec fn wide_controls(width: int) -> Seq<(usize, Rect)> {
    let x = centering(width);
    seq![
        (TITLE, sized(x + 24, 22, 220, 30)),
        (LANGUAGE_LABEL, sized(x + 252, 25, 72, 24)),
        (LANGUAGE, sized(x + 326, 22, 130, 28)),
        (SUBTITLE, sized(x + 24, 58, 432, 20)),
        (HOTKEY_LABEL, sized(x + 40, 100, 396, 24)),
        (CTRL, sized(x + 40, 128, 88, 26)),
        (ALT, sized(x + 140, 128, 88, 26)),
        (SHIFT, sized(x + 240, 128, 100, 26)),
        (KEY_LABEL, sized(x + 40, 171, 48, 24)),
        (KEY, sized(x + 88, 164, 132, 36)),
        (HINT, sized(x + 228, 164, 212, 40)),
        (COPY_HEADING, sized(x + 40, 244, 396, 24)),
        (FORMAT_LABEL, sized(x + 40, 279, 108, 24)),
        (FORMAT, sized(x + 156, 272, 180, 28)),
        (QUICK_PICK, sized(x + 40, 304, 396, 26)),
        (AUTO_COPY, sized(x + 40, 334, 396, 26)),
        (APPEARANCE_HEADING, sized(x + 40, 392, 396, 24)),
        (BORDER_LABEL, sized(x + 40, 427, 112, 24)),
        (BORDER_WIDTH, sized(x + 156, 420, 220, 30)),
        (BORDER_VALUE, sized(x + 388, 427, 56, 24)),
        (TRANSPARENCY_LABEL, sized(x + 40, 463, 112, 24)),
        (BACKGROUND_TRANSPARENCY, sized(x + 156, 456, 220, 30)),
        (TRANSPARENCY_VALUE, sized(x + 388, 463, 56, 24)),
        (PREVIEW_HEADING, sized(x + 40, 494, 396, 20)),
        (APPEARANCE_PREVIEW, sized(x + 40, 518, PREVIEW_WIDTH as int, PREVIEW_HEIGHT as int)),
        (PREVIEW_HINT, sized(x + 40, 594, 396, 20)),
        (USAGE_HEADING, sized(x + 24, 640, 64, 20)),
        (USAGE_HINT, sized(x + 96, 640, 360, 40)),
    ]
}

/// The controls of narrow content: one column, labels above their controls.
pub open spec fn narrow_controls(width: int) -> Seq<(usize, Rect)> {
    let inner = width - 56;
    let full = width - 32;
    seq![
        (TITLE, sized(16, 22, full, 30)),
        (SUBTITLE, sized(16, 58, full, 40)),
        (LANGUAGE_LABEL, sized(16, 104, full, 24)),
        (LANGUAGE, sized(16, 132, lesser(180, full), 28)),
        (HOTKEY_LABEL, sized(28, 188, inner, 24)),
        (CTRL, sized(28, 220, 76, 26)),
        (ALT, sized(112, 220, 72, 26)),
        (SHIFT, sized(28, 252, 100, 26)),
        (KEY_LABEL, sized(28, 288, inner, 24)),
        (KEY, sized(28, 316, 132, 36)),
        (HINT, sized(28, 360, inner, 64)),
        (COPY_HEADING, sized(28, 460, inner, 24)),
        (FORMAT_LABEL, sized(28, 492, inner, 24)),
        (FORMAT, sized(28, 524, lesser(180, inner), 28)),
        (QUICK_PICK, sized(28, 560, inner, 52)),
        (AUTO_COPY, sized(28, 620, inner, 52)),
        (APPEARANCE_HEADING, sized(28, 708, inner, 24)),
        (BORDER_LABEL, sized(28, 740, inner - 68, 24)),
        (BORDER_VALUE, sized(width - 84, 740, 56, 24)),
        (BORDER_WIDTH, sized(28, 772, inner, 30)),
        (TRANSPARENCY_LABEL, sized(28, 812, inner - 68, 24)),
        (TRANSPARENCY_VALUE, sized(width - 84, 812, 56, 24)),
        (BACKGROUND_TRANSPARENCY, sized(28, 844, inner, 30)),
        (PREVIEW_HEADING, sized(28, 884, inner, 40)),
        (APPEARANCE_PREVIEW, sized(28, 930, inner, 72)),
        (PREVIEW_HINT, sized(28, 1010, inner, 40)),
        (USAGE_HEADING, sized(16, 1076, full, 24)),
        (USAGE_HINT, sized(16, 1108, full, 88)),
    ]
}

/// Where each control of the content stands.
pub open spec fn content_controls(width: int) -> Seq<(usize, Rect)> {
    if two_columns(width) {
        wide_controls(width)
    } else {
        narrow_controls(width)
    }
}

/// The cards for the shortcut, for copying and for the appearance.
pub open spec fn content_panels(width: int) -> Seq<Rect> {
    if two_columns(width) {
        let x = centering(width) + 24;
        seq![sized(x, 88, 432, 132), sized(x, 232, 432, 136), sized(x, 380, 432, 248)]
    } else {
        seq![
            sized(16, 176, width - 32, 260),
            sized(16, 448, width - 32, 236),
            sized(16, 696, width - 32, 366),
        ]
    }
}

/// Height of the content.
pub open spec fn content_extent(width: int) -> int {
    if two_columns(width) {
        WIDE_CONTENT_HEIGHT as int
    } else {
        1212
    }
}

fn wide_rows(width: i32, x: i32) -> (r: Vec<(usize, Rect)>)
    requires
        x == centering(width as int),
    ensures
        r@ == wide_controls(width as int),
{
    let mut rows: Vec<(usize, Rect)> = Vec::new();
    rows.push((TITLE, rect_at(x + 24, 22, 220, 30)));
    rows.push((LANGUAGE_LABEL, rect_at(x + 252, 25, 72, 24)));
    rows.push((LANGUAGE, rect_at(x + 326, 22, 130, 28)));
    rows.push((SUBTITLE, rect_at(x + 24, 58, 432, 20)));
    rows.push((HOTKEY_LABEL, rect_at(x + 40, 100, 396, 24)));
    rows.push((CTRL, rect_at(x + 40, 128, 88, 26)));
    rows.push((ALT, rect_at(x + 140, 128, 88, 26)));
    rows.push((SHIFT, rect_at(x + 240, 128, 100, 26)));
    rows.push((KEY_LABEL, rect_at(x + 40, 171, 48, 24)));
    rows.push((KEY, rect_at(x + 88, 164, 132, 36)));
    rows.push((HINT, rect_at(x + 228, 164, 212, 40)));
    rows.push((COPY_HEADING, rect_at(x + 40, 244, 396, 24)));
    rows.push((FORMAT_LABEL, rect_at(x + 40, 279, 108, 24)));
    rows.push((FORMAT, rect_at(x + 156, 272, 180, 28)));
    rows.push((QUICK_PICK, rect_at(x + 40, 304, 396, 26)));
    rows.push((AUTO_COPY, rect_at(x + 40, 334, 396, 26)));
    rows.push((APPEARANCE_HEADING, rect_at(x + 40, 392, 396, 24)));
    rows.push((BORDER_LABEL, rect_at(x + 40, 427, 112, 24)));
    rows.push((BORDER_WIDTH, rect_at(x + 156, 420, 220, 30)));
    rows.push((BORDER_VALUE, rect_at(x + 388, 427, 56, 24)));
    rows.push((TRANSPARENCY_LABEL, rect_at(x + 40, 463, 112, 24)));
    rows.push((BACKGROUND_TRANSPARENCY, rect_at(x + 156, 456, 220, 30)));
    rows.push((TRANSPARENCY_VALUE, rect_at(x + 388, 463, 56, 24)));
    rows.push((PREVIEW_HEADING, rect_at(x + 40, 494, 396, 20)));
    rows.push((APPEARANCE_PREVIEW, rect_at(x + 40, 518, PREVIEW_WIDTH, PREVIEW_HEIGHT)));
    rows.push((PREVIEW_HINT, rect_at(x + 40, 594, 396, 20)));
    rows.push((USAGE_HEADING, rect_at(x + 24, 640, 64, 20)));
    rows.push((USAGE_HINT, rect_at(x + 96, 640, 360, 40)));
    rows
}

fn narrow_rows(width: i32) -> (r: Vec<(usize, Rect)>)
    requires
        i32::MIN + 200 <= width < 460,
    ensures
        r@ == narrow_controls(width as int),
{
    let inner: i32 = width - 56;
    let full: i32 = width - 32;
    let mut rows: Vec<(usize, Rect)> = Vec::new();
    rows.push((TITLE, rect_at(16, 22, full, 30)));
    rows.push((SUBTITLE, rect_at(16, 58, full, 40)));
    rows.push((LANGUAGE_LABEL, rect_at(16, 104, full, 24)));
    rows.push((LANGUAGE, rect_at(16, 132, min_i32(180, full), 28)));
    rows.push((HOTKEY_LABEL, rect_at(28, 188, inner, 24)));
    rows.push((CTRL, rect_at(28, 220, 76, 26)));
    rows.push((ALT, rect_at(112, 220, 72, 26)));
    rows.push((SHIFT, rect_at(28, 252, 100, 26)));
    rows.push((KEY_LABEL, rect_at(28, 288, inner, 24)));
    rows.push((KEY, rect_at(28, 316, 132, 36)));
    rows.push((HINT, rect_at(28, 360, inner, 64)));
    rows.push((COPY_HEADING, rect_at(28, 460, inner, 24)));
    rows.push((FORMAT_LABEL, rect_at(28, 492, inner, 24)));
    rows.push((FORMAT, rect_at(28, 524, min_i32(180, inner), 28)));
    rows.push((QUICK_PICK, rect_at(28, 560, inner, 52)));
    rows.push((AUTO_COPY, rect_at(28, 620, inner, 52)));
    rows.push((APPEARANCE_HEADING, rect_at(28, 708, inner, 24)));
    rows.push((BORDER_LABEL, rect_at(28, 740, inner - 68, 24)));
    rows.push((BORDER_VALUE, rect_at(width - 84, 740, 56, 24)));
    rows.push((BORDER_WIDTH, rect_at(28, 772, inner, 30)));
    rows.push((TRANSPARENCY_LABEL, rect_at(28, 812, inner - 68, 24)));
    rows.push((TRANSPARENCY_VALUE, rect_at(width - 84, 812, 56, 24)));
    rows.push((BACKGROUND_TRANSPARENCY, rect_at(28, 844, inner, 30)));
    rows.push((PREVIEW_HEADING, rect_at(28, 884, inner, 40)));
    rows.push((APPEARANCE_PREVIEW, rect_at(28, 930, inner, 72)));
    rows.push((PREVIEW_HINT, rect_at(28, 1010, inner, 40)));
    rows.push((USAGE_HEADING, rect_at(16, 1076, full, 24)));
    rows.push((USAGE_HINT, rect_at(16, 1108, full, 88)));
    rows
}

/// Lays the content out for a width in device-independent pixels.
pub fn settings_content_layout(width: i32) -> (r: SettingsContentLayout)
    requires
        width >= i32::MIN + 200,
    ensures
        r.controls@ == content_controls(width as int),
        r.panels@ == content_panels(width as int),
        r.height == content_extent(width as int),
{
    if width >= 460 {
        let x: i32 = if width > 480 {
            (width - 480) / 2
        } else {
            0
        };
        let panels = [
            rect_at(x + 24, 88, 432, 132),
            rect_at(x + 24, 232, 432, 136),
            rect_at(x + 24, 380, 432, 248),
        ];
        assert(panels@ =~= content_panels(width as int));
        SettingsContentLayout { controls: wide_rows(width, x), panels, height: WIDE_CONTENT_HEIGHT }
    } else {
        let full: i32 = width - 32;
        let panels = [
            rect_at(16, 176, full, 260),
            rect_at(16, 448, full, 236),
            rect_at(16, 696, full, 366),
        ];
        assert(panels@ =~= content_panels(width as int));
        SettingsContentLayout { controls: narrow_rows(width), panels, height: 1212 }
    }
}

/// Whether a control takes the keyboard focus.
pub open spec fn focusable(id: usize) -> bool {
    id >= CTRL
}

/// Whether a rectangle has a size and lies inside the content.
pub open spec fn content_holds(rect: Rect, width: int) -> bool {
    &&& 0 <= rect.left < rect.right <= width
    &&& 0 <= rect.top < rect.bottom <= content_extent(width)
}

/// At every supported width each of the 28 controls has a size and lies inside
/// the content, and those that take the focus are low enough to be revealed
/// completely in the smallest viewport of 80 with a padding of 8.
pub proof fn settings_content_fits(width: int, index: int)
    requires
        260 <= width <= i32::MAX,
        0 <= index < content_controls(width).len(),
    ensures
        content_controls(width).len() == 28,
        ({
            let (id, rect) = content_controls(width)[index];
            content_holds(rect, width) && (focusable(id) ==> rect.bottom - rect.top + 2 * 8 <= 80)
        }),
{
}

/// The cards lie inside the content, one below the other.
pub proof fn settings_panels_fit(width: int)
    requires
        260 <= width <= i32::MAX,
    ensures
        content_panels(width).len() == 3,
        forall|i: int| 0 <= i < 3 ==> content_holds(#[trigger] content_panels(width)[i], width),
        forall|i: int, j: int|
            0 <= i < j < 3 ==> (#[trigger] content_panels(width)[i]).bottom
                <= (#[trigger] content_panels(width)[j]).top,
{
}

/// Whether two rectangles share no pixel.
pub open spec fn apart(a: Rect, b: Rect) -> bool {
    a.right <= b.left || b.right <= a.left || a.bottom <= b.top || b.bottom <= a.top
}

/// No two controls of the content overlap.
pub proof fn settings_controls_keep_apart(width: int, index: int, other: int)
    requires
        260 <= width <= i32::MAX,
        0 <= index < other < content_controls(width).len(),
    ensures
        apart(content_controls(width)[index].1, content_controls(width)[other].1),
{
}

/// The client area that a layout works with.
#[derive(Debug, Clone, Copy, PartialEq, Eq, Structural)]
pub struct SettingsClient {
    pub width: i32,
    pub height: i32,
    pub dpi: u32,
}

impl SettingsClient {
    /// A client area on a supported display, whose width in device-independent
    /// pixels is representable.
    pub open spec fn wf(&self) -> bool {
        &&& 0 <= self.width
        &&& 0 <= self.height
        &&& 0 < self.dpi <= 9600
        &&& self.full_width() <= i32::MAX
    }

    /// Whether this client area can be laid out.
    pub fn is_representable(&self) -> (r: bool)
        ensures
            r == self.wf(),
    {
        0 <= self.width && 0 <= self.height && 0 < self.dpi && self.dpi <= 9600 && (self.width as i64
            * 96 + self.dpi as i64 / 2) / self.dpi as i64 <= i32::MAX as i64
    }

    /// Whether the status stands above the buttons.
    pub open spec fn narrow(&self) -> bool {
        self.width < dip(480, self.dpi)
    }

    /// Height of the part below the content.
    pub open spec fn footer(&self) -> int {
        dip(
            if self.narrow() {
                100
            } else {
                WIDE_FOOTER_HEIGHT
            },
            self.dpi,
        ) as int
    }

    /// Height of the scrolling part.
    pub open spec fn viewport_height(&self) -> int {
        self.height - self.footer()
    }

    /// Whether the window can show its controls.
    pub open spec fn usable(&self) -> bool {
        self.width > 0 && self.viewport_height() >= dip(80, self.dpi)
    }

    /// Width of the client area in device-independent pixels, rounded to the nearest.
    pub open spec fn full_width(&self) -> int {
        (self.width * 96 + self.dpi as int / 2) / self.dpi as int
    }

    /// Whether content over the full width is too high to be shown at once.
    pub open spec fn scrolls(&self) -> bool {
        dip(content_extent(self.full_width()) as i32, self.dpi) > self.viewport_height()
    }

    /// Width of the content in device-independent pixels: the full width, less the
    /// room of the scroll bar where there is one.
    pub open spec fn content_width(&self) -> int {
        if self.scrolls() {
            self.full_width() - 20
        } else {
            self.full_width()
        }
    }

    pub open spec fn content_height(&self) -> int {
        dip(content_extent(self.content_width()) as i32, self.dpi) as int
    }

    /// The scroll offset held to the content.
    pub open spec fn held_offset(&self, offset: int) -> int {
        clamped(offset, 0, greater(self.content_height() - self.viewport_height(), 0))
    }

    /// A control of the content in physical pixels, scrolled. The height of a
    /// selector is that of its opened list.
    pub open spec fn scrolled(&self, control: (usize, Rect), offset: int) -> (usize, Place) {
        let (id, rect) = control;
        (
            id,
            Place {
                x: dip(rect.left, self.dpi),
                y: (dip(rect.top, self.dpi) - self.held_offset(offset)) as i32,
                width: dip((rect.right - rect.left) as i32, self.dpi),
                height: dip(
                    if id == LANGUAGE || id == FORMAT {
                        160
                    } else {
                        (rect.bottom - rect.top) as i32
                    },
                    self.dpi,
                ),
            },
        )
    }

    pub open spec fn margin(&self) -> int {
        dip(16, self.dpi) as int
    }

    pub open spec fn gap(&self) -> int {
        dip(12, self.dpi) as int
    }

    pub open spec fn button_width(&self) -> int {
        dip(92, self.dpi) as int
    }

    pub open spec fn footer_y(&self) -> int {
        self.viewport_height() + dip(8, self.dpi)
    }

    pub open spec fn button_y(&self) -> int {
        if self.narrow() {
            self.footer_y() + dip(44, self.dpi)
        } else {
            self.footer_y()
        }
    }

    pub open spec fn apply_x(&self) -> int {
        self.width - self.margin() - self.button_width()
    }

    pub open spec fn close_x(&self) -> int {
        self.apply_x() - self.gap() - self.button_width()
    }

    pub open spec fn button(&self, x: int) -> Place {
        Place {
            x: x as i32,
            y: self.button_y() as i32,
            width: self.button_width() as i32,
            height: dip(36, self.dpi),
        }
    }

    pub open spec fn status(&self) -> Place {
        Place {
            x: self.margin() as i32,
            y: self.footer_y() as i32,
            width: if self.narrow() {
                (self.width - 2 * self.margin()) as i32
            } else {
                (self.close_x() - self.gap() - self.margin()) as i32
            },
            height: dip(40, self.dpi),
        }
    }
}

/// The complete placement of the settings window.
#[derive(Debug)]
pub struct SettingsPlan {
    pub viewport_height: i32,
    pub content_height: i32,
    pub content_width_dip: i32,
    pub offset: i32,
    pub controls: Vec<(usize, Place)>,
    pub status: Place,
    pub close: Place,
    pub apply: Place,
    /// Height of a selector's field and of each of its choices.
    pub choice_height: i32,
}

impl SettingsPlan {
    /// Whether this is the plan for a client area and a scroll offset.
    pub open spec fn for_client(&self, client: SettingsClient, offset: int) -> bool {
        &&& self.viewport_height == client.viewport_height()
        &&& self.content_height == client.content_height()
        &&& self.content_width_dip == client.content_width()
        &&& self.offset == client.held_offset(offset)
        &&& self.controls@ == content_controls(client.content_width()).map_values(
            |control: (usize, Rect)| client.scrolled(control, offset),
        )
        &&& self.status == client.status()
        &&& self.close == client.button(client.close_x())
        &&& self.apply == client.button(client.apply_x())
        &&& self.choice_height == dip(24, client.dpi)
    }
}

/// Whether a control of the content can be scrolled without overflow.
pub open spec fn placeable(control: (usize, Rect)) -> bool {
    &&& 0 <= control.1.top <= 2000
    &&& fits_i32(control.1.right - control.1.left)
    &&& fits_i32(control.1.bottom - control.1.top)
}

/// Every control of the content can be scrolled without overflow.
proof fn lemma_controls_are_placeable(width: int)
    requires
        -20 <= width <= i32::MAX,
    ensures
        forall|i: int|
            0 <= i < content_controls(width).len() ==> placeable(
                #[trigger] content_controls(width)[i],
            ),
{
}

fn place_controls(controls: &Vec<(usize, Rect)>, client: SettingsClient, offset: i32) -> (r: Vec<
    (usize, Place),
>)
    requires
        client.wf(),
        0 <= offset <= 200_000,
        offset == client.held_offset(offset as int),
        forall|i: int| 0 <= i < controls@.len() ==> placeable(#[trigger] controls@[i]),
    ensures
        r@ == controls@.map_values(
            |control: (usize, Rect)| client.scrolled(control, offset as int),
        ),
{
    let mut places: Vec<(usize, Place)> = Vec::new();
    let mut i: usize = 0;
    while i < controls.len()
        invariant
            i <= controls.len(),
            client.wf(),
            0 <= offset <= 200_000,
            offset == client.held_offset(offset as int),
            forall|k: int| 0 <= k < controls@.len() ==> placeable(#[trigger] controls@[k]),
            places@.len() == i,
            forall|k: int|
                0 <= k < i ==> #[trigger] places@[k] == client.scrolled(
                    controls@[k],
                    offset as int,
                ),
        decreases controls.len() - i,
    {
        assert(placeable(controls@[i as int]));
        let (id, rect) = controls[i];
        proof {
            lemma_dip(rect.top, client.dpi);
        }
        let height: i32 = if id == LANGUAGE || id == FORMAT {
            160
        } else {
            rect.bottom - rect.top
        };
        places.push(
            (
                id,
                Place {
                    x: dip(rect.left, client.dpi),
                    y: dip(rect.top, client.dpi) - offset,
                    width: dip(rect.right - rect.left, client.dpi),
                    height: dip(height, client.dpi),
                },
            ),
        );
        i = i + 1;
    }
    assert(places@ =~= controls@.map_values(
        |control: (usize, Rect)| client.scrolled(control, offset as int),
    ));
    places
}

fn content_width_of(client: SettingsClient, viewport_height: i32) -> (r: i32)
    requires
        client.wf(),
        viewport_height == client.viewport_height(),
    ensures
        r == client.content_width(),
        -20 <= r,
{
    let scaled: i64 = (client.width as i64 * 96 + client.dpi as i64 / 2) / client.dpi as i64;
    proof {
        let w = client.width * 96 + client.dpi as int / 2;
        let d = client.dpi as int;
        assert(0 <= w / d <= w) by (nonlinear_arith)
            requires
                0 <= w,
                1 <= d,
        ;
    }
    let full: i32 = scaled as i32;
    let extent: i32 = if full >= 460 {
        WIDE_CONTENT_HEIGHT
    } else {
        1212
    };
    if dip(extent, client.dpi) > viewport_height {
        full - 20
    } else {
        full
    }
}

/// The constant lengths of a settings layout are exact.
proof fn lemma_settings_dips(dpi: u32)
    requires
        0 < dpi <= 9600,
    ensures
        forall|value: i32|
            #![trigger dip(value, dpi)]
            0 <= value <= 2000 ==> dip(value, dpi) == dip_px(value as int, dpi as int) && 0 <= dip(
                value,
                dpi,
            ) <= 100 * value,
{
    assert forall|value: i32|
        #![trigger dip(value, dpi)]
        0 <= value <= 2000 implies dip(value, dpi) == dip_px(value as int, dpi as int) && 0 <= dip(
        value,
        dpi,
    ) <= 100 * value by {
        lemma_dip(value, dpi);
    }
}

/// Lays the settings window out. `scroll_offset` is held to the content.
pub fn settings_layout(client: SettingsClient, scroll_offset: i32) -> (r: Result<
    SettingsPlan,
    Unavailable,
>)
    requires
        client.wf(),
    ensures
        r is Ok <==> client.usable(),
        r matches Ok(plan) ==> plan.for_client(client, scroll_offset as int),
{
    proof {
        lemma_settings_dips(client.dpi);
        lemma_dip(WIDE_FOOTER_HEIGHT, client.dpi);
    }
    let dpi: u32 = client.dpi;
    let narrow = client.width < dip(480, dpi);
    let footer: i32 = dip(
        if narrow {
            100
        } else {
            WIDE_FOOTER_HEIGHT
        },
        dpi,
    );
    let panes = match SheetLayout::new(client.width, client.height, 0, footer, dip(80, dpi)) {
        Ok(panes) => panes,
        Err(error) => return Err(error),
    };
    let viewport_height: i32 = panes.viewport.bottom;
    let content_width: i32 = content_width_of(client, viewport_height);
    let geometry = settings_content_layout(content_width);
    let content_height: i32 = dip(geometry.height, dpi);
    proof {
        lemma_dip(geometry.height, dpi);
        lemma_controls_are_placeable(content_width as int);
    }
    let offset: i32 = clamp_i32(scroll_offset, 0, max_i32(content_height - viewport_height, 0));
    let controls = place_controls(&geometry.controls, client, offset);
    let footer_top: i32 = panes.actions.top + dip(8, dpi);
    let button_width: i32 = dip(92, dpi);
    let button_height: i32 = dip(36, dpi);
    let gap: i32 = dip(12, dpi);
    let margin: i32 = dip(16, dpi);
    let apply_x: i32 = client.width - margin - button_width;
    let close_x: i32 = apply_x - gap - button_width;
    let button_y: i32 = footer_top + if narrow {
        dip(44, dpi)
    } else {
        0
    };
    let status_width: i32 = if narrow {
        client.width - 2 * margin
    } else {
        close_x - gap - margin
    };
    let plan = SettingsPlan {
        viewport_height,
        content_height,
        content_width_dip: content_width,
        offset,
        controls,
        status: Place { x: margin, y: footer_top, width: status_width, height: dip(40, dpi) },
        close: Place { x: close_x, y: button_y, width: button_width, height: button_height },
        apply: Place { x: apply_x, y: button_y, width: button_width, height: button_height },
        choice_height: dip(24, dpi),
    };
    assert(plan.controls@ =~= content_controls(client.content_width()).map_values(
        |control: (usize, Rect)| client.scrolled(control, scroll_offset as int),
    ));
    Ok(plan)
}

/// In every usable window of at least the minimum width the status and both
/// buttons stand complete below the content and keep apart.
pub proof fn settings_actions_stay_complete(client: SettingsClient)
    requires
        client.wf(),
        client.usable(),
        client.dpi >= 96,
        client.width >= dip(MINIMUM_WIDTH, client.dpi),
    ensures
        ({
            let top = client.viewport_height();
            let bottom = client.height as int;
            let width = client.width as int;
            let close = client.button(client.close_x());
            let apply = client.button(client.apply_x());
            &&& place_within(client.status(), width, top, bottom)
            &&& place_within(close, width, top, bottom)
            &&& place_within(apply, width, top, bottom)
            &&& close.x + close.width <= apply.x
            &&& client.narrow() ==> client.status().y + client.status().height <= close.y
            &&& !client.narrow() ==> client.status().x + client.status().width <= close.x
        }),
{
    lemma_settings_dips(client.dpi);
    lemma_settings_sums(client.dpi as int);
}

/// Lengths that the layout compares, with their roundings.
proof fn lemma_settings_sums(d: int)
    requires
        96 <= d <= 9600,
    ensures
        dip_px(8, d) + dip_px(40, d) <= dip_px(64, d),
        dip_px(8, d) + dip_px(36, d) <= dip_px(64, d),
        dip_px(8, d) + dip_px(44, d) + dip_px(36, d) <= dip_px(100, d),
        dip_px(40, d) <= dip_px(44, d),
        2 * dip_px(16, d) + 2 * dip_px(92, d) + dip_px(12, d) <= dip_px(280, d),
        2 * dip_px(16, d) + 2 * dip_px(92, d) + 2 * dip_px(12, d) < dip_px(480, d),
        dip_px(36, d) >= 36,
        dip_px(40, d) >= 40,
        dip_px(92, d) >= 92,
{
}

/// The client area that a new window asks for.
pub open spec fn preferred_extent(dpi: u32) -> (i32, i32) {
    (
        dip(CLIENT_WIDTH, dpi),
        (dip(WIDE_CONTENT_HEIGHT, dpi) + dip(WIDE_FOOTER_HEIGHT, dpi)) as i32,
    )
}

/// Whatever the display's scaling, a window of the preferred size shows all of its
/// content without a scroll bar, and its header keeps margins at both sides that
/// differ by at most two pixels: from the title to the language selector.
pub proof fn preferred_settings_windows_are_balanced(dpi: u32, offset: int)
    requires
        96 <= dpi <= 9600,
    ensures
        ({
            let (width, height) = preferred_extent(dpi);
            let client = SettingsClient { width, height, dpi };
            let controls = content_controls(client.content_width());
            let (title_id, title) = client.scrolled(controls[0], offset);
            let (language_id, language) = client.scrolled(controls[2], offset);
            let right = width - language.x - language.width;
            &&& client.wf()
            &&& client.usable()
            &&& !client.scrolls()
            &&& client.content_width() == CLIENT_WIDTH
            &&& title_id == TITLE && language_id == LANGUAGE
            &&& 0 < title.x
            &&& 0 < right
            &&& -2 <= title.x - right <= 2
        }),
{
    let (width, height) = preferred_extent(dpi);
    let client = SettingsClient { width, height, dpi };
    let d = dpi as int;
    lemma_settings_dips(dpi);
    lemma_preferred_lengths(d);
    assert(width == dip_px(500, d) && height == dip_px(686, d) + dip_px(64, d));
    assert(!client.narrow());
    assert(client.viewport_height() == dip_px(686, d));
    lemma_nearest(width * 96 + d / 2, d, 500);
    assert(client.full_width() == 500);
    let controls = content_controls(500);
    assert(controls[0] == (TITLE, sized(34, 22, 220, 30)));
    assert(controls[2] == (LANGUAGE, sized(336, 22, 130, 28)));
}

/// The width and the header of a window of the preferred size, in physical pixels.
proof fn lemma_preferred_lengths(d: int)
    requires
        96 <= d <= 9600,
    ensures
        500 * d <= dip_px(500, d) * 96 + d / 2 < 501 * d,
        dip_px(480, d) <= dip_px(500, d),
        dip_px(80, d) <= dip_px(686, d),
        0 < dip_px(34, d),
        0 < dip_px(500, d) - dip_px(336, d) - dip_px(130, d),
        -2 <= dip_px(34, d) - (dip_px(500, d) - dip_px(336, d) - dip_px(130, d)) <= 2,
{
}

proof fn lemma_nearest(scaled: int, d: int, value: int)
    requires
        0 < d,
        value * d <= scaled < value * d + d,
    ensures
        scaled / d == value,
{
    assert(scaled / d == value) by (nonlinear_arith)
        requires
            0 < d,
            value * d <= scaled < value * d + d,
    ;
}

/// Every control of the content keeps a small margin at the right.
proof fn lemma_controls_keep_a_margin(width: int, index: int)
    requires
        260 <= width <= i32::MAX,
        0 <= index < content_controls(width).len(),
    ensures
        ({
            let rect = content_controls(width)[index].1;
            0 <= rect.left < rect.right <= width - 4
        }),
{
}

/// In every window of at least the minimum width all controls of the content stand
/// inside it from left to right, and beside the scroll bar where there is one.
pub proof fn settings_controls_stay_inside(client: SettingsClient, index: int, offset: int)
    requires
        client.wf(),
        client.dpi >= 96,
        client.width >= dip(MINIMUM_WIDTH, client.dpi),
        0 <= index < content_controls(client.content_width()).len(),
    ensures
        ({
            let place = client.scrolled(
                content_controls(client.content_width())[index],
                offset,
            ).1;
            let bar = if client.scrolls() {
                dip(20, client.dpi) as int
            } else {
                0
            };
            0 <= place.x && 0 < place.width && place.x + place.width <= client.width - bar
        }),
{
    let d = client.dpi as int;
    let scaled = client.width * 96 + d / 2;
    let full = client.full_width();
    lemma_settings_dips(client.dpi);
    lemma_dip(MINIMUM_WIDTH, client.dpi);
    assert(280 * d <= dip_px(280, d) * 96 + d / 2);
    assert(280 <= full && full * d <= scaled) by (nonlinear_arith)
        requires
            280 * d <= scaled,
            full == scaled / d,
            0 < d,
    ;
    let content = client.content_width();
    lemma_controls_keep_a_margin(content, index);
    let rect = content_controls(content)[index].1;
    let wide = rect.right - rect.left;
    let bar = if client.scrolls() {
        20int
    } else {
        0
    };
    assert(rect.left * d + wide * d + 4 * d + bar * d <= scaled && 0 <= rect.left * d && d <= wide
        * d) by (nonlinear_arith)
        requires
            full * d <= scaled,
            rect.left + wide + 4 + bar <= full,
            0 <= rect.left,
            1 <= wide,
            0 < d,
    ;
}

/// A control of the content that takes the focus is shown completely after it was
/// revealed. `height` is the height that it has on the screen: as it was placed, or
/// for a selector that of its closed field.
pub proof fn revealed_settings_controls_are_visible(
    client: SettingsClient,
    index: int,
    offset: int,
    height: int,
)
    requires
        client.wf(),
        client.usable(),
        client.dpi >= 96,
        0 <= index < content_controls(client.content_width()).len(),
        ({
            let (id, rect) = content_controls(client.content_width())[index];
            &&& focusable(id)
            &&& if id == LANGUAGE || id == FORMAT {
                0 <= height <= dip(36, client.dpi)
            } else {
                height == dip((rect.bottom - rect.top) as i32, client.dpi)
            }
        }),
    ensures
        ({
            let control = content_controls(client.content_width())[index];
            let top = client.scrolled(control, offset).1.y as int;
            let revealed = clamped(
                revealing_offset(
                    client.held_offset(offset),
                    top,
                    top + height,
                    client.viewport_height(),
                    dip(8, client.dpi) as int,
                ),
                0,
                scroll_limit(client.viewport_height(), client.content_height()),
            );
            let shown = client.scrolled(control, revealed).1.y;
            0 <= shown && shown + height <= client.viewport_height()
        }),
{
    let d = client.dpi as int;
    let width = client.content_width();
    let (id, rect) = content_controls(width)[index];
    lemma_settings_dips(client.dpi);
    let scaled = client.width * 96 + d / 2;
    assert(0 <= scaled / d) by (nonlinear_arith)
        requires
            0 <= scaled,
            0 < d,
    ;
    lemma_focusable_lengths(width, index);
    lemma_revealed_sums(d, rect.top as int, rect.bottom - rect.top);
    dip_is_monotone(rect.top + 53, content_extent(width), d, d);
    revealed_controls_are_visible(
        client.held_offset(offset),
        dip(rect.top, client.dpi) as int,
        height,
        client.viewport_height(),
        client.content_height(),
        dip(8, client.dpi) as int,
    );
}

/// Where the controls that take the focus end.
proof fn lemma_focusable_lengths(width: int, index: int)
    requires
        -20 <= width <= i32::MAX,
        0 <= index < content_controls(width).len(),
        focusable(content_controls(width)[index].0),
    ensures
        ({
            let rect = content_controls(width)[index].1;
            &&& 0 <= rect.top <= 1100
            &&& 0 < rect.bottom - rect.top <= 52
            &&& rect.top + 53 <= content_extent(width)
        }),
{
}

/// A control and its padding fit the smallest viewport, and it ends inside the
/// content, with all roundings.
proof fn lemma_revealed_sums(d: int, top: int, height: int)
    requires
        96 <= d <= 9600,
        0 <= top <= 1100,
        0 < height <= 52,
    ensures
        dip_px(height, d) <= dip_px(52, d),
        dip_px(52, d) + 2 * dip_px(8, d) <= dip_px(80, d),
        dip_px(36, d) <= dip_px(52, d),
        dip_px(top, d) + dip_px(52, d) <= dip_px(top + 53, d),
{
    dip_is_monotone(height, 52, d, d);
    assert((top + 53) * d == top * d + 53 * d) by (nonlinear_arith);
    assert(0 <= top * d) by (nonlinear_arith)
        requires
            0 <= top,
            0 <= d,
    ;
}

/// A window of the minimum size shows its controls, except at those scalings where
/// the parts of its height round up and their sum does not: there it lacks one pixel.
pub proof fn minimum_settings_windows_are_usable(dpi: u32)
    requires
        96 <= dpi <= 9600,
    ensures
        (SettingsClient {
            width: dip(MINIMUM_WIDTH, dpi),
            height: dip(MINIMUM_HEIGHT, dpi),
            dpi,
        }).usable() <==> {
            let step = dpi % 24;
            step != 13 && step != 14 && step != 15 && step != 21
        },
{
    lemma_settings_dips(dpi);
    lemma_dip(MINIMUM_WIDTH, dpi);
    lemma_dip(MINIMUM_HEIGHT, dpi);
    let d = dpi as int;
    let k = d / 24;
    let step = d % 24;
    assert(d == 24 * k + step);
    assert(dip_px(180, d) == 45 * k + dip_px(180, step));
    assert(dip_px(100, d) == 25 * k + dip_px(100, step));
    assert(dip_px(80, d) == 20 * k + dip_px(80, step));
    assert(dip_px(280, d) < dip_px(480, d));
}

/// The content drawn behind the controls: the canvas, then rounded cards.
#[derive(Debug)]
pub struct ContentPaint {
    pub canvas: u32,
    pub card: u32,
    pub outline: u32,
    pub cards: Vec<Rect>,
    /// Width and height of the rounding at a card's corners.
    pub rounding: i32,
}

/// A card in physical pixels, scrolled.
pub open spec fn scrolled_card(card: Rect, offset: int, dpi: u32) -> Rect {
    Rect {
        left: dip(card.left, dpi),
        top: (dip(card.top, dpi) - offset) as i32,
        right: dip(card.right, dpi),
        bottom: (dip(card.bottom, dpi) - offset) as i32,
    }
}

/// What the scrolling part paints. A display that does not tell its DPI counts as
/// one of 96.
pub fn paint_content(offset: i32, width: i32, dpi: u32) -> (r: ContentPaint)
    requires
        width >= i32::MIN + 200,
        offset >= -0x7000_0000,
        dpi <= 9600,
    ensures
        r.canvas == color_ref_of_hex(Shade::Canvas.hex()),
        r.card == color_ref_of_hex(Shade::Panel.hex()),
        r.outline == color_ref_of_hex(Shade::Border.hex()),
        r.cards@ == content_panels(width as int).map_values(
            |card: Rect| scrolled_card(card, offset as int, drawing_dpi(dpi)),
        ),
        r.rounding == dip(16, drawing_dpi(dpi)),
{
    let dpi: u32 = at_least_96(dpi);
    let panels = settings_content_layout(width).panels;
    let mut cards: Vec<Rect> = Vec::new();
    let mut i: usize = 0;
    while i < 3
        invariant
            i <= 3,
            panels@ == content_panels(width as int),
            offset >= -0x7000_0000,
            dpi <= 9600,
            cards@.len() == i,
            forall|k: int|
                0 <= k < i ==> #[trigger] cards@[k] == scrolled_card(
                    panels@[k],
                    offset as int,
                    dpi,
                ),
        decreases 3 - i,
    {
        let card = panels[i];
        proof {
            lemma_dip(card.top, dpi);
            lemma_dip(card.bottom, dpi);
        }
        cards.push(
            Rect {
                left: dip(card.left, dpi),
                top: dip(card.top, dpi) - offset,
                right: dip(card.right, dpi),
                bottom: dip(card.bottom, dpi) - offset,
            },
        );
        i = i + 1;
    }
    assert(cards@ =~= content_panels(width as int).map_values(
        |card: Rect| scrolled_card(card, offset as int, dpi),
    ));
    ContentPaint {
        canvas: Shade::Canvas.color(),
        card: Shade::Panel.color(),
        outline: Shade::Border.color(),
        cards,
        rounding: dip(16, dpi),
    }
}

/// The client area that a new window asks for, in physical pixels: exactly high
/// enough for its content and for the part below, each rounded as it is laid out.
pub fn preferred_client(dpi: u32) -> (r: (i32, i32))
    requires
        dpi <= 9600,
    ensures
        r == preferred_extent(dpi),
        r.1 == dip(WIDE_CONTENT_HEIGHT, dpi) + dip(WIDE_FOOTER_HEIGHT, dpi),
{
    proof {
        lemma_dip(WIDE_CONTENT_HEIGHT, dpi);
        lemma_dip(WIDE_FOOTER_HEIGHT, dpi);
    }
    (dip(CLIENT_WIDTH, dpi), dip(WIDE_CONTENT_HEIGHT, dpi) + dip(WIDE_FOOTER_HEIGHT, dpi))
}

/// The smallest client area, in physical pixels. The frame is added to it.
pub fn minimum_client(dpi: u32) -> (r: (i32, i32))
    ensures
        r == (dip(MINIMUM_WIDTH, dpi), dip(MINIMUM_HEIGHT, dpi)),
{
    (dip(MINIMUM_WIDTH, dpi), dip(MINIMUM_HEIGHT, dpi))
}

/// A window of a size around the middle of a work area.
pub open spec fn centered(work: Rect, width: int, height: int) -> (int, int) {
    (
        quotient(work.left + work.right, 2) - quotient(width, 2),
        quotient(work.top + work.bottom, 2) - quotient(height, 2),
    )
}

/// Puts a new window of an outer size in the middle of a work area, and keeps it
/// inside. The work area is the one whose display gave the DPI, even where the
/// preferred rectangle reaches farther into a neighbouring display.
pub fn initial_window(work: Rect, outer: (i32, i32), minimum: (i32, i32)) -> (r: Result<
    Rect,
    Unavailable,
>)
    requires
        minimum.0 >= 0,
        minimum.1 >= 0,
        fits_i32(centered(work, outer.0 as int, outer.1 as int).0),
        fits_i32(centered(work, outer.0 as int, outer.1 as int).1),
        fits_i32(centered(work, outer.0 as int, outer.1 as int).0 + outer.0),
        fits_i32(centered(work, outer.0 as int, outer.1 as int).1 + outer.1),
    ensures
        ({
            let (x, y) = centered(work, outer.0 as int, outer.1 as int);
            r == (match fitted(
                sized(x, y, outer.0 as int, outer.1 as int),
                work,
                minimum,
            ) {
                Some(rect) => Ok(rect),
                None => Err(Unavailable),
            })
        }),
{
    let center = work_center(work);
    let x: i32 = (center.x as i64 - outer.0 as i64 / 2) as i32;
    let y: i32 = (center.y as i64 - outer.1 as i64 / 2) as i32;
    fit_within(rect_at(x, y, outer.0, outer.1), work, minimum)
}

/// Which of the two controls at the status place shows a message.
#[derive(Debug, Clone, Copy, PartialEq, Eq, Structural)]
pub enum StatusView {
    /// A quiet label, out of the tab sequence.
    Hint,
    /// A field that scrolls and that the keyboard reaches.
    Details,
}

/// A message with more lines than the place can show at once goes to the details.
pub fn status_view(lines: isize, height: i32, line_height: i32) -> (r: StatusView)
    requires
        height >= 0,
    ensures
        r == (if lines > greater(quotient(height as int, greater(line_height as int, 1)), 1) {
            StatusView::Details
        } else {
            StatusView::Hint
        }),
{
    let line_height: i32 = max_i32(line_height, 1);
    let visible_lines: i32 = max_i32(height / line_height, 1);
    if lines > visible_lines as isize {
        StatusView::Details
    } else {
        StatusView::Hint
    }
}

/// Height of a line of small text: as measured, else a usual one.
pub fn font_line_height(measured: Option<i32>, dpi: u32) -> (r: i32)
    ensures
        r == greater(
            match measured {
                Some(height) => height as int,
                None => dip(16, dpi) as int,
            },
            1,
        ),
{
    match measured {
        Some(height) => max_i32(height, 1),
        None => max_i32(dip(16, dpi), 1),
    }
}

/// The controls of the shortcut stand on the first card, those of copying on the
/// second and those of the appearance on the third; the title, the language and the
/// tips stand on none.
pub proof fn settings_controls_stand_on_their_cards(width: int, index: int)
    requires
        260 <= width <= i32::MAX,
        0 <= index < content_controls(width).len(),
    ensures
        ({
            let (id, rect) = content_controls(width)[index];
            let cards = content_panels(width);
            let shortcut = id == HOTKEY_LABEL || id == CTRL || id == ALT || id == SHIFT || id
                == KEY_LABEL || id == KEY || id == HINT;
            let copying = id == COPY_HEADING || id == FORMAT_LABEL || id == FORMAT || id
                == QUICK_PICK || id == AUTO_COPY;
            let free = id == TITLE || id == SUBTITLE || id == LANGUAGE_LABEL || id == LANGUAGE
                || id == USAGE_HEADING || id == USAGE_HINT;
            &&& rect.inside(cards[0]) <==> shortcut
            &&& rect.inside(cards[1]) <==> copying
            &&& rect.inside(cards[2]) <==> !shortcut && !copying && !free
            &&& free ==> rect.bottom <= cards[0].top || rect.top >= cards[2].bottom
        }),
{
}

/// Wide content keeps its arrangement and only moves to the middle: the room beside it
/// is the same at both sides, up to one.
pub proof fn wide_settings_move_to_the_middle(width: int, index: int)
    requires
        480 <= width <= i32::MAX,
        0 <= index < 28,
    ensures
        ({
            let (id, rect) = content_controls(width)[index];
            let (same, at) = content_controls(480)[index];
            let shift = rect.left - at.left;
            &&& id == same
            &&& rect.right - at.right == shift
            &&& rect.top == at.top && rect.bottom == at.bottom
            &&& 0 <= (width - 480 - shift) - shift <= 1
        }),
        ({
            let (moved, cards) = (content_panels(width), content_panels(480));
            forall|i: int|
                0 <= i < 3 ==> (#[trigger] moved[i]).left - cards[i].left == centering(width)
                    && moved[i].right - cards[i].right == centering(width) && moved[i].top
                    == cards[i].top && moved[i].bottom == cards[i].bottom
        }),
{
}

/// The place of a control in content of some width.
pub open spec fn place_of(width: int, id: usize) -> Rect {
    let i = choose|i: int| 0 <= i < 28 && (#[trigger] content_controls(width)[i]).0 == id;
    content_controls(width)[i].1
}

proof fn lemma_place(width: int, index: int)
    requires
        260 <= width <= i32::MAX,
        0 <= index < 28,
    ensures
        place_of(width, content_controls(width)[index].0) == content_controls(width)[index].1,
{
    let id = content_controls(width)[index].0;
    let i = choose|i: int| 0 <= i < 28 && (#[trigger] content_controls(width)[i]).0 == id;
    assert(0 <= i < 28 && content_controls(width)[i].0 == id);
    assert(i == index);
}

/// Whether a label stands with its control: beside it where there are two columns,
/// and above it where there is one.
pub open spec fn labels(width: int, label: usize, control: usize) -> bool {
    let (one, two) = (place_of(width, label), place_of(width, control));
    if width >= 460 {
        one.right <= two.left && one.top < two.bottom && two.top < one.bottom
    } else {
        one.bottom <= two.top && one.left == two.left
    }
}

/// The language, the key, the notation and both sliders stand with their labels, and
/// the values of the sliders beside or above them.
pub proof fn settings_labels_stand_with_their_controls(width: int)
    requires
        260 <= width <= i32::MAX,
    ensures
        labels(width, LANGUAGE_LABEL, LANGUAGE),
        labels(width, KEY_LABEL, KEY),
        labels(width, FORMAT_LABEL, FORMAT),
        labels(width, BORDER_LABEL, BORDER_WIDTH),
        labels(width, TRANSPARENCY_LABEL, BACKGROUND_TRANSPARENCY),
        place_of(width, BORDER_VALUE).top == place_of(width, BORDER_LABEL).top,
        place_of(width, TRANSPARENCY_VALUE).top == place_of(width, TRANSPARENCY_LABEL).top,
        place_of(width, BORDER_LABEL).right <= place_of(width, BORDER_VALUE).left,
        place_of(width, TRANSPARENCY_LABEL).right <= place_of(width, TRANSPARENCY_VALUE).left,
        place_of(width, CTRL).top == place_of(width, ALT).top,
        place_of(width, CTRL).right <= place_of(width, ALT).left,
        place_of(width, QUICK_PICK).bottom <= place_of(width, AUTO_COPY).top,
        place_of(width, APPEARANCE_PREVIEW).bottom - place_of(width, APPEARANCE_PREVIEW).top == 72,
        width >= 460 ==> place_of(width, APPEARANCE_PREVIEW).right - place_of(
            width,
            APPEARANCE_PREVIEW,
        ).left == 396,
{
    if width >= 460 {
        lemma_place(width, 1);
        lemma_place(width, 2);
        lemma_place(width, 5);
        lemma_place(width, 6);
        lemma_place(width, 8);
        lemma_place(width, 9);
        lemma_place(width, 12);
        lemma_place(width, 13);
        lemma_place(width, 14);
        lemma_place(width, 15);
        lemma_place(width, 17);
        lemma_place(width, 18);
        lemma_place(width, 19);
        lemma_place(width, 20);
        lemma_place(width, 21);
        lemma_place(width, 22);
        lemma_place(width, 24);
    } else {
        lemma_place(width, 2);
        lemma_place(width, 3);
        lemma_place(width, 5);
        lemma_place(width, 6);
        lemma_place(width, 8);
        lemma_place(width, 9);
        lemma_place(width, 12);
        lemma_place(width, 13);
        lemma_place(width, 14);
        lemma_place(width, 15);
        lemma_place(width, 17);
        lemma_place(width, 18);
        lemma_place(width, 19);
        lemma_place(width, 20);
        lemma_place(width, 21);
        lemma_place(width, 22);
        lemma_place(width, 24);
    }
}

/// Both buttons are equally large and stand in one row: Apply at the right margin,
/// Close a gap left of it. The status begins at the left margin and ends a gap before
/// Close, or fills the width above them in a narrow window.
pub proof fn settings_actions_have_their_places(client: SettingsClient)
    requires
        client.wf(),
        client.usable(),
        client.dpi >= 96,
        client.width >= dip(280, client.dpi),
    ensures
        ({
            let (close, apply, status) = (
                client.button(client.close_x()),
                client.button(client.apply_x()),
                client.status(),
            );
            let d = client.dpi as int;
            let margin = client.width - apply.x - apply.width;
            let gap = apply.x - close.x - close.width;
            &&& -48 <= 16 * d - 96 * margin < 48
            &&& -48 <= 12 * d - 96 * gap < 48
            &&& -48 <= 92 * d - 96 * apply.width < 48 && close.width == apply.width
            &&& -48 <= 36 * d - 96 * apply.height < 48 && close.height == apply.height
            &&& close.y == apply.y
            &&& -48 <= 8 * d - 96 * (status.y - client.viewport_height()) < 48
            &&& -48 <= 40 * d - 96 * status.height < 48
            &&& status.x == margin
            &&& !client.narrow() ==> status.y == close.y && close.x - status.x - status.width == gap
            &&& client.narrow() ==> status.width == client.width - 2 * margin && -48 <= 44 * d - 96
                * (close.y - status.y) < 48
        }),
{
    lemma_settings_dips(client.dpi);
    lemma_settings_sums(client.dpi as int);
    let d = client.dpi as int;
    lengths_scale_to_the_nearest_pixel(16, d);
    lengths_scale_to_the_nearest_pixel(12, d);
    lengths_scale_to_the_nearest_pixel(92, d);
    lengths_scale_to_the_nearest_pixel(36, d);
    lengths_scale_to_the_nearest_pixel(40, d);
    lengths_scale_to_the_nearest_pixel(44, d);
    lengths_scale_to_the_nearest_pixel(8, d);
}

/// The width of the window in device-independent pixels is the nearest one. The
/// content is that wide, unless it is too high for the viewport: then twenty less, for
/// the scroll bar. The viewport is what the part below leaves: 64 where the window is
/// wide and 100 where it is narrow.
pub proof fn scroll_bars_take_their_room(client: SettingsClient)
    requires
        client.wf(),
        client.dpi >= 96,
    ensures
        ({
            let d = client.dpi as int;
            let full = client.full_width();
            &&& -d <= 2 * (client.width * 96 - full * d) <= d
            &&& client.scrolls() <==> dip(content_extent(full) as i32, client.dpi)
                > client.viewport_height()
            &&& client.scrolls() ==> client.content_width() + 20 == full
            &&& !client.scrolls() ==> client.content_width() == full && client.content_height()
                <= client.viewport_height()
            &&& 96 * client.width < 480 * d - 48 ==> -48 <= 100 * d - 96 * (client.height
                - client.viewport_height()) < 48
            &&& 96 * client.width >= 480 * d + 48 ==> -48 <= 64 * d - 96 * (client.height
                - client.viewport_height()) < 48
        }),
{
    lemma_settings_dips(client.dpi);
    let d = client.dpi as int;
    lengths_scale_to_the_nearest_pixel(480, d);
    lengths_scale_to_the_nearest_pixel(100, d);
    lengths_scale_to_the_nearest_pixel(64, d);
    let scaled = client.width * 96 + d / 2;
    let full = client.full_width();
    assert(full * d <= scaled < full * d + d) by (nonlinear_arith)
        requires
            full == scaled / d,
            d > 0,
            scaled >= 0,
    ;
}

/// Scrolling moves every control and every card up by the same offset, and nothing
/// else of them changes. The offset is held to the content: one in its range stays, any
/// other goes to the nearer end.
pub proof fn scrolling_moves_the_settings_up(
    client: SettingsClient,
    control: (usize, Rect),
    card: Rect,
    offset: int,
    other: int,
)
    requires
        client.wf(),
        client.dpi >= 96,
        0 <= control.1.left <= 2000,
        0 <= control.1.top <= 2000,
        0 <= card.top <= 2000,
        0 <= card.bottom <= 2000,
    ensures
        ({
            let (one, two) = (
                client.scrolled(control, offset).1,
                client.scrolled(control, other).1,
            );
            let held = client.held_offset(offset);
            let limit = scroll_limit(client.viewport_height(), client.content_height());
            let painted = scrolled_card(card, held, client.dpi);
            let unmoved = scrolled_card(card, 0, client.dpi);
            &&& client.scrolled(control, offset).0 == control.0
            &&& one.y + held == two.y + client.held_offset(other)
            &&& one.x == two.x && one.width == two.width && one.height == two.height
            &&& 0 <= offset <= limit ==> held == offset
            &&& offset < 0 ==> held == 0
            &&& offset > limit ==> held == limit
            &&& -48 <= control.1.top * client.dpi - 96 * (one.y + held) < 48
            &&& -48 <= control.1.left * client.dpi - 96 * one.x < 48
            &&& painted.top + held == unmoved.top && painted.bottom + held == unmoved.bottom
            &&& painted.left == unmoved.left && painted.right == unmoved.right
            &&& -48 <= card.top * client.dpi - 96 * unmoved.top < 48
            &&& -48 <= card.bottom * client.dpi - 96 * unmoved.bottom < 48
        }),
{
    lemma_settings_dips(client.dpi);
    lemma_dip(control.1.top, client.dpi);
    lemma_dip(control.1.left, client.dpi);
    lemma_dip(card.top, client.dpi);
    lemma_dip(card.bottom, client.dpi);
    let d = client.dpi as int;
    lengths_scale_to_the_nearest_pixel(control.1.top as int, d);
    lengths_scale_to_the_nearest_pixel(control.1.left as int, d);
    lengths_scale_to_the_nearest_pixel(card.top as int, d);
    lengths_scale_to_the_nearest_pixel(card.bottom as int, d);
    let extent = content_extent(client.content_width());
    assert(0 <= extent <= 2000);
    lemma_dip(extent as i32, client.dpi);
}

/// Selectors are placed with room for their opened list, all other controls with their
/// own height, and every control with its own width.
pub proof fn selectors_have_room_for_their_lists(
    client: SettingsClient,
    control: (usize, Rect),
    offset: int,
)
    requires
        client.wf(),
        client.dpi >= 96,
        0 <= control.1.right - control.1.left <= 2000,
        0 <= control.1.bottom - control.1.top <= 2000,
    ensures
        ({
            let (id, place) = client.scrolled(control, offset);
            let d = client.dpi as int;
            &&& id == LANGUAGE || id == FORMAT ==> -48 <= 160 * d - 96 * place.height < 48
            &&& id != LANGUAGE && id != FORMAT ==> -48 <= (control.1.bottom - control.1.top) * d - 96
                * place.height < 48
            &&& -48 <= (control.1.right - control.1.left) * d - 96 * place.width < 48
        }),
{
    let d = client.dpi as int;
    let (wide, high) = (control.1.right - control.1.left, control.1.bottom - control.1.top);
    lemma_dip(160, client.dpi);
    lemma_dip(wide as i32, client.dpi);
    lemma_dip(high as i32, client.dpi);
    lengths_scale_to_the_nearest_pixel(160, d);
    lengths_scale_to_the_nearest_pixel(wide, d);
    lengths_scale_to_the_nearest_pixel(high, d);
}

/// A new window has the same room at both sides, and above and below, up to rounding.
pub proof fn new_windows_stand_in_the_middle(work: Rect, width: int, height: int)
    requires
        0 <= width,
        0 <= height,
    ensures
        ({
            let (x, y) = centered(work, width, height);
            &&& -1 <= (x - work.left) - (work.right - (x + width)) <= 2
            &&& -1 <= (y - work.top) - (work.bottom - (y + height)) <= 2
        }),
{
}

/// A new window asks for a client area 500 wide and exactly as high as the wide content
/// of 686 and the part of 64 below it, each to the nearest pixel.
pub proof fn new_settings_windows_have_their_size(dpi: u32)
    requires
        96 <= dpi <= 9600,
    ensures
        ({
            let (width, height) = preferred_extent(dpi);
            &&& -48 <= 500 * dpi - 96 * width < 48
            &&& -96 <= 750 * dpi - 96 * height < 96
            &&& content_extent(500) == 686
            &&& height == dip(686, dpi) + dip(64, dpi)
            &&& -48 <= 280 * dpi - 96 * dip(MINIMUM_WIDTH, dpi) < 48
            &&& -48 <= 180 * dpi - 96 * dip(MINIMUM_HEIGHT, dpi) < 48
        }),
{
    let d = dpi as int;
    lengths_scale_to_the_nearest_pixel(500, d);
    lengths_scale_to_the_nearest_pixel(686, d);
    lengths_scale_to_the_nearest_pixel(64, d);
    lengths_scale_to_the_nearest_pixel(280, d);
    lengths_scale_to_the_nearest_pixel(180, d);
    lemma_dip(500, dpi);
    lemma_dip(686, dpi);
    lemma_dip(64, dpi);
    lemma_dip(280, dpi);
    lemma_dip(180, dpi);
}

/// A plan puts the controls where the content of its width has them, in their order,
/// and Close, Apply and the status where the client area has them: Close left of Apply.
pub proof fn settings_plans_place_everything(
    plan: SettingsPlan,
    client: SettingsClient,
    offset: int,
    index: int,
)
    requires
        client.wf(),
        client.usable(),
        client.dpi >= 96,
        client.width >= dip(280, client.dpi),
        plan.for_client(client, offset),
        0 <= index < content_controls(client.content_width()).len(),
    ensures
        plan.controls@.len() == content_controls(client.content_width()).len(),
        plan.controls@[index].0 == content_controls(client.content_width())[index].0,
        plan.controls@[index] == client.scrolled(
            content_controls(client.content_width())[index],
            offset,
        ),
        plan.close.x + plan.close.width <= plan.apply.x,
        plan.apply.x + plan.apply.width <= client.width,
        plan.status == client.status(),
        plan.viewport_height + client.footer() == client.height,
        plan.content_height == client.content_height(),
        plan.content_width_dip == client.content_width(),
        plan.offset == client.held_offset(offset),
        -48 <= 24 * client.dpi - 96 * plan.choice_height < 48,
{
    settings_actions_stay_complete(client);
    lengths_scale_to_the_nearest_pixel(24, client.dpi as int);
}

/// The content ends below its lowest control, the tips: by sixteen where they are one
/// column and by six where they are two.
pub proof fn settings_end_below_the_tips(width: int, index: int)
    requires
        260 <= width <= i32::MAX,
        0 <= index < content_controls(width).len(),
    ensures
        width < 460 ==> content_extent(width) == content_controls(width)[27].1.bottom + 16,
        width >= 460 ==> content_extent(width) == content_controls(width)[27].1.bottom + 6,
        content_controls(width)[27].0 == USAGE_HINT,
        content_controls(width)[index].1.bottom <= content_controls(width)[27].1.bottom,
{
}

} // verus!
