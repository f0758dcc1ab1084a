//! Shared, lightweight styling for native result and settings controls.
use crate::arith::fits_i32;
use crate::color::{color_ref_of_hex, rgb};
use crate::drawing::{
    dip, lengths_scale_to_the_nearest_pixel, scale_rect, scaled, FontRequest,
};
use crate::geometry::Rect;
use crate::i18n::{tr, translation, Language};
use crate::text::{utf16, wide};
use vstd::prelude::*;

verus! {

/// The fixed colours of the windows.
#[derive(Debug, Clone, Copy, PartialEq, Eq, Structural)]
pub enum Shade {
    Canvas,
    Panel,
    Border,
    Ink,
    Muted,
    Accent,
}

impl Shade {
    /// The colour as it is usually written.
    pub open spec fn hex(self) -> int {
        match self {
            Shade::Canvas => 0xf5f7fa,
            Shade::Panel => 0xffffff,
            Shade::Border => 0xe2e8f0,
            Shade::Ink => 0x172033,
            Shade::Muted => 0x64748b,
            Shade::Accent => 0x2563eb,
        }
    }

    /// The native colour value.
    pub fn color(&self) -> (r: u32)
        ensures
            r == color_ref_of_hex(self.hex()),
    {
        match self {
            Shade::Canvas => rgb(0xf5f7fa),
            Shade::Panel => rgb(0xffffff),
            Shade::Border => rgb(0xe2e8f0),
            Shade::Ink => rgb(0x172033),
            Shade::Muted => rgb(0x64748b),
            Shade::Accent => rgb(0x2563eb),
        }
    }
}

/// The tone of a text.
#[derive(Debug, Clone, Copy, PartialEq, Eq, Structural)]
pub enum Tone {
    Text,
    Muted,
    Accent,
    Success,
    Error,
}

impl Tone {
    pub open spec fn hex(self) -> int {
        match self {
            Tone::Text => Shade::Ink.hex(),
            Tone::Muted => Shade::Muted.hex(),
            Tone::Accent => Shade::Accent.hex(),
            Tone::Success => 0x16815d,
            Tone::Error => 0xc2413b,
        }
    }

    /// The native colour value.
    pub fn color(&self) -> (r: u32)
        ensures
            r == color_ref_of_hex(self.hex()),
    {
        match self {
            Tone::Text => Shade::Ink.color(),
            Tone::Muted => Shade::Muted.color(),
            Tone::Accent => Shade::Accent.color(),
            Tone::Success => rgb(0x16815d),
            Tone::Error => rgb(0xc2413b),
        }
    }
}

/// The colours of a control's text and of what lies behind it.
#[derive(Debug, Clone, Copy, PartialEq, Eq, Structural)]
pub struct ControlColors {
    pub text: u32,
    pub background: u32,
    /// Whether the white panel brush, and not the canvas one, fills the control.
    pub panel: bool,
}

/// The colours of a control on a panel or on the canvas.
pub fn control_color(panel: bool, tone: Tone) -> (r: ControlColors)
    ensures
        r.text == color_ref_of_hex(tone.hex()),
        r.background == color_ref_of_hex(
            (if panel {
                Shade::Panel
            } else {
                Shade::Canvas
            }).hex(),
        ),
        r.panel == panel,
{
    ControlColors {
        text: tone.color(),
        background: if panel {
            Shade::Panel.color()
        } else {
            Shade::Canvas.color()
        },
        panel,
    }
}

/// The face of a control font.
pub open spec fn control_face(mono: bool, language: Language) -> Seq<char> {
    if mono {
        "Consolas"@
    } else {
        translation(language, "Microsoft YaHei UI", "Segoe UI")@
    }
}

/// The font of a control.
pub fn control_font(size_dip: i32, dpi: u32, weight: i32, mono: bool, language: Language) -> (r:
    FontRequest)
    requires
        dip(size_dip, dpi) > i32::MIN,
    ensures
        r.height == -dip(size_dip, dpi),
        r.weight == weight,
        r.face@ == control_face(mono, language),
{
    FontRequest {
        height: -dip(size_dip, dpi),
        weight,
        face: if mono {
            "Consolas"
        } else {
            tr(language, "Microsoft YaHei UI", "Segoe UI")
        },
    }
}

/// A DPI to draw with: never less than the standard one.
pub open spec fn drawing_dpi(dpi: u32) -> u32 {
    if dpi < 96 {
        96
    } else {
        dpi
    }
}

pub fn at_least_96(dpi: u32) -> (r: u32)
    ensures
        r == drawing_dpi(dpi),
{
    if dpi < 96 {
        96
    } else {
        dpi
    }
}

/// The rounded cards of a window, in physical pixels.
pub fn scaled_panels(panels: &[Rect], dpi: u32) -> (r: Vec<Rect>)
    ensures
        r@ == panels@.map_values(|panel: Rect| scaled(panel, drawing_dpi(dpi))),
{
    let dpi: u32 = at_least_96(dpi);
    let mut rects: Vec<Rect> = Vec::new();
    let mut i: usize = 0;
    while i < panels.len()
        invariant
            i <= panels.len(),
            rects@.len() == i,
            forall|k: int| 0 <= k < i ==> rects@[k] == scaled(panels@[k], dpi),
        decreases panels.len() - i,
    {
        rects.push(scale_rect(panels[i], dpi));
        i = i + 1;
    }
    assert(rects@ =~= panels@.map_values(|panel: Rect| scaled(panel, dpi)));
    rects
}

/// The state of a push button, as a drawing notification reports it.
#[derive(Debug, Clone, Copy, PartialEq, Eq, Structural)]
pub struct ButtonState {
    pub disabled: bool,
    pub pressed: bool,
    pub hot: bool,
    pub focused: bool,
    pub keyboard_cues: bool,
}

/// One bit of a native flag word.
pub open spec fn flag(word: u32, value: int) -> bool {
    word as int / value % 2 == 1
}

/// Reads the item-state flags of a drawing notification. A button is disabled
/// where the notification or the window itself says so.
pub fn button_state(item_state: u32, window_enabled: bool) -> (r: ButtonState)
    ensures
        r.disabled == (flag(item_state, 0x2) || flag(item_state, 0x4) || !window_enabled),
        r.pressed == flag(item_state, 0x1),
        r.hot == flag(item_state, 0x40),
        r.focused == flag(item_state, 0x10),
        r.keyboard_cues == flag(item_state, 0x200),
{
    let s: u32 = item_state;
    assert((s & 0x6 != 0) == (s / 0x2 % 2 == 1 || s / 0x4 % 2 == 1)) by (bit_vector);
    assert((s & 0x1 != 0) == (s / 0x1 % 2 == 1)) by (bit_vector);
    assert((s & 0x40 != 0) == (s / 0x40 % 2 == 1)) by (bit_vector);
    assert((s & 0x10 != 0) == (s / 0x10 % 2 == 1)) by (bit_vector);
    assert((s & 0x200 != 0) == (s / 0x200 % 2 == 1)) by (bit_vector);
    ButtonState {
        disabled: s & 0x6 != 0 || !window_enabled,
        pressed: s & 0x1 != 0,
        hot: s & 0x40 != 0,
        focused: s & 0x10 != 0,
        keyboard_cues: s & 0x200 != 0,
    }
}

/// The colours of a push button, as they are usually written.
#[derive(Debug, Clone, Copy, PartialEq, Eq, Structural)]
pub struct ButtonHex {
    pub background: u32,
    pub fill: u32,
    pub border: u32,
    pub text: u32,
}

/// Whether a control is the copy button of a result row.
pub open spec fn row_button(id: usize) -> bool {
    100 <= id < 104
}

/// One of three colours, by how the button is touched.
pub open spec fn by_touch(state: ButtonState, pressed: u32, hot: u32, idle: u32) -> u32 {
    if state.pressed {
        pressed
    } else if state.hot {
        hot
    } else {
        idle
    }
}

/// The colours of a push button. Minimal buttons are borderless and neutral; the
/// primary one is filled. Row and key-capture buttons sit on white cards, the
/// others on the canvas.
pub open spec fn button_hex(state: ButtonState, id: usize, primary: bool, minimal: bool) -> ButtonHex {
    let background = if minimal || 100 <= id <= 104 {
        0xffffffu32
    } else {
        0xf5f7fau32
    };
    let (fill, border, text) = if state.disabled {
        (0xe9edf3u32, 0xe2e8f0u32, 0x94a3b8u32)
    } else if minimal && primary {
        let fill = by_touch(state, 0x0b101a, 0x334155, 0x172033);
        (fill, fill, 0xffffffu32)
    } else if minimal {
        let fill = by_touch(state, 0xe9edf2, 0xf4f6f8, 0xffffff);
        (
            fill,
            fill,
            if row_button(id) && !state.hot {
                0x64748bu32
            } else {
                0x172033u32
            },
        )
    } else if primary {
        let fill = by_touch(state, 0x1e40af, 0x1d4ed8, 0x2563eb);
        (fill, fill, 0xffffffu32)
    } else {
        (
            by_touch(state, 0xe2e8f0, 0xeff6ff, 0xffffff),
            if state.hot {
                0x93b4f3u32
            } else {
                0xd6dee9u32
            },
            0x172033u32,
        )
    };
    ButtonHex { background, fill, border, text }
}

fn touch_color(state: ButtonState, pressed: u32, hot: u32, idle: u32) -> (r: u32)
    ensures
        r == by_touch(state, pressed, hot, idle),
{
    if state.pressed {
        pressed
    } else if state.hot {
        hot
    } else {
        idle
    }
}

fn button_colors(state: ButtonState, id: usize, primary: bool, minimal: bool) -> (r: ButtonHex)
    ensures
        r == button_hex(state, id, primary, minimal),
{
    let row = id >= 100 && id < 104;
    let background: u32 = if minimal || (id >= 100 && id <= 104) {
        0xffffff
    } else {
        0xf5f7fa
    };
    let (fill, border, text): (u32, u32, u32) = if state.disabled {
        (0xe9edf3, 0xe2e8f0, 0x94a3b8)
    } else if minimal {
        if primary {
            let fill: u32 = touch_color(state, 0x0b101a, 0x334155, 0x172033);
            (fill, fill, 0xffffff)
        } else {
            let fill: u32 = touch_color(state, 0xe9edf2, 0xf4f6f8, 0xffffff);
            (
                fill,
                fill,
                if row && !state.hot {
                    0x64748b
                } else {
                    0x172033
                },
            )
        }
    } else if primary {
        let fill: u32 = touch_color(state, 0x1e40af, 0x1d4ed8, 0x2563eb);
        (fill, fill, 0xffffff)
    } else {
        (
            touch_color(state, 0xe2e8f0, 0xeff6ff, 0xffffff),
            if state.hot {
                0x93b4f3
            } else {
                0xd6dee9
            },
            0x172033,
        )
    };
    ButtonHex { background, fill, border, text }
}

/// The text shown on a button. A copied format is announced without naming it
/// again, and a row button shows only the word for copying: the full native name
/// stays there for screen readers.
pub open spec fn visible_label(
    text: Seq<u16>,
    id: usize,
    primary: bool,
    minimal: bool,
    language: Language,
) -> Seq<u16> {
    let copied = utf16(translation(language, "已复制", "Copied")@);
    if minimal && (primary || row_button(id)) && copied.is_prefix_of(text) {
        copied
    } else if row_button(id) {
        utf16(translation(language, "复制", "Copy")@)
    } else {
        text
    }
}

fn starts_with(text: &[u16], prefix: &Vec<u16>) -> (r: bool)
    ensures
        r == prefix@.is_prefix_of(text@),
{
    if text.len() < prefix.len() {
        return false;
    }
    let mut i: usize = 0;
    while i < prefix.len()
        invariant
            i <= prefix.len() <= text.len(),
            forall|k: int| 0 <= k < i ==> prefix@[k] == text@[k],
        decreases prefix.len() - i,
    {
        if text[i] != prefix[i] {
            assert(prefix@[i as int] != text@.subrange(0, prefix@.len() as int)[i as int]);
            return false;
        }
        i = i + 1;
    }
    assert(prefix@ =~= text@.subrange(0, prefix@.len() as int));
    true
}

fn copy_units(text: &[u16]) -> (r: Vec<u16>)
    ensures
        r@ == text@,
{
    let mut units: Vec<u16> = Vec::new();
    let mut i: usize = 0;
    while i < text.len()
        invariant
            i <= text.len(),
            units@ == text@.take(i as int),
        decreases text.len() - i,
    {
        units.push(text[i]);
        assert(units@ =~= text@.take(i + 1));
        i = i + 1;
    }
    assert(text@.take(text@.len() as int) =~= text@);
    units
}

fn button_label(text: &[u16], id: usize, primary: bool, minimal: bool, language: Language) -> (r:
    Vec<u16>)
    ensures
        r@ == visible_label(text@, id, primary, minimal, language),
{
    let row = id >= 100 && id < 104;
    let copied = wide(tr(language, "已复制", "Copied"));
    if minimal && (primary || row) && starts_with(text, &copied) {
        copied
    } else if row {
        wide(tr(language, "复制", "Copy"))
    } else {
        copy_units(text)
    }
}

/// The ring around a focused button.
#[derive(Debug, Clone, Copy, PartialEq, Eq, Structural)]
pub struct FocusRing {
    pub rect: Rect,
    pub color: u32,
    pub corner: i32,
}

/// Everything needed to draw a push button.
#[derive(Debug)]
pub struct ButtonPlan {
    pub background: u32,
    pub fill: u32,
    pub border: u32,
    pub text: u32,
    pub corner: i32,
    pub label: Vec<u16>,
    /// Whether the underlined access key is left out.
    pub hide_prefix: bool,
    pub focus: Option<FocusRing>,
}

/// The ring of a focused button that can be used: inside the button, in the
/// colour that contrasts with it.
pub open spec fn focus_ring(rect: Rect, state: ButtonState, primary: bool, dpi: u32) -> Option<FocusRing> {
    if state.focused && !state.disabled {
        Some(
            FocusRing {
                rect: Rect {
                    left: (rect.left + dip(4, dpi)) as i32,
                    top: (rect.top + dip(4, dpi)) as i32,
                    right: (rect.right - dip(4, dpi)) as i32,
                    bottom: (rect.bottom - dip(4, dpi)) as i32,
                },
                color: color_ref_of_hex(
                    (if primary {
                        Shade::Panel
                    } else {
                        Shade::Accent
                    }).hex(),
                ) as u32,
                corner: dip(6, dpi),
            },
        )
    } else {
        None
    }
}

/// The drawing stage before a control is painted.
pub const PRE_PAINT: u32 = 1;

/// The answer to a drawing notification that leaves nothing to the system.
pub const SKIP_DEFAULT: isize = 4;

/// Plans the drawing of a push button. Only the stage before its native painting
/// asks for one. `text` is its native name and `dpi` that of its window.
pub fn draw_button(
    stage: u32,
    rect: Rect,
    item_state: u32,
    window_enabled: bool,
    id: usize,
    primary_id: usize,
    minimal: bool,
    text: &[u16],
    dpi: u32,
    language: Language,
) -> (r: Option<ButtonPlan>)
    requires
        stage == PRE_PAINT && flag(item_state, 0x10) ==> {
            let inset = dip(4, drawing_dpi(dpi));
            fits_i32(rect.left + inset) && fits_i32(rect.top + inset) && fits_i32(
                rect.right - inset,
            ) && fits_i32(rect.bottom - inset)
        },
    ensures
        r is Some <==> stage == PRE_PAINT,
        r matches Some(plan) ==> {
            let state = ButtonState {
                disabled: flag(item_state, 0x2) || flag(item_state, 0x4) || !window_enabled,
                pressed: flag(item_state, 0x1),
                hot: flag(item_state, 0x40),
                focused: flag(item_state, 0x10),
                keyboard_cues: flag(item_state, 0x200),
            };
            let primary = id == primary_id;
            let hex = button_hex(state, id, primary, minimal);
            &&& plan.background == color_ref_of_hex(hex.background as int)
            &&& plan.fill == color_ref_of_hex(hex.fill as int)
            &&& plan.border == color_ref_of_hex(hex.border as int)
            &&& plan.text == color_ref_of_hex(hex.text as int)
            &&& plan.corner == dip(10, drawing_dpi(dpi))
            &&& plan.label@ == visible_label(text@, id, primary, minimal, language)
            &&& plan.hide_prefix == !state.keyboard_cues
            &&& plan.focus == focus_ring(rect, state, primary, drawing_dpi(dpi))
        },
{
    if stage != PRE_PAINT {
        return None;
    }
    let dpi: u32 = at_least_96(dpi);
    let state = button_state(item_state, window_enabled);
    let primary = id == primary_id;
    let hex = button_colors(state, id, primary, minimal);
    let focus = if state.focused && !state.disabled {
        let inset: i32 = dip(4, dpi);
        Some(
            FocusRing {
                rect: Rect {
                    left: rect.left + inset,
                    top: rect.top + inset,
                    right: rect.right - inset,
                    bottom: rect.bottom - inset,
                },
                color: if primary {
                    Shade::Panel.color()
                } else {
                    Shade::Accent.color()
                },
                corner: dip(6, dpi),
            },
        )
    } else {
        None
    };
    Some(
        ButtonPlan {
            background: rgb(hex.background),
            fill: rgb(hex.fill),
            border: rgb(hex.border),
            text: rgb(hex.text),
            corner: dip(10, dpi),
            label: button_label(text, id, primary, minimal, language),
            hide_prefix: !state.keyboard_cues,
            focus,
        },
    )
}

/// A disabled button looks the same however it is touched, and never shows focus.
pub proof fn disabled_buttons_do_not_react(
    a: ButtonState,
    b: ButtonState,
    id: usize,
    primary: bool,
    minimal: bool,
    rect: Rect,
    dpi: u32,
)
    requires
        a.disabled,
        b.disabled,
    ensures
        button_hex(a, id, primary, minimal) == button_hex(b, id, primary, minimal),
        focus_ring(rect, a, primary, dpi) is None,
{
}

/// What a window remembers of the resources that it lends out.
#[derive(Debug, Clone, Copy, PartialEq, Eq, Structural)]
pub struct Theme {
    /// The DPI that the window's icons are made for.
    pub icon_dpi: Option<u32>,
    /// A device context of a control could not be restored and may still hold a
    /// font.
    pub font_restore_failed: bool,
}

impl Theme {
    pub fn new() -> (r: Theme)
        ensures
            r == (Theme { icon_dpi: None, font_restore_failed: false }),
    {
        Theme { icon_dpi: None, font_restore_failed: false }
    }

    /// Whether no font may be released any more.
    pub fn fonts_must_be_retained(&self) -> (r: bool)
        ensures
            r == self.font_restore_failed,
    {
        self.font_restore_failed
    }

    /// The state after a control was drawn.
    pub open spec fn drawn(self, restored: bool) -> Theme {
        Theme { font_restore_failed: self.font_restore_failed || !restored, ..self }
    }

    /// A control was drawn, and its device context was or was not restored. Gives
    /// the answer to its notification; none leaves the drawing to the system.
    pub fn control_drawn(&mut self, restored: bool) -> (r: Option<isize>)
        ensures
            *final(self) == old(self).drawn(restored),
            r == (if restored {
                Some(SKIP_DEFAULT)
            } else {
                None
            }),
    {
        if restored {
            Some(SKIP_DEFAULT)
        } else {
            self.font_restore_failed = true;
            None
        }
    }

    /// Whether the window's icons have to be made for a DPI.
    pub fn icons_due(&self, dpi: u32) -> (r: bool)
        ensures
            r == (self.icon_dpi != Some(dpi)),
    {
        match self.icon_dpi {
            Some(made_for) => made_for != dpi,
            None => true,
        }
    }

    /// Icons were made and are in use. Missing artwork is no error: the window goes
    /// on with what it has.
    pub fn icons_made(&mut self, dpi: u32)
        ensures
            *final(self) == (Theme { icon_dpi: Some(dpi), ..*old(self) }),
    {
        self.icon_dpi = Some(dpi);
    }
}

/// Once a device context could not be restored, fonts are retained for good.
pub proof fn retention_is_final(theme: Theme, restored: bool)
    requires
        theme.font_restore_failed,
    ensures
        theme.drawn(restored).font_restore_failed,
{
}

/// A DPI below the standard one is drawn at the standard one, and every other at
/// itself.
pub proof fn drawing_never_shrinks(dpi: u32)
    ensures
        drawing_dpi(dpi) >= 96,
        drawing_dpi(dpi) >= dpi,
        drawing_dpi(dpi) == 96 || drawing_dpi(dpi) == dpi,
{
}

/// A button that can be used looks different idle, under the pointer and pressed;
/// being pressed wins. The keyboard focus changes none of its colours, its text never
/// has the colour of its fill, and it never looks disabled.
pub proof fn buttons_answer_to_touch(
    state: ButtonState,
    other: ButtonState,
    id: usize,
    primary: bool,
    minimal: bool,
)
    requires
        !state.disabled,
        other.disabled,
    ensures
        ({
            let idle = ButtonState { pressed: false, hot: false, ..state };
            let hot = ButtonState { pressed: false, hot: true, ..state };
            let pressed = ButtonState { pressed: true, ..state };
            let both = ButtonState { pressed: true, hot: true, ..state };
            let plain = ButtonState { focused: false, keyboard_cues: false, ..state };
            let look = button_hex(state, id, primary, minimal);
            let (a, b, c) = (
                button_hex(idle, id, primary, minimal).fill,
                button_hex(hot, id, primary, minimal).fill,
                button_hex(pressed, id, primary, minimal).fill,
            );
            &&& a != b && b != c && a != c
            &&& button_hex(both, id, primary, minimal).fill == c
            &&& button_hex(plain, id, primary, minimal) == look
            &&& look.text != look.fill
            &&& look.fill != button_hex(other, id, primary, minimal).fill
            &&& look.text != button_hex(other, id, primary, minimal).text
        }),
{
}

/// Minimal buttons and the primary one have no border of their own. Buttons on white
/// cards, which are the minimal ones, those of the rows and the key button, have a
/// white background, and all others that of the canvas.
pub proof fn buttons_match_what_they_stand_on(
    state: ButtonState,
    id: usize,
    primary: bool,
    minimal: bool,
)
    ensures
        ({
            let look = button_hex(state, id, primary, minimal);
            &&& !state.disabled && (minimal || primary) ==> look.border == look.fill
            &&& !state.disabled && !minimal && !primary ==> look.border != look.fill
            &&& minimal || 100 <= id <= 104 ==> look.background == Shade::Panel.hex()
            &&& !minimal && !(100 <= id <= 104) ==> look.background == Shade::Canvas.hex()
            &&& !state.disabled && primary ==> look.text == Shade::Panel.hex()
            &&& !state.disabled && !primary ==> look.text == Shade::Ink.hex() || minimal
                && row_button(id) && !state.hot && look.text == Shade::Muted.hex()
            &&& !state.disabled && !minimal && primary && !state.pressed && !state.hot ==> look.fill
                == Shade::Accent.hex()
        }),
{
}

/// A button shows its own name, except that a row button shows the word for copying
/// or for copied, and a copied minimal button only says so. The words are those of
/// the language.
pub proof fn buttons_show_their_name(
    text: Seq<u16>,
    id: usize,
    primary: bool,
    minimal: bool,
    language: Language,
)
    ensures
        ({
            let shown = visible_label(text, id, primary, minimal, language);
            let copied = utf16(translation(language, "已复制", "Copied")@);
            let copy = utf16(translation(language, "复制", "Copy")@);
            let says_copied = text.len() >= copied.len() && text.take(copied.len() as int)
                == copied;
            &&& !row_button(id) && !(minimal && primary) ==> shown == text
            &&& !row_button(id) && !says_copied ==> shown == text
            &&& row_button(id) && !minimal ==> shown == copy
            &&& row_button(id) && !says_copied ==> shown == copy
            &&& minimal && (primary || row_button(id)) && says_copied ==> shown == copied
        }),
{
    let copied = utf16(translation(language, "已复制", "Copied")@);
    if text.len() >= copied.len() {
        assert(text.take(copied.len() as int) =~= text.subrange(0, copied.len() as int));
    }
}

/// The ring of a focused button keeps the same distance from all four sides, four
/// device-independent pixels, and contrasts with what it stands on.
pub proof fn focus_rings_are_inset_evenly(
    rect: Rect,
    state: ButtonState,
    primary: bool,
    dpi: u32,
)
    requires
        96 <= dpi <= 9600,
        -0x1000_0000 <= rect.left <= rect.right <= 0x1000_0000,
        -0x1000_0000 <= rect.top <= rect.bottom <= 0x1000_0000,
    ensures
        focus_ring(rect, state, primary, dpi) is Some <==> state.focused && !state.disabled,
        focus_ring(rect, state, primary, dpi) matches Some(ring) ==> {
            let inset = ring.rect.left - rect.left;
            &&& -48 <= 4 * dpi - 96 * inset < 48
            &&& ring.rect.top - rect.top == inset
            &&& rect.right - ring.rect.right == inset
            &&& rect.bottom - ring.rect.bottom == inset
            &&& -48 <= 6 * dpi - 96 * ring.corner < 48
            &&& ring.color == color_ref_of_hex(
                if primary {
                    Shade::Panel.hex()
                } else {
                    Shade::Accent.hex()
                },
            )
        },
{
    lengths_scale_to_the_nearest_pixel(4, dpi as int);
    lengths_scale_to_the_nearest_pixel(6, dpi as int);
}

/// A flag is one binary digit of its word, whatever stands below and above it.
pub proof fn flags_are_single_digits(word: u32, value: int, digit: int, below: int, above: int)
    requires
        value > 0,
        digit == 0 || digit == 1,
        0 <= below < value,
        0 <= above,
        word as int == below + digit * value + above * (2 * value),
    ensures
        flag(word, value) <==> digit == 1,
{
    let q = digit + 2 * above;
    assert(word as int == q * value + below) by (nonlinear_arith)
        requires
            word as int == below + digit * value + above * (2 * value),
            q == digit + 2 * above,
    ;
    vstd::arithmetic::div_mod::lemma_fundamental_div_mod_converse(
        word as int,
        value,
        q,
        below,
    );
}

/// The copy buttons of the rows are the four numbers from 100 on; the next one, the key
/// button, is none of them.
pub proof fn four_buttons_belong_to_rows(id: usize)
    ensures
        row_button(id) <==> 0 <= id - 100 < 4,
        !row_button(104),
{
}

} // verus!
