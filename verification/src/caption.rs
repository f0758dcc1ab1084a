//! The caption buttons that the result window draws over its colour field.
use crate::arith::{greater, max_i32, quotient};
use crate::color::color_ref;
use crate::drawing::dip;
use crate::geometry::Rect;
use crate::result::{CAPTION_CLOSE, CAPTION_MINIMIZE};
use crate::result_layout::lemma_dip;
use crate::theme::{at_least_96, drawing_dpi, flag, PRE_PAINT, SKIP_DEFAULT};
use vstd::prelude::*;

verus! {

/// One channel of a mixture, rounded down.
pub open spec fn mixed(base: int, ink: int, percent: int) -> int {
    (base * (100 - percent) + ink * percent) / 100
}

/// A colour with some ink mixed into every channel.
pub open spec fn tinted_color(base: u32, ink: u32, percent: int) -> int {
    color_ref(
        mixed(base as int % 0x100, ink as int % 0x100, percent),
        mixed(base as int / 0x100 % 0x100, ink as int / 0x100 % 0x100, percent),
        mixed(base as int / 0x10000 % 0x100, ink as int / 0x10000 % 0x100, percent),
    )
}

fn mix_channel(base: u32, ink: u32, percent: u32) -> (r: u32)
    requires
        base <= 255,
        ink <= 255,
        percent <= 100,
    ensures
        r == mixed(base as int, ink as int, percent as int),
        r <= 255,
{
    proof {
        assert(0 <= base * (100 - percent) <= 255 * (100 - percent) && 0 <= ink * percent <= 255
            * percent) by (nonlinear_arith)
            requires
                0 <= base <= 255,
                0 <= ink <= 255,
                0 <= percent <= 100,
        ;
    }
    (base * (100 - percent) + ink * percent) / 100
}

/// Mixes `percent` of the ink into a native colour.
pub fn caption_tint(base: u32, ink: u32, percent: u32) -> (r: u32)
    requires
        percent <= 100,
    ensures
        r == tinted_color(base, ink, percent as int),
{
    assert(base & 0xff == base % 0x100) by (bit_vector);
    assert(ink & 0xff == ink % 0x100) by (bit_vector);
    assert((base >> 8) & 0xff == base / 0x100 % 0x100) by (bit_vector);
    assert((ink >> 8) & 0xff == ink / 0x100 % 0x100) by (bit_vector);
    assert((base >> 16) & 0xff == base / 0x10000 % 0x100) by (bit_vector);
    assert((ink >> 16) & 0xff == ink / 0x10000 % 0x100) by (bit_vector);
    let r: u32 = mix_channel(base & 0xff, ink & 0xff, percent);
    let g: u32 = mix_channel((base >> 8) & 0xff, (ink >> 8) & 0xff, percent);
    let b: u32 = mix_channel((base >> 16) & 0xff, (ink >> 16) & 0xff, percent);
    assert(r | (g << 8) | (b << 16) == r + g * 0x100 + b * 0x10000) by (bit_vector)
        requires
            r < 0x100,
            g < 0x100,
            b < 0x100,
    ;
    r | (g << 8) | (b << 16)
}

/// A straight stroke of a caption glyph.
#[derive(Debug, Clone, Copy, PartialEq, Eq, Structural)]
pub struct Stroke {
    pub from_x: i32,
    pub from_y: i32,
    pub to_x: i32,
    pub to_y: i32,
}

/// Everything needed to draw a caption button.
#[derive(Debug, Clone, Copy, PartialEq, Eq, Structural)]
pub struct CaptionPlan {
    pub background: u32,
    pub fill: u32,
    pub ink: u32,
    pub pen_width: i32,
    pub corner: i32,
    pub first: Stroke,
    pub second: Option<Stroke>,
    pub focus: Option<Rect>,
    pub focus_corner: i32,
    /// The answer to the notification, once the button is drawn.
    pub answer: isize,
}

/// White, and the reds of a touched close button.
pub const WHITE: u32 = 0x00ff_ffff;

pub const CLOSE_PRESSED: u32 = 0x001f_0fc5;

pub const CLOSE_HOT: u32 = 0x0023_11e8;

/// Fill and ink of a caption button. `ink` contrasts with the background.
pub open spec fn caption_colors(
    close: bool,
    item_state: u32,
    background: u32,
    ink: u32,
) -> (int, int) {
    let pressed = flag(item_state, 0x1);
    let hot = flag(item_state, 0x40);
    if flag(item_state, 0x4) {
        (background as int, tinted_color(background, ink, 40))
    } else if close && (hot || pressed) {
        (
            if pressed {
                CLOSE_PRESSED as int
            } else {
                CLOSE_HOT as int
            },
            WHITE as int,
        )
    } else if pressed || hot {
        (
            tinted_color(
                background,
                ink,
                if pressed {
                    20
                } else {
                    10
                },
            ),
            ink as int,
        )
    } else {
        (background as int, ink as int)
    }
}

/// The strokes of a glyph centred at a point: a dash, or a cross.
pub open spec fn caption_strokes(close: bool, x: int, y: int, radius: int) -> (Stroke, Option<Stroke>) {
    if close {
        (
            Stroke {
                from_x: (x - radius) as i32,
                from_y: (y - radius) as i32,
                to_x: (x + radius + 1) as i32,
                to_y: (y + radius + 1) as i32,
            },
            Some(
                Stroke {
                    from_x: (x + radius) as i32,
                    from_y: (y - radius) as i32,
                    to_x: (x - radius - 1) as i32,
                    to_y: (y + radius + 1) as i32,
                },
            ),
        )
    } else {
        (
            Stroke {
                from_x: (x - radius) as i32,
                from_y: y as i32,
                to_x: (x + radius + 1) as i32,
                to_y: y as i32,
            },
            None,
        )
    }
}

/// Whether a rectangle is small enough to be drawn around.
pub open spec fn drawable_rect(rect: Rect) -> bool {
    &&& -0x1000_0000 <= rect.left <= 0x1000_0000
    &&& -0x1000_0000 <= rect.right <= 0x1000_0000
    &&& -0x1000_0000 <= rect.top <= 0x1000_0000
    &&& -0x1000_0000 <= rect.bottom <= 0x1000_0000
}

/// Whether a notification asks for a caption button to be drawn.
pub open spec fn asks_for_caption(stage: u32, id: usize) -> bool {
    stage == PRE_PAINT && (id == CAPTION_MINIMIZE || id == CAPTION_CLOSE)
}

/// Plans the drawing of a caption button. Only the stage before its native painting
/// asks for one. `ink` is the colour that contrasts with `background`.
pub fn draw_caption_button(
    stage: u32,
    id: usize,
    item_state: u32,
    rect: Rect,
    background: u32,
    ink: u32,
    dpi: u32,
) -> (r: Option<CaptionPlan>)
    requires
        asks_for_caption(stage, id) ==> drawable_rect(rect) && dpi <= 9600,
    ensures
        r is Some <==> asks_for_caption(stage, id),
        r matches Some(plan) ==> {
            let close = id == CAPTION_CLOSE;
            let scale = drawing_dpi(dpi);
            let (fill, line) = caption_colors(close, item_state, background, ink);
            let (first, second) = caption_strokes(
                close,
                quotient(rect.left + rect.right, 2),
                quotient(rect.top + rect.bottom, 2),
                dip(4, scale) as int,
            );
            &&& plan.background == background
            &&& plan.fill == fill
            &&& plan.ink == line
            &&& plan.pen_width == greater(dip(1, scale) as int, 1)
            &&& plan.corner == dip(8, scale)
            &&& plan.first == first
            &&& plan.second == second
            &&& plan.focus == (if flag(item_state, 0x10) && !flag(item_state, 0x4) {
                Some(
                    Rect {
                        left: (rect.left + dip(2, scale)) as i32,
                        top: (rect.top + dip(2, scale)) as i32,
                        right: (rect.right - dip(2, scale)) as i32,
                        bottom: (rect.bottom - dip(2, scale)) as i32,
                    },
                )
            } else {
                None
            })
            &&& plan.focus_corner == dip(6, scale)
            &&& plan.answer == SKIP_DEFAULT
        },
{
    if stage != PRE_PAINT || (id != CAPTION_MINIMIZE && id != CAPTION_CLOSE) {
        return None;
    }
    let close = id == CAPTION_CLOSE;
    let dpi: u32 = at_least_96(dpi);
    proof {
        lemma_dip(1, dpi);
        lemma_dip(2, dpi);
        lemma_dip(4, dpi);
    }
    let s: u32 = item_state;
    assert((s & 0x1 != 0) == (s / 0x1 % 2 == 1)) by (bit_vector);
    assert((s & 0x4 != 0) == (s / 0x4 % 2 == 1)) by (bit_vector);
    assert((s & 0x10 != 0) == (s / 0x10 % 2 == 1)) by (bit_vector);
    assert((s & 0x40 != 0) == (s / 0x40 % 2 == 1)) by (bit_vector);
    let pressed = s & 0x1 != 0;
    let disabled = s & 0x4 != 0;
    let focused = s & 0x10 != 0;
    let hot = s & 0x40 != 0;
    let (fill, line): (u32, u32) = if disabled {
        (background, caption_tint(background, ink, 40))
    } else if close && (hot || pressed) {
        (
            if pressed {
                CLOSE_PRESSED
            } else {
                CLOSE_HOT
            },
            WHITE,
        )
    } else if pressed || hot {
        (
            caption_tint(
                background,
                ink,
                if pressed {
                    20
                } else {
                    10
                },
            ),
            ink,
        )
    } else {
        (background, ink)
    };
    let x: i32 = (rect.left + rect.right) / 2;
    let y: i32 = (rect.top + rect.bottom) / 2;
    let radius: i32 = dip(4, dpi);
    let (first, second) = if close {
        (
            Stroke {
                from_x: x - radius,
                from_y: y - radius,
                to_x: x + radius + 1,
                to_y: y + radius + 1,
            },
            Some(
                Stroke {
                    from_x: x + radius,
                    from_y: y - radius,
                    to_x: x - radius - 1,
                    to_y: y + radius + 1,
                },
            ),
        )
    } else {
        (Stroke { from_x: x - radius, from_y: y, to_x: x + radius + 1, to_y: y }, None)
    };
    let inset: i32 = dip(2, dpi);
    let focus = if focused && !disabled {
        Some(
            Rect {
                left: rect.left + inset,
                top: rect.top + inset,
                right: rect.right - inset,
                bottom: rect.bottom - inset,
            },
        )
    } else {
        None
    };
    Some(
        CaptionPlan {
            background,
            fill,
            ink: line,
            pen_width: max_i32(dip(1, dpi), 1),
            corner: dip(8, dpi),
            first,
            second,
            focus,
            focus_corner: dip(6, dpi),
            answer: SKIP_DEFAULT,
        },
    )
}

/// No ink leaves a colour unchanged, and nothing but ink gives the ink, up to the
/// unused top byte.
pub proof fn tints_range_from_the_base_to_the_ink(base: u32, ink: u32)
    ensures
        tinted_color(base, ink, 0) == base % 0x1000000,
        tinted_color(base, ink, 100) == ink % 0x1000000,
{
    lemma_channels(base);
    lemma_channels(ink);
    lemma_mix_ends(base as int % 0x100, ink as int % 0x100);
    lemma_mix_ends(base as int / 0x100 % 0x100, ink as int / 0x100 % 0x100);
    lemma_mix_ends(base as int / 0x10000 % 0x100, ink as int / 0x10000 % 0x100);
}

proof fn lemma_mix_ends(base: int, ink: int)
    ensures
        mixed(base, ink, 0) == base,
        mixed(base, ink, 100) == ink,
{
}

proof fn lemma_channels(value: u32)
    by (bit_vector)
    ensures
        value % 0x1000000 == value % 0x100 + (value / 0x100 % 0x100) * 0x100 + (value / 0x10000
            % 0x100) * 0x10000,
{
}

/// A mixed channel lies between the base and the ink, nearer to the ink the more of
/// it there is, and is the exact mixture rounded down.
pub proof fn mixtures_move_toward_the_ink(base: int, ink: int, percent: int, more: int)
    requires
        0 <= base <= 255,
        0 <= ink <= 255,
        0 <= percent <= more <= 100,
    ensures
        base <= ink ==> base <= mixed(base, ink, percent) <= mixed(base, ink, more) <= ink,
        ink <= base ==> ink <= mixed(base, ink, more) <= mixed(base, ink, percent) <= base,
        ({
            let exact = 100 * base + percent * (ink - base);
            100 * mixed(base, ink, percent) <= exact < 100 * mixed(base, ink, percent) + 100
        }),
{
    let a = base * (100 - percent) + ink * percent;
    let b = base * (100 - more) + ink * more;
    assert(a == 100 * base + percent * (ink - base)) by (nonlinear_arith)
        requires
            a == base * (100 - percent) + ink * percent,
    ;
    assert(base <= ink ==> 100 * base <= a <= b <= 100 * ink) by (nonlinear_arith)
        requires
            a == base * (100 - percent) + ink * percent,
            b == base * (100 - more) + ink * more,
            0 <= percent <= more <= 100,
    ;
    assert(ink <= base ==> 100 * ink <= b <= a <= 100 * base) by (nonlinear_arith)
        requires
            a == base * (100 - percent) + ink * percent,
            b == base * (100 - more) + ink * more,
            0 <= percent <= more <= 100,
    ;
}

/// Every channel of a tinted colour is mixed by itself, red with red, green with
/// green and blue with blue.
pub proof fn tints_mix_channel_by_channel(base: u32, ink: u32, percent: int)
    requires
        0 <= percent <= 100,
    ensures
        ({
            let color = tinted_color(base, ink, percent);
            &&& color % 0x100 == mixed(base as int % 0x100, ink as int % 0x100, percent)
            &&& color / 0x100 % 0x100 == mixed(
                base as int / 0x100 % 0x100,
                ink as int / 0x100 % 0x100,
                percent,
            )
            &&& color / 0x10000 == mixed(
                base as int / 0x10000 % 0x100,
                ink as int / 0x10000 % 0x100,
                percent,
            )
        }),
{
    mixtures_move_toward_the_ink(base as int % 0x100, ink as int % 0x100, percent, percent);
    mixtures_move_toward_the_ink(
        base as int / 0x100 % 0x100,
        ink as int / 0x100 % 0x100,
        percent,
        percent,
    );
    mixtures_move_toward_the_ink(
        base as int / 0x10000 % 0x100,
        ink as int / 0x10000 % 0x100,
        percent,
        percent,
    );
}

/// A caption button that is not touched, or disabled, has no fill of its own. A
/// touched close button is red with a white cross, a touched minimize button is the
/// background with some ink in it, more of it where it is pressed. Whether it is
/// focused plays no part.
pub proof fn caption_buttons_answer_to_touch(
    item_state: u32,
    other_state: u32,
    close: bool,
    background: u32,
    ink: u32,
)
    ensures
        ({
            let (fill, line) = caption_colors(close, item_state, background, ink);
            let touched = flag(item_state, 0x1) || flag(item_state, 0x40);
            let disabled = flag(item_state, 0x4);
            &&& disabled || !touched ==> fill == background
            &&& !disabled && !(touched && close) ==> line == ink
            &&& disabled ==> line == tinted_color(background, ink, 40)
            &&& !disabled && touched && close ==> line == WHITE && (fill == CLOSE_PRESSED <==> flag(
                item_state,
                0x1,
            )) && (fill == CLOSE_PRESSED || fill == CLOSE_HOT)
            &&& !disabled && touched && !close ==> fill == tinted_color(
                background,
                ink,
                if flag(item_state, 0x1) {
                    20
                } else {
                    10
                },
            )
        }),
        flag(item_state, 0x1) == flag(other_state, 0x1) && flag(item_state, 0x4) == flag(
            other_state,
            0x4,
        ) && flag(item_state, 0x40) == flag(other_state, 0x40) ==> caption_colors(
            close,
            item_state,
            background,
            ink,
        ) == caption_colors(close, other_state, background, ink),
{
}

/// The glyphs stand in the middle. The cross is two strokes that are mirror images
/// of each other, each as wide as it is high; the dash is one level stroke. A stroke
/// does not paint the pixel that it ends at.
pub proof fn caption_glyphs_are_centred(x: int, y: int, radius: int)
    requires
        -0x1000_0000 <= x <= 0x1000_0000,
        -0x1000_0000 <= y <= 0x1000_0000,
        0 <= radius <= 0x1000_0000,
    ensures
        ({
            let (dash, none) = caption_strokes(false, x, y, radius);
            let (falling, other) = caption_strokes(true, x, y, radius);
            let rising = other->0;
            &&& none is None && other is Some
            &&& dash.from_y == y && dash.to_y == y
            &&& x - dash.from_x == radius && dash.to_x - 1 - x == radius
            &&& x - falling.from_x == radius && falling.to_x - 1 - x == radius
            &&& y - falling.from_y == radius && falling.to_y - 1 - y == radius
            &&& rising.from_x - x == x - falling.from_x && x - rising.to_x == falling.to_x - x
            &&& rising.from_y == falling.from_y && rising.to_y == falling.to_y
        }),
{
}

/// A caption button is drawn in the stage before its native painting and in no other,
/// and only the two buttons of the caption are drawn like this.
pub proof fn only_caption_buttons_are_drawn(stage: u32, id: usize)
    ensures
        asks_for_caption(stage, CAPTION_CLOSE) <==> stage == 1,
        asks_for_caption(stage, CAPTION_MINIMIZE) <==> stage == 1,
        id != CAPTION_CLOSE && id != CAPTION_MINIMIZE ==> !asks_for_caption(stage, id),
{
}

} // verus!
