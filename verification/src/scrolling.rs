//! Scroll messages, as both windows with scrolling content read them.
use crate::arith::{fits_i32, quotient};
use crate::drawing::{dip, lengths_scale_to_the_nearest_pixel};
use crate::result_layout::lemma_dip;
use crate::theme::{at_least_96, drawing_dpi};
use vstd::prelude::*;

verus! {

/// The low 16 bits of a message parameter.
pub open spec fn low_word(wparam: usize) -> int {
    wparam as int % 0x10000
}

/// The bits above the low 16, as far as a native code reaches.
pub open spec fn notification_code(wparam: usize) -> int {
    wparam as int / 0x10000 % 0x1_0000_0000
}

/// A signed 16-bit value in the second 16 bits.
pub open spec fn wheel_delta(wparam: usize) -> int {
    let raw = wparam as int / 0x10000 % 0x10000;
    if raw >= 0x8000 {
        raw - 0x10000
    } else {
        raw
    }
}

pub fn low_word_of(wparam: usize) -> (r: usize)
    ensures
        r == low_word(wparam),
{
    assert(wparam & 0xffff == wparam % 0x10000) by (bit_vector);
    wparam & 0xffff
}

pub fn notification_code_of(wparam: usize) -> (r: u32)
    ensures
        r == notification_code(wparam),
{
    let high: u64 = wparam as u64 / 0x10000;
    (high % 0x1_0000_0000) as u32
}

pub fn wheel_delta_of(wparam: usize) -> (r: i32)
    ensures
        r == wheel_delta(wparam),
        -0x8000 <= r <= 0x7fff,
{
    let raw: u32 = (wparam / 0x10000 % 0x10000) as u32;
    if raw >= 0x8000 {
        raw as i32 - 0x10000
    } else {
        raw as i32
    }
}

/// The state of a scroll bar.
#[derive(Debug, Clone, Copy, PartialEq, Eq, Structural)]
pub struct ScrollInfo {
    pub page: u32,
    pub track_position: i32,
    pub maximum: i32,
}

/// Where a scroll-bar command scrolls to: by a line of 28 device-independent
/// pixels or a page, to the dragged position, or to an end.
pub open spec fn bar_target(base: int, wparam: usize, info: ScrollInfo, dpi: u32) -> int {
    let command = low_word(wparam);
    if command == 0 {
        base - dip(28, drawing_dpi(dpi))
    } else if command == 1 {
        base + dip(28, drawing_dpi(dpi))
    } else if command == 2 {
        base - info.page as i32
    } else if command == 3 {
        base + info.page as i32
    } else if command == 4 || command == 5 {
        info.track_position as int
    } else if command == 6 {
        0
    } else if command == 7 {
        info.maximum as int
    } else {
        base
    }
}

pub fn bar_position(base: i32, wparam: usize, info: ScrollInfo, dpi: u32) -> (r: i32)
    requires
        dpi <= 9600,
        fits_i32(bar_target(base as int, wparam, info, dpi)),
    ensures
        r == bar_target(base as int, wparam, info, dpi),
{
    let dpi: u32 = at_least_96(dpi);
    proof {
        lemma_dip(28, dpi);
    }
    let line: i32 = dip(28, dpi);
    let page: i32 = #[verifier::truncate]
    (info.page as i32);
    match low_word_of(wparam) {
        0 => base - line,
        1 => base + line,
        2 => base - page,
        3 => base + page,
        4 => info.track_position,
        5 => info.track_position,
        6 => 0,
        7 => info.maximum,
        _ => base,
    }
}

/// Whether [`bar_position`] has a representable answer.
pub fn bar_computes(base: i32, wparam: usize, info: ScrollInfo, dpi: u32) -> (r: bool)
    ensures
        r == (dpi <= 9600 && fits_i32(bar_target(base as int, wparam, info, dpi))),
{
    if dpi > 9600 {
        return false;
    }
    let line: i64 = dip(28, at_least_96(dpi)) as i64;
    let page: i32 = #[verifier::truncate]
    (info.page as i32);
    let moved: i64 = match low_word_of(wparam) {
        0 => -line,
        1 => line,
        2 => -(page as i64),
        3 => page as i64,
        _ => return true,
    };
    let target: i64 = base as i64 + moved;
    i32::MIN as i64 <= target && target <= i32::MAX as i64
}

/// Full notches of some wheel travel.
pub open spec fn notches(total: int) -> int {
    quotient(total, 120)
}

/// Wheel travel that is left over from full notches.
pub open spec fn left_over(total: int) -> int {
    total - 120 * notches(total)
}

/// Where wheel travel scrolls to: 72 device-independent pixels for every full
/// notch.
pub open spec fn wheel_target(base: int, total: int, dpi: u32) -> int {
    base - notches(total) * dip(72, drawing_dpi(dpi))
}

pub fn wheel_position(base: i32, total: i32, dpi: u32) -> (r: i32)
    requires
        -0x10000 <= total <= 0x10000,
        dpi <= 9600,
        fits_i32(wheel_target(base as int, total as int, dpi)),
    ensures
        r == wheel_target(base as int, total as int, dpi),
{
    let dpi: u32 = at_least_96(dpi);
    proof {
        lemma_dip(72, dpi);
    }
    let full: i32 = total / 120;
    let notch: i32 = dip(72, dpi);
    proof {
        assert(-600 * 7200 <= full * notch <= 600 * 7200) by (nonlinear_arith)
            requires
                -600 <= full <= 600,
                0 <= notch <= 7200,
        ;
    }
    base - full * notch
}

/// Whether [`wheel_position`] has a representable answer.
pub fn wheel_computes(base: i32, total: i32, dpi: u32) -> (r: bool)
    requires
        -0x10000 <= total <= 0x10000,
    ensures
        r == (dpi <= 9600 && fits_i32(wheel_target(base as int, total as int, dpi))),
{
    if dpi > 9600 {
        return false;
    }
    let full: i64 = total as i64 / 120;
    let notch: i64 = dip(72, at_least_96(dpi)) as i64;
    proof {
        assert(-600 * 0x8000_0000 <= full * notch <= 600 * 0x8000_0000) by (nonlinear_arith)
            requires
                -600 <= full <= 600,
                -0x8000_0000 <= notch <= 0x7fff_ffff,
        ;
    }
    let target: i64 = base as i64 - full * notch;
    i32::MIN as i64 <= target && target <= i32::MAX as i64
}

/// A message parameter is made of its low word and what stands above it, and the
/// wheel travel is the signed reading of the second word.
pub proof fn message_words_read_back(wparam: usize)
    ensures
        0 <= low_word(wparam) < 0x10000,
        wparam / 0x10000 < 0x1_0000_0000 ==> low_word(wparam) + 0x10000 * notification_code(wparam)
            == wparam,
        -0x8000 <= wheel_delta(wparam) < 0x8000,
        (wparam / 0x10000 - wheel_delta(wparam)) % 0x10000 == 0,
{
}

/// A line up and a line down are the same step of 28 device-independent pixels in
/// opposite directions, and so are a page up and a page down; dragging goes where the
/// thumb is, and the ends are zero and the maximum. Nothing else moves the content.
pub proof fn bar_commands_scroll_their_way(base: int, wparam: usize, info: ScrollInfo, dpi: u32)
    requires
        0 < dpi <= 9600,
        info.page <= i32::MAX,
    ensures
        ({
            let target = bar_target(base, wparam, info, dpi);
            let scale = if dpi < 96 { 96 } else { dpi as int };
            &&& low_word(wparam) == 0 ==> -48 <= 28 * scale - 96 * (base - target) < 48
            &&& low_word(wparam) == 1 ==> -48 <= 28 * scale - 96 * (target - base) < 48
            &&& low_word(wparam) == 2 ==> target + info.page == base
            &&& low_word(wparam) == 3 ==> target == base + info.page
            &&& low_word(wparam) == 4 || low_word(wparam) == 5 ==> target == info.track_position
            &&& low_word(wparam) == 6 ==> target == 0
            &&& low_word(wparam) == 7 ==> target == info.maximum
            &&& low_word(wparam) > 7 ==> target == base
        }),
{
    let scale = drawing_dpi(dpi);
    lengths_scale_to_the_nearest_pixel(28, scale as int);
}

/// Wheel travel is used up notch by notch: what is left over is less than a notch and
/// has the direction of the travel, and no travel is lost when it is carried on to
/// the next message.
pub proof fn wheel_travel_adds_up(first: int, second: int)
    ensures
        120 * notches(first) + left_over(first) == first,
        -120 < left_over(first) < 120,
        first >= 0 ==> left_over(first) >= 0,
        first <= 0 ==> left_over(first) <= 0,
        120 * (notches(first) + notches(left_over(first) + second)) + left_over(
            left_over(first) + second,
        ) == first + second,
        notches(-first) == -notches(first),
{
}

/// Turning the wheel up scrolls up, by 72 device-independent pixels for every full
/// notch, and as far down when it is turned down. Less than a notch scrolls nothing.
pub proof fn wheel_notches_scroll_alike(base: int, total: int, dpi: u32)
    requires
        0 < dpi <= 9600,
    ensures
        -120 < total < 120 ==> wheel_target(base, total, dpi) == base,
        total >= 120 ==> wheel_target(base, total, dpi) < base,
        wheel_target(base, total, dpi) + wheel_target(base, -total, dpi) == 2 * base,
        !(-120 < total < 0) ==> wheel_target(base, total + 120, dpi) - wheel_target(
            base,
            total,
            dpi,
        ) == wheel_target(base, 120, dpi) - base,
        -48 <= 72 * (if dpi < 96 {
            96
        } else {
            dpi as int
        }) - 96 * (base - wheel_target(base, 120, dpi)) < 48,
{
    let step = dip(72, drawing_dpi(dpi)) as int;
    lengths_scale_to_the_nearest_pixel(72, drawing_dpi(dpi) as int);
    let n = notches(total);
    assert(notches(-total) == -n);
    assert((-n) * step == -(n * step)) by (nonlinear_arith);
    assert(n == 0 ==> n * step == 0) by (nonlinear_arith);
    assert(n >= 1 ==> n * step >= step) by (nonlinear_arith)
        requires
            step > 0,
    ;
    assert((n + 1) * step == n * step + step) by (nonlinear_arith);
    assert(1 * step == step) by (nonlinear_arith);
}

} // verus!
