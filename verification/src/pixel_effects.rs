//! Integer BGRX backdrop effects, independent of native drawing and allocation.
use vstd::arithmetic::div_mod::{lemma_fundamental_div_mod, lemma_fundamental_div_mod_converse};
use vstd::prelude::*;

verus! {

#[derive(Debug, Clone, Copy, PartialEq, Eq, Structural)]
pub enum PixelEffectError {
    EmptyImage,
    InvalidLength,
    InvalidRadius,
    InvalidTransparency,
}

/// Nearest valid index on a line of `len` samples: both ends are replicated.
pub open spec fn clamp_index(i: int, len: int) -> int {
    if i < 0 {
        0
    } else if i >= len {
        len - 1
    } else {
        i
    }
}

/// Sum of `n` consecutive samples starting at `lo` on the line of `len` samples
/// that begins at byte `base` and advances by `stride` bytes.
pub open spec fn box_sum(
    src: Seq<u8>,
    base: int,
    stride: int,
    len: int,
    lo: int,
    n: int,
) -> int
    decreases n,
{
    if n <= 0 {
        0
    } else {
        box_sum(src, base, stride, len, lo, n - 1)
            + src[base + clamp_index(lo + n - 1, len) * stride] as int
    }
}

/// Truncated mean of the `2 * radius + 1` samples centred on sample `at`.
pub open spec fn box_mean(
    src: Seq<u8>,
    base: int,
    stride: int,
    len: int,
    at: int,
    radius: int,
) -> int {
    box_sum(src, base, stride, len, at - radius, 2 * radius + 1) / (2 * radius + 1)
}

/// Image row of byte `i`.
pub open spec fn row_of(i: int, width: int) -> int {
    (i / 4) / width
}

/// Image column of byte `i`.
pub open spec fn column_of(i: int, width: int) -> int {
    (i / 4) % width
}

/// Byte offset of one channel of the pixel at `(x, y)`.
pub open spec fn byte_offset(x: int, y: int, width: int, channel: int) -> int {
    (y * width + x) * 4 + channel
}

/// The horizontal pass: every colour byte becomes the mean along its row, and
/// the X bytes keep what `scratch` held.
pub open spec fn horizontal_pass(
    pixels: Seq<u8>,
    scratch: Seq<u8>,
    width: int,
    radius: int,
) -> Seq<u8> {
    Seq::new(
        pixels.len(),
        |i: int|
            if i % 4 == 3 {
                scratch[i]
            } else {
                box_mean(
                    pixels,
                    byte_offset(0, row_of(i, width), width, i % 4),
                    4,
                    width,
                    column_of(i, width),
                    radius,
                ) as u8
            },
    )
}

/// Weight of the blurred backdrop, out of 255.
pub open spec fn backdrop_opacity(transparency_percent: int) -> int {
    (transparency_percent * 255 + 50) / 100
}

/// The dark panel colour that is mixed in, in BGR order.
pub open spec fn tint(channel: int) -> int {
    if channel == 0 {
        51
    } else if channel == 1 {
        32
    } else {
        23
    }
}

/// `value` mixed with the tint of its channel, rounded to the nearest integer.
pub open spec fn tinted(value: int, channel: int, transparency_percent: int) -> int {
    (value * backdrop_opacity(transparency_percent) + tint(channel) * (255 - backdrop_opacity(
        transparency_percent,
    )) + 127) / 255
}

/// The vertical pass over the result of the horizontal one, followed by the
/// tint. The X bytes keep what `pixels` held.
pub open spec fn vertical_pass(
    horizontal: Seq<u8>,
    pixels: Seq<u8>,
    width: int,
    height: int,
    radius: int,
    transparency_percent: int,
) -> Seq<u8> {
    Seq::new(
        pixels.len(),
        |i: int|
            if i % 4 == 3 {
                pixels[i]
            } else {
                tinted(
                    box_mean(
                        horizontal,
                        byte_offset(column_of(i, width), 0, width, i % 4),
                        width * 4,
                        height,
                        row_of(i, width),
                        radius,
                    ),
                    i % 4,
                    transparency_percent,
                ) as u8
            },
    )
}

/// The error that the arguments of [`blur_and_tint`] call for, if any.
pub open spec fn effect_error(
    pixels_len: int,
    scratch_len: int,
    width: int,
    height: int,
    radius: int,
    transparency_percent: int,
) -> Option<PixelEffectError> {
    if width == 0 || height == 0 {
        Some(PixelEffectError::EmptyImage)
    } else if width * height * 4 > usize::MAX || pixels_len != width * height * 4 || scratch_len
        != width * height * 4 {
        Some(PixelEffectError::InvalidLength)
    } else if (2 * radius + 1) * 255 > u32::MAX {
        Some(PixelEffectError::InvalidRadius)
    } else if transparency_percent > 100 {
        Some(PixelEffectError::InvalidTransparency)
    } else {
        None
    }
}

proof fn lemma_box_sum_bounds(src: Seq<u8>, base: int, stride: int, len: int, lo: int, n: int)
    requires
        n >= 0,
    ensures
        0 <= box_sum(src, base, stride, len, lo, n) <= 255 * n,
    decreases n,
{
    if n > 0 {
        lemma_box_sum_bounds(src, base, stride, len, lo, n - 1);
    }
}

proof fn lemma_box_sum_front(src: Seq<u8>, base: int, stride: int, len: int, lo: int, n: int)
    requires
        n >= 1,
    ensures
        box_sum(src, base, stride, len, lo, n) == src[base + clamp_index(lo, len) * stride]
            + box_sum(src, base, stride, len, lo + 1, n - 1),
    decreases n,
{
    if n > 1 {
        lemma_box_sum_front(src, base, stride, len, lo, n - 1);
    } else {
        reveal_with_fuel(box_sum, 2);
    }
}

/// While the window lies left of the line, every sample is the first one.
proof fn lemma_box_sum_before(src: Seq<u8>, base: int, stride: int, len: int, lo: int, n: int)
    requires
        len >= 1,
        n >= 0,
        lo + n <= 1,
    ensures
        box_sum(src, base, stride, len, lo, n) == n * src[base],
    decreases n,
{
    if n > 0 {
        lemma_box_sum_before(src, base, stride, len, lo, n - 1);
        assert(clamp_index(lo + n - 1, len) * stride == 0) by {
            assert(0 * stride == 0) by (nonlinear_arith);
        }
        assert(n * src[base] == (n - 1) * src[base] + src[base]) by (nonlinear_arith);
    } else {
        assert(0 * src[base] == 0) by (nonlinear_arith);
    }
}

proof fn lemma_mean_fits(total: int, count: int)
    requires
        count >= 1,
        0 <= total <= 255 * count,
    ensures
        0 <= total / count <= 255,
{
    assert(0 <= total / count <= 255) by (nonlinear_arith)
        requires
            count >= 1,
            0 <= total <= 255 * count,
    ;
}

pub(crate) proof fn lemma_decode(x: int, y: int, width: int, channel: int)
    requires
        0 <= x < width,
        0 <= channel < 4,
    ensures
        row_of(byte_offset(x, y, width, channel), width) == y,
        column_of(byte_offset(x, y, width, channel), width) == x,
        byte_offset(x, y, width, channel) % 4 == channel,
{
    let pixel = y * width + x;
    lemma_fundamental_div_mod_converse(pixel, width, y, x);
    assert((pixel * 4 + channel) / 4 == pixel);
}

pub(crate) proof fn lemma_encode(i: int, width: int)
    requires
        i >= 0,
        width >= 1,
    ensures
        byte_offset(column_of(i, width), row_of(i, width), width, i % 4) == i,
        0 <= column_of(i, width) < width,
        0 <= row_of(i, width),
{
    lemma_fundamental_div_mod(i / 4, width);
    assert(width * ((i / 4) / width) == ((i / 4) / width) * width) by (nonlinear_arith);
    assert(0 <= (i / 4) / width) by (nonlinear_arith)
        requires
            i >= 0,
            width >= 1,
    ;
    assert(0 <= (i / 4) % width < width) by (nonlinear_arith)
        requires
            width >= 1,
    ;
}

pub(crate) proof fn lemma_row_in_range(i: int, width: int, height: int)
    requires
        width >= 1,
        0 <= i < width * height * 4,
    ensures
        row_of(i, width) < height,
{
    lemma_encode(i, width);
    let row = row_of(i, width);
    if row >= height {
        assert(row * width >= width * height) by (nonlinear_arith)
            requires
                row >= height,
                width >= 1,
        ;
    }
}

pub(crate) proof fn lemma_offset_in_range(x: int, y: int, width: int, height: int, channel: int)
    requires
        0 <= x < width,
        0 <= y < height,
        0 <= channel < 4,
    ensures
        0 <= y * width,
        y * width + x < width * height,
        0 <= byte_offset(x, y, width, channel) < width * height * 4,
{
    assert(0 <= y * width && y * width + x < width * height) by (nonlinear_arith)
        requires
            0 <= x < width,
            0 <= y < height,
    ;
}

/// Sum of the window centred on the first sample of a line.
fn first_window(src: &[u8], base: usize, stride: usize, len: usize, radius: usize) -> (sum: u32)
    requires
        len >= 1,
        base + (len - 1) * stride < src.len(),
        (2 * radius + 1) * 255 <= u32::MAX,
    ensures
        sum == box_sum(src@, base as int, stride as int, len as int, -radius, 2 * radius + 1),
{
    let mut sum: u32 = 0;
    proof {
        assert(0 <= (len - 1) * stride) by (nonlinear_arith)
            requires
                len >= 1,
                stride >= 0,
        ;
        lemma_box_sum_before(src@, base as int, stride as int, len as int, -radius, radius + 1);
        assert((radius + 1) * src@[base as int] <= (radius + 1) * 255) by (nonlinear_arith)
            requires
                src@[base as int] <= 255,
        ;
    }
    sum = (radius as u32 + 1) * src[base] as u32;
    let mut k: usize = 1;
    while k <= radius
        invariant
            len >= 1,
            1 <= k <= radius + 1,
            base + (len - 1) * stride < src.len(),
            (2 * radius + 1) * 255 <= u32::MAX,
            sum == box_sum(src@, base as int, stride as int, len as int, -radius, radius + k),
        decreases radius + 1 - k,
    {
        let nearest: usize = if k < len - 1 {
            k
        } else {
            len - 1
        };
        proof {
            assert(nearest * stride <= (len - 1) * stride && 0 <= nearest * stride)
                by (nonlinear_arith)
                requires
                    0 <= nearest <= len - 1,
                    stride >= 0,
            ;
            lemma_box_sum_bounds(
                src@,
                base as int,
                stride as int,
                len as int,
                -radius,
                radius + k + 1,
            );
            assert(clamp_index(-radius + (radius + k + 1) - 1, len as int) == nearest);
        }
        sum = sum + src[base + nearest * stride] as u32;
        k = k + 1;
    }
    sum
}

/// Moves the window sum from sample `at` to sample `at + 1`.
fn slide_window(
    src: &[u8],
    base: usize,
    stride: usize,
    len: usize,
    radius: usize,
    at: usize,
    sum: u32,
) -> (next: u32)
    requires
        at < len,
        len + radius <= usize::MAX,
        base + (len - 1) * stride < src.len(),
        (2 * radius + 1) * 255 <= u32::MAX,
        sum == box_sum(src@, base as int, stride as int, len as int, at - radius, 2 * radius + 1),
    ensures
        next == box_sum(
            src@,
            base as int,
            stride as int,
            len as int,
            at + 1 - radius,
            2 * radius + 1,
        ),
{
    let leaving: usize = if at >= radius {
        at - radius
    } else {
        0
    };
    let entering: usize = if at + radius + 1 < len - 1 {
        at + radius + 1
    } else {
        len - 1
    };
    proof {
        let b = base as int;
        let s = stride as int;
        let l = len as int;
        let n = 2 * radius + 1;
        assert(leaving * stride <= (len - 1) * stride && 0 <= leaving * stride) by (nonlinear_arith)
            requires
                0 <= leaving <= len - 1,
                stride >= 0,
        ;
        assert(entering * stride <= (len - 1) * stride && 0 <= entering * stride)
            by (nonlinear_arith)
            requires
                0 <= entering <= len - 1,
                stride >= 0,
        ;
        assert(clamp_index(at - radius, l) == leaving);
        assert(clamp_index(at + 1 - radius + n - 1, l) == entering);
        lemma_box_sum_front(src@, b, s, l, at - radius, n);
        lemma_box_sum_bounds(src@, b, s, l, at + 1 - radius, n);
        lemma_box_sum_bounds(src@, b, s, l, at + 1 - radius, n - 1);
    }
    let rest: u32 = sum - src[base + leaving * stride] as u32;
    rest + src[base + entering * stride] as u32
}

/// What one row of the horizontal pass has written when columns below `x` are
/// done and `before` was in place at the start.
spec fn row_progress(
    pixels: Seq<u8>,
    before: Seq<u8>,
    width: int,
    radius: int,
    y: int,
    channel: int,
    x: int,
) -> Seq<u8> {
    Seq::new(
        before.len(),
        |i: int|
            if row_of(i, width) == y && i % 4 == channel && column_of(i, width) < x {
                horizontal_pass(pixels, before, width, radius)[i]
            } else {
                before[i]
            },
    )
}

/// One channel of one row of the horizontal pass.
fn blur_row(
    pixels: &[u8],
    scratch: &mut [u8],
    width: usize,
    height: usize,
    radius: usize,
    y: usize,
    channel: usize,
)
    requires
        y < height,
        width >= 1,
        channel < 3,
        pixels.len() == width * height * 4,
        old(scratch)@.len() == width * height * 4,
        (2 * radius + 1) * 255 <= u32::MAX,
        width + radius <= usize::MAX,
    ensures
        final(scratch)@ == row_progress(
            pixels@,
            old(scratch)@,
            width as int,
            radius as int,
            y as int,
            channel as int,
            width as int,
        ),
{
    proof {
        lemma_offset_in_range(0, y as int, width as int, height as int, channel as int);
        lemma_offset_in_range(width - 1, y as int, width as int, height as int, channel as int);
    }
    let ghost before = scratch@;
    let count: u32 = 2 * radius as u32 + 1;
    let base: usize = y * width * 4 + channel;
    let mut sum: u32 = first_window(pixels, base, 4, width, radius);
    let mut x: usize = 0;
    assert(scratch@ =~= row_progress(
        pixels@,
        before,
        width as int,
        radius as int,
        y as int,
        channel as int,
        0,
    )) by {
        assert forall|i: int| 0 <= i < before.len() implies column_of(i, width as int) >= 0 by {
            lemma_encode(i, width as int);
        }
    }
    while x < width
        invariant
            0 <= x <= width,
            y < height,
            width >= 1,
            channel < 3,
            count == 2 * radius + 1,
            base == byte_offset(0, y as int, width as int, channel as int),
            base + (width - 1) * 4 < pixels.len(),
            pixels.len() == width * height * 4,
            before.len() == width * height * 4,
            (2 * radius + 1) * 255 <= u32::MAX,
            width + radius <= usize::MAX,
            sum == box_sum(pixels@, base as int, 4, width as int, x - radius, 2 * radius + 1),
            scratch@ == row_progress(
                pixels@,
                before,
                width as int,
                radius as int,
                y as int,
                channel as int,
                x as int,
            ),
        decreases width - x,
    {
        let ghost done = scratch@;
        let index: usize = base + x * 4;
        proof {
            lemma_box_sum_bounds(
                pixels@,
                base as int,
                4,
                width as int,
                x - radius,
                2 * radius + 1,
            );
            lemma_mean_fits(sum as int, count as int);
            lemma_decode(x as int, y as int, width as int, channel as int);
        }
        scratch[index] = (sum / count) as u8;
        assert(scratch@ =~= row_progress(
            pixels@,
            before,
            width as int,
            radius as int,
            y as int,
            channel as int,
            x + 1,
        )) by {
            assert forall|i: int| 0 <= i < before.len() && i != index implies scratch@[i]
                == row_progress(
                pixels@,
                before,
                width as int,
                radius as int,
                y as int,
                channel as int,
                x + 1,
            )[i] by {
                lemma_encode(i, width as int);
            }
        }
        sum = slide_window(pixels, base, 4, width, radius, x, sum);
        x = x + 1;
    }
}

/// What one column of the vertical pass has written when rows below `y` are done
/// and `before` was in place at the start.
spec fn column_progress(
    horizontal: Seq<u8>,
    before: Seq<u8>,
    width: int,
    height: int,
    radius: int,
    transparency_percent: int,
    x: int,
    channel: int,
    y: int,
) -> Seq<u8> {
    Seq::new(
        before.len(),
        |i: int|
            if column_of(i, width) == x && i % 4 == channel && row_of(i, width) < y {
                vertical_pass(horizontal, before, width, height, radius, transparency_percent)[i]
            } else {
                before[i]
            },
    )
}

/// One channel of one column of the vertical pass, with the tint.
fn blur_column(
    scratch: &[u8],
    pixels: &mut [u8],
    width: usize,
    height: usize,
    radius: usize,
    transparency_percent: u8,
    x: usize,
    channel: usize,
)
    requires
        x < width,
        height >= 1,
        channel < 3,
        scratch.len() == width * height * 4,
        old(pixels)@.len() == width * height * 4,
        (2 * radius + 1) * 255 <= u32::MAX,
        height + radius <= usize::MAX,
        transparency_percent <= 100,
    ensures
        final(pixels)@ == column_progress(
            scratch@,
            old(pixels)@,
            width as int,
            height as int,
            radius as int,
            transparency_percent as int,
            x as int,
            channel as int,
            height as int,
        ),
{
    let ghost before = pixels@;
    let ghost w = width as int;
    let ghost h = height as int;
    let ghost r = radius as int;
    let ghost t = transparency_percent as int;
    let ghost xi = x as int;
    let ghost c = channel as int;
    let backdrop: u32 = (transparency_percent as u32 * 255 + 50) / 100;
    let tint_opacity: u32 = 255 - backdrop;
    let tint_value: u32 = if channel == 0 {
        51
    } else if channel == 1 {
        32
    } else {
        23
    };
    let count: u32 = 2 * radius as u32 + 1;
    proof {
        lemma_offset_in_range(xi, 0, w, h, c);
        lemma_offset_in_range(xi, h - 1, w, h, c);
        assert(width * 4 <= width * height * 4) by (nonlinear_arith)
            requires
                height >= 1,
                width >= 0,
        ;
        assert(byte_offset(xi, 0, w, c) == xi * 4 + c) by {
            assert(0 * w == 0);
        }
        assert(byte_offset(xi, h - 1, w, c) == xi * 4 + c + (h - 1) * (w * 4)) by {
            assert(((h - 1) * w) * 4 == (h - 1) * (w * 4)) by (nonlinear_arith);
        }
    }
    let base: usize = x * 4 + channel;
    let stride: usize = width * 4;
    let mut sum: u32 = first_window(scratch, base, stride, height, radius);
    let mut y: usize = 0;
    assert(pixels@ =~= column_progress(scratch@, before, w, h, r, t, xi, c, 0)) by {
        assert forall|i: int| 0 <= i < before.len() implies row_of(i, w) >= 0 by {
            lemma_encode(i, w);
        }
    }
    while y < height
        invariant
            0 <= y <= height,
            x < width,
            height >= 1,
            channel < 3,
            w == width,
            h == height,
            r == radius,
            t == transparency_percent,
            xi == x,
            c == channel,
            t <= 100,
            backdrop == backdrop_opacity(t),
            backdrop <= 255,
            tint_opacity == 255 - backdrop,
            tint_value == tint(c),
            count == 2 * radius + 1,
            base == byte_offset(xi, 0, w, c),
            stride == w * 4,
            base + (height - 1) * stride < scratch.len(),
            scratch.len() == width * height * 4,
            before.len() == width * height * 4,
            (2 * radius + 1) * 255 <= u32::MAX,
            height + radius <= usize::MAX,
            sum == box_sum(scratch@, base as int, w * 4, h, y - r, 2 * r + 1),
            pixels@ == column_progress(scratch@, before, w, h, r, t, xi, c, y as int),
        decreases height - y,
    {
        proof {
            lemma_box_sum_bounds(scratch@, base as int, w * 4, h, y - r, 2 * r + 1);
            lemma_mean_fits(sum as int, count as int);
            lemma_decode(xi, y as int, w, c);
            lemma_offset_in_range(xi, y as int, w, h, c);
        }
        let mean: u32 = sum / count;
        proof {
            assert(0 <= mean * backdrop <= 255 * backdrop) by (nonlinear_arith)
                requires
                    0 <= mean <= 255,
                    0 <= backdrop,
            ;
            assert(0 <= tint_value * tint_opacity <= 255 * tint_opacity) by (nonlinear_arith)
                requires
                    0 <= tint_value <= 255,
                    0 <= tint_opacity,
            ;
        }
        let value: u32 = (mean * backdrop + tint_value * tint_opacity + 127) / 255;
        let index: usize = (y * width + x) * 4 + channel;
        pixels[index] = value as u8;
        assert(pixels@ =~= column_progress(scratch@, before, w, h, r, t, xi, c, y + 1)) by {
            assert forall|i: int| 0 <= i < before.len() && i != index implies pixels@[i]
                == column_progress(scratch@, before, w, h, r, t, xi, c, y + 1)[i] by {
                lemma_encode(i, w);
            }
        }
        sum = slide_window(scratch, base, stride, height, radius, y, sum);
        y = y + 1;
    }
}

/// The horizontal pass when every channel of the rows above `y`, and the
/// channels below `channel` of row `y`, are done.
spec fn horizontal_progress(
    pixels: Seq<u8>,
    before: Seq<u8>,
    width: int,
    radius: int,
    y: int,
    channel: int,
) -> Seq<u8> {
    Seq::new(
        before.len(),
        |i: int|
            if row_of(i, width) < y || (row_of(i, width) == y && i % 4 < channel) {
                horizontal_pass(pixels, before, width, radius)[i]
            } else {
                before[i]
            },
    )
}

/// The vertical pass when every channel of the columns left of `x`, and the
/// channels below `channel` of column `x`, are done.
spec fn vertical_progress(
    horizontal: Seq<u8>,
    before: Seq<u8>,
    width: int,
    height: int,
    radius: int,
    transparency_percent: int,
    x: int,
    channel: int,
) -> Seq<u8> {
    Seq::new(
        before.len(),
        |i: int|
            if column_of(i, width) < x || (column_of(i, width) == x && i % 4 < channel) {
                vertical_pass(horizontal, before, width, height, radius, transparency_percent)[i]
            } else {
                before[i]
            },
    )
}

fn blur_rows(pixels: &[u8], scratch: &mut [u8], width: usize, height: usize, radius: usize)
    requires
        width >= 1,
        pixels.len() == width * height * 4,
        old(scratch)@.len() == width * height * 4,
        (2 * radius + 1) * 255 <= u32::MAX,
        width + radius <= usize::MAX,
    ensures
        final(scratch)@ == horizontal_pass(pixels@, old(scratch)@, width as int, radius as int),
{
    let ghost before = scratch@;
    let ghost w = width as int;
    let ghost r = radius as int;
    assert(scratch@ =~= horizontal_progress(pixels@, before, w, r, 0, 0)) by {
        assert forall|i: int| 0 <= i < before.len() implies row_of(i, w) >= 0 by {
            lemma_encode(i, w);
        }
    }
    let mut y: usize = 0;
    while y < height
        invariant
            0 <= y <= height,
            w == width,
            r == radius,
            width >= 1,
            pixels.len() == width * height * 4,
            before.len() == width * height * 4,
            (2 * radius + 1) * 255 <= u32::MAX,
            width + radius <= usize::MAX,
            scratch@ == horizontal_progress(pixels@, before, w, r, y as int, 0),
        decreases height - y,
    {
        let mut channel: usize = 0;
        while channel < 3
            invariant
                0 <= channel <= 3,
                y < height,
                w == width,
                r == radius,
                width >= 1,
                pixels.len() == width * height * 4,
                before.len() == width * height * 4,
                (2 * radius + 1) * 255 <= u32::MAX,
                width + radius <= usize::MAX,
                scratch@ == horizontal_progress(pixels@, before, w, r, y as int, channel as int),
            decreases 3 - channel,
        {
            let ghost middle = scratch@;
            blur_row(pixels, scratch, width, height, radius, y, channel);
            assert(scratch@ =~= horizontal_progress(
                pixels@,
                before,
                w,
                r,
                y as int,
                channel + 1,
            )) by {
                assert forall|i: int| 0 <= i < before.len() implies scratch@[i]
                    == horizontal_progress(pixels@, before, w, r, y as int, channel + 1)[i] by {
                    lemma_encode(i, w);
                }
            }
            channel = channel + 1;
        }
        assert(scratch@ =~= horizontal_progress(pixels@, before, w, r, y + 1, 0)) by {
            assert forall|i: int| 0 <= i < before.len() implies scratch@[i]
                == horizontal_progress(pixels@, before, w, r, y + 1, 0)[i] by {
                lemma_encode(i, w);
            }
        }
        y = y + 1;
    }
    assert(scratch@ =~= horizontal_pass(pixels@, before, w, r)) by {
        assert forall|i: int| 0 <= i < before.len() implies row_of(i, w) < height by {
            lemma_row_in_range(i, w, height as int);
        }
    }
}

fn blur_columns(
    scratch: &[u8],
    pixels: &mut [u8],
    width: usize,
    height: usize,
    radius: usize,
    transparency_percent: u8,
)
    requires
        width >= 1,
        height >= 1,
        scratch.len() == width * height * 4,
        old(pixels)@.len() == width * height * 4,
        (2 * radius + 1) * 255 <= u32::MAX,
        height + radius <= usize::MAX,
        transparency_percent <= 100,
    ensures
        final(pixels)@ == vertical_pass(
            scratch@,
            old(pixels)@,
            width as int,
            height as int,
            radius as int,
            transparency_percent as int,
        ),
{
    let ghost before = pixels@;
    let ghost w = width as int;
    let ghost h = height as int;
    let ghost r = radius as int;
    let ghost t = transparency_percent as int;
    assert(pixels@ =~= vertical_progress(scratch@, before, w, h, r, t, 0, 0)) by {
        assert forall|i: int| 0 <= i < before.len() implies column_of(i, w) >= 0 by {
            lemma_encode(i, w);
        }
    }
    let mut x: usize = 0;
    while x < width
        invariant
            0 <= x <= width,
            w == width,
            h == height,
            r == radius,
            t == transparency_percent,
            t <= 100,
            width >= 1,
            height >= 1,
            scratch.len() == width * height * 4,
            before.len() == width * height * 4,
            (2 * radius + 1) * 255 <= u32::MAX,
            height + radius <= usize::MAX,
            pixels@ == vertical_progress(scratch@, before, w, h, r, t, x as int, 0),
        decreases width - x,
    {
        let mut channel: usize = 0;
        while channel < 3
            invariant
                0 <= channel <= 3,
                x < width,
                w == width,
                h == height,
                r == radius,
                t == transparency_percent,
                t <= 100,
                width >= 1,
                height >= 1,
                scratch.len() == width * height * 4,
                before.len() == width * height * 4,
                (2 * radius + 1) * 255 <= u32::MAX,
                height + radius <= usize::MAX,
                pixels@ == vertical_progress(
                    scratch@,
                    before,
                    w,
                    h,
                    r,
                    t,
                    x as int,
                    channel as int,
                ),
            decreases 3 - channel,
        {
            blur_column(scratch, pixels, width, height, radius, transparency_percent, x, channel);
            assert(pixels@ =~= vertical_progress(
                scratch@,
                before,
                w,
                h,
                r,
                t,
                x as int,
                channel + 1,
            )) by {
                assert forall|i: int| 0 <= i < before.len() implies pixels@[i]
                    == vertical_progress(scratch@, before, w, h, r, t, x as int, channel + 1)[i] by {
                    lemma_encode(i, w);
                    lemma_row_in_range(i, w, h);
                }
            }
            channel = channel + 1;
        }
        assert(pixels@ =~= vertical_progress(scratch@, before, w, h, r, t, x + 1, 0)) by {
            assert forall|i: int| 0 <= i < before.len() implies pixels@[i]
                == vertical_progress(scratch@, before, w, h, r, t, x + 1, 0)[i] by {
                lemma_encode(i, w);
            }
        }
        x = x + 1;
    }
    assert(pixels@ =~= vertical_pass(scratch@, before, w, h, r, t)) by {
        assert forall|i: int| 0 <= i < before.len() implies column_of(i, w) < width by {
            lemma_encode(i, w);
        }
    }
}

/// Apply the two-pass box filter and dark tint, leaving X untouched.
/// Both slices must exactly cover `width * height` BGRX pixels. Scratch is
/// reused: it holds the horizontal pass afterwards.
pub fn blur_and_tint(
    pixels: &mut [u8],
    scratch: &mut [u8],
    width: usize,
    height: usize,
    radius: usize,
    transparency_percent: u8,
) -> (result: Result<(), PixelEffectError>)
    ensures
        match effect_error(
            old(pixels)@.len() as int,
            old(scratch)@.len() as int,
            width as int,
            height as int,
            radius as int,
            transparency_percent as int,
        ) {
            Some(error) => {
                &&& result == Err::<(), PixelEffectError>(error)
                &&& final(pixels)@ == old(pixels)@
                &&& final(scratch)@ == old(scratch)@
            },
            None => {
                &&& result is Ok
                &&& final(scratch)@ == horizontal_pass(
                    old(pixels)@,
                    old(scratch)@,
                    width as int,
                    radius as int,
                )
                &&& final(pixels)@ == vertical_pass(
                    final(scratch)@,
                    old(pixels)@,
                    width as int,
                    height as int,
                    radius as int,
                    transparency_percent as int,
                )
            },
        },
{
    if width == 0 || height == 0 {
        return Err(PixelEffectError::EmptyImage);
    }
    proof {
        assert(width * height >= 1) by (nonlinear_arith)
            requires
                width >= 1,
                height >= 1,
        ;
    }
    let area: usize = match width.checked_mul(height) {
        Some(area) => area,
        None => return Err(PixelEffectError::InvalidLength),
    };
    let len: usize = match area.checked_mul(4) {
        Some(len) => len,
        None => return Err(PixelEffectError::InvalidLength),
    };
    if pixels.len() != len || scratch.len() != len {
        return Err(PixelEffectError::InvalidLength);
    }
    // The sum of one full window of white samples has to fit in 32 bits.
    if radius > (u32::MAX / 255 - 1) as usize / 2 {
        return Err(PixelEffectError::InvalidRadius);
    }
    proof {
        // Neither side takes more than a quarter of the address space.
        assert(width * 4 <= len && height * 4 <= len) by (nonlinear_arith)
            requires
                len == width * height * 4,
                width >= 1,
                height >= 1,
        ;
    }
    if transparency_percent > 100 {
        return Err(PixelEffectError::InvalidTransparency);
    }
    blur_rows(pixels, scratch, width, height, radius);
    blur_columns(scratch, pixels, width, height, radius, transparency_percent);
    Ok(())
}

/// The X byte of every pixel comes through both passes unchanged.
pub proof fn x_bytes_are_kept(
    pixels: Seq<u8>,
    scratch: Seq<u8>,
    width: int,
    height: int,
    radius: int,
    transparency_percent: int,
    i: int,
)
    requires
        0 <= i < pixels.len(),
        i % 4 == 3,
    ensures
        horizontal_pass(pixels, scratch, width, radius)[i] == scratch[i],
        vertical_pass(
            horizontal_pass(pixels, scratch, width, radius),
            pixels,
            width,
            height,
            radius,
            transparency_percent,
        )[i] == pixels[i],
{
}

/// A window mean never leaves the range of the samples on its line.
pub proof fn box_mean_stays_in_range(
    src: Seq<u8>,
    base: int,
    stride: int,
    len: int,
    at: int,
    radius: int,
    low: int,
    high: int,
)
    requires
        len >= 1,
        radius >= 0,
        forall|k: int| 0 <= k < len ==> low <= #[trigger] src[base + k * stride] <= high,
    ensures
        low <= box_mean(src, base, stride, len, at, radius) <= high,
{
    let n = 2 * radius + 1;
    lemma_box_sum_range(src, base, stride, len, at - radius, n, low, high);
    let total = box_sum(src, base, stride, len, at - radius, n);
    assert(low <= total / n <= high) by (nonlinear_arith)
        requires
            n >= 1,
            low * n <= total <= high * n,
    ;
}

proof fn lemma_box_sum_range(
    src: Seq<u8>,
    base: int,
    stride: int,
    len: int,
    lo: int,
    n: int,
    low: int,
    high: int,
)
    requires
        len >= 1,
        n >= 0,
        forall|k: int| 0 <= k < len ==> low <= #[trigger] src[base + k * stride] <= high,
    ensures
        low * n <= box_sum(src, base, stride, len, lo, n) <= high * n,
    decreases n,
{
    if n > 0 {
        lemma_box_sum_range(src, base, stride, len, lo, n - 1, low, high);
        let k = clamp_index(lo + n - 1, len);
        assert(low <= src[base + k * stride] <= high);
        assert(low * n == low * (n - 1) + low && high * n == high * (n - 1) + high)
            by (nonlinear_arith);
    } else {
        assert(low * 0 == 0 && high * 0 == 0) by (nonlinear_arith);
    }
}

/// Byte `i` of the finished effect.
pub open spec fn effect_byte(
    pixels: Seq<u8>,
    scratch: Seq<u8>,
    width: int,
    height: int,
    radius: int,
    transparency_percent: int,
    i: int,
) -> u8 {
    vertical_pass(
        horizontal_pass(pixels, scratch, width, radius),
        pixels,
        width,
        height,
        radius,
        transparency_percent,
    )[i]
}

proof fn lemma_column_offset(x: int, k: int, width: int, channel: int)
    ensures
        byte_offset(x, 0, width, channel) + k * (width * 4) == byte_offset(x, k, width, channel),
{
    assert(k * (width * 4) == (k * width) * 4) by (nonlinear_arith);
    assert(0 * width == 0) by (nonlinear_arith);
}

/// A colour channel that is uniform over the image is not blurred: the effect
/// only mixes it with the tint.
pub proof fn uniform_channel_is_only_tinted(
    pixels: Seq<u8>,
    scratch: Seq<u8>,
    width: int,
    height: int,
    radius: int,
    transparency_percent: int,
    i: int,
    value: u8,
)
    requires
        width >= 1,
        height >= 1,
        radius >= 0,
        0 <= transparency_percent <= 100,
        pixels.len() == width * height * 4,
        0 <= i < pixels.len(),
        i % 4 != 3,
        forall|k: int| 0 <= k < pixels.len() && k % 4 == i % 4 ==> pixels[k] == value,
    ensures
        effect_byte(pixels, scratch, width, height, radius, transparency_percent, i) == tinted(
            value as int,
            i % 4,
            transparency_percent,
        ),
{
    let c = i % 4;
    let horizontal = horizontal_pass(pixels, scratch, width, radius);
    assert forall|j: int| 0 <= j < pixels.len() && j % 4 == c implies horizontal[j] == value by {
        lemma_encode(j, width);
        lemma_row_in_range(j, width, height);
        let row = row_of(j, width);
        let base = byte_offset(0, row, width, c);
        assert forall|k: int| 0 <= k < width implies value <= #[trigger] pixels[base + k * 4]
            <= value by {
            lemma_offset_in_range(k, row, width, height, c);
            lemma_decode(k, row, width, c);
            assert(base + k * 4 == byte_offset(k, row, width, c));
        }
        box_mean_stays_in_range(
            pixels,
            base,
            4,
            width,
            column_of(j, width),
            radius,
            value as int,
            value as int,
        );
    }
    lemma_encode(i, width);
    let x = column_of(i, width);
    let base = byte_offset(x, 0, width, c);
    assert forall|k: int| 0 <= k < height implies value <= #[trigger] horizontal[base + k * (width
        * 4)] <= value by {
        lemma_column_offset(x, k, width, c);
        lemma_offset_in_range(x, k, width, height, c);
        lemma_decode(x, k, width, c);
    }
    box_mean_stays_in_range(
        horizontal,
        base,
        width * 4,
        height,
        row_of(i, width),
        radius,
        value as int,
        value as int,
    );
    lemma_tinted_fits(value as int, c, transparency_percent);
}

proof fn lemma_tinted_fits(value: int, channel: int, transparency_percent: int)
    requires
        0 <= value <= 255,
        0 <= transparency_percent <= 100,
    ensures
        0 <= tinted(value, channel, transparency_percent) <= 255,
{
    let opacity = backdrop_opacity(transparency_percent);
    assert(0 <= value * opacity <= 255 * opacity) by (nonlinear_arith)
        requires
            0 <= value <= 255,
            0 <= opacity,
    ;
}

/// At zero transparency nothing of the backdrop shows: every colour byte is the
/// tint of its channel.
pub proof fn zero_transparency_is_the_plain_tint(
    pixels: Seq<u8>,
    scratch: Seq<u8>,
    width: int,
    height: int,
    radius: int,
    i: int,
)
    requires
        width >= 1,
        height >= 1,
        radius >= 0,
        0 <= i < pixels.len(),
        i % 4 != 3,
    ensures
        effect_byte(pixels, scratch, width, height, radius, 0, i) == tint(i % 4),
{
    let mean = box_mean(
        horizontal_pass(pixels, scratch, width, radius),
        byte_offset(column_of(i, width), 0, width, i % 4),
        width * 4,
        height,
        row_of(i, width),
        radius,
    );
    assert(backdrop_opacity(0) == 0);
    assert(mean * 0 == 0) by (nonlinear_arith);
}

/// Lines with the same samples have the same sums.
proof fn lemma_same_sum(
    one: Seq<u8>,
    other: Seq<u8>,
    base: int,
    stride: int,
    len: int,
    lo: int,
    n: int,
)
    requires
        len >= 1,
        forall|k: int| 0 <= k < len ==> #[trigger] one[base + k * stride] == other[base + k * stride],
    ensures
        box_sum(one, base, stride, len, lo, n) == box_sum(other, base, stride, len, lo, n),
    decreases n,
{
    if n > 0 {
        lemma_same_sum(one, other, base, stride, len, lo, n - 1);
        let k = clamp_index(lo + n - 1, len);
        assert(one[base + k * stride] == other[base + k * stride]);
    }
}

/// Scratch storage can be used again and again: what it held before does not show
/// in the effect.
pub proof fn earlier_scratch_does_not_show(
    pixels: Seq<u8>,
    scratch: Seq<u8>,
    other: Seq<u8>,
    width: int,
    height: int,
    radius: int,
    transparency_percent: int,
)
    requires
        width >= 1,
        height >= 1,
        pixels.len() == width * height * 4,
    ensures
        vertical_pass(
            horizontal_pass(pixels, scratch, width, radius),
            pixels,
            width,
            height,
            radius,
            transparency_percent,
        ) == vertical_pass(
            horizontal_pass(pixels, other, width, radius),
            pixels,
            width,
            height,
            radius,
            transparency_percent,
        ),
{
    let one = horizontal_pass(pixels, scratch, width, radius);
    let two = horizontal_pass(pixels, other, width, radius);
    let first = vertical_pass(one, pixels, width, height, radius, transparency_percent);
    let second = vertical_pass(two, pixels, width, height, radius, transparency_percent);
    assert forall|i: int| 0 <= i < pixels.len() implies first[i] == second[i] by {
        let c = i % 4;
        if c != 3 {
            lemma_encode(i, width);
            let x = column_of(i, width);
            let base = byte_offset(x, 0, width, c);
            assert forall|k: int| 0 <= k < height implies #[trigger] one[base + k * (width * 4)]
                == two[base + k * (width * 4)] by {
                lemma_column_offset(x, k, width, c);
                lemma_offset_in_range(x, k, width, height, c);
                lemma_decode(x, k, width, c);
            }
            lemma_same_sum(
                one,
                two,
                base,
                width * 4,
                height,
                row_of(i, width) - radius,
                2 * radius + 1,
            );
        }
    }
    assert(first =~= second);
}

/// How many of the `n` positions from `lo` on take sample `p` of a line: the one at
/// `p` itself, and for the first and the last sample also those beyond the end.
pub open spec fn share_of(p: int, len: int, lo: int, n: int) -> int {
    let from = if p == 0 || lo >= p {
        lo
    } else {
        p
    };
    let to = if p == len - 1 || lo + n <= p + 1 {
        lo + n
    } else {
        p + 1
    };
    if to > from {
        to - from
    } else {
        0
    }
}

/// Every sample weighs the same: where two lines differ in one sample, the sums of a
/// window differ by that difference once for every position that takes the sample.
pub proof fn one_sample_weighs_its_share(
    one: Seq<u8>,
    other: Seq<u8>,
    base: int,
    stride: int,
    len: int,
    lo: int,
    n: int,
    p: int,
)
    requires
        0 <= p < len,
        n >= 0,
        forall|k: int|
            0 <= k < len && k != p ==> #[trigger] one[base + k * stride] == other[base + k
                * stride],
    ensures
        box_sum(other, base, stride, len, lo, n) - box_sum(one, base, stride, len, lo, n)
            == share_of(p, len, lo, n) * (other[base + p * stride] - one[base + p * stride]),
    decreases n,
{
    let d = other[base + p * stride] - one[base + p * stride];
    if n == 0 {
        assert(0 * d == 0) by (nonlinear_arith);
    } else {
        one_sample_weighs_its_share(one, other, base, stride, len, lo, n - 1, p);
        let before = share_of(p, len, lo, n - 1);
        let k = clamp_index(lo + n - 1, len);
        if k == p {
            assert(share_of(p, len, lo, n) == before + 1);
        } else {
            assert(one[base + k * stride] == other[base + k * stride]);
            assert(share_of(p, len, lo, n) == before);
        }
        assert((before + 1) * d == before * d + d) by (nonlinear_arith);
    }
}

/// The mean at a sample reaches equally far to both sides: a sample inside the line
/// counts once where it is at most the radius away, and not at all further off. The
/// mean is the sum over `2 * radius + 1` positions, rounded down.
pub proof fn means_reach_to_both_sides(
    src: Seq<u8>,
    base: int,
    stride: int,
    len: int,
    at: int,
    radius: int,
    p: int,
)
    requires
        0 <= at < len,
        0 < p < len - 1,
        radius >= 0,
    ensures
        share_of(p, len, at - radius, 2 * radius + 1) == (if -radius <= p - at <= radius {
            1int
        } else {
            0
        }),
        ({
            let sum = box_sum(src, base, stride, len, at - radius, 2 * radius + 1);
            let mean = box_mean(src, base, stride, len, at, radius);
            (2 * radius + 1) * mean <= sum < (2 * radius + 1) * mean + 2 * radius + 1
        }),
{
    let n = 2 * radius + 1;
    lemma_fundamental_div_mod(box_sum(src, base, stride, len, at - radius, n), n);
}

/// A line of zeros sums to nothing.
pub proof fn dark_lines_stay_dark(
    src: Seq<u8>,
    base: int,
    stride: int,
    len: int,
    at: int,
    radius: int,
)
    requires
        len >= 1,
        radius >= 0,
        forall|k: int| 0 <= k < len ==> #[trigger] src[base + k * stride] == 0,
    ensures
        box_sum(src, base, stride, len, at - radius, 2 * radius + 1) == 0,
        box_mean(src, base, stride, len, at, radius) == 0,
{
    let n = 2 * radius + 1;
    lemma_box_sum_range(src, base, stride, len, at - radius, n, 0, 0);
    assert(0 * n == 0) by (nonlinear_arith);
    box_mean_stays_in_range(src, base, stride, len, at, radius, 0, 0);
}

/// Mixing rounds to the nearest integer, lies between the value and the tint, and a
/// brighter value never gives a darker mixture. Without transparency it is the tint,
/// and with all of it the value.
pub proof fn mixtures_lie_between_value_and_tint(
    value: int,
    brighter: int,
    channel: int,
    transparency_percent: int,
)
    requires
        0 <= value <= brighter <= 255,
        0 <= transparency_percent <= 100,
    ensures
        ({
            let mixture = tinted(value, channel, transparency_percent);
            let shade = tint(channel);
            &&& value <= shade ==> value <= mixture <= shade
            &&& shade <= value ==> shade <= mixture <= value
            &&& mixture <= tinted(brighter, channel, transparency_percent)
            &&& transparency_percent == 0 ==> mixture == shade
            &&& transparency_percent == 100 ==> mixture == value
        }),
        ({
            let opacity = backdrop_opacity(transparency_percent);
            let exact = value * opacity + tint(channel) * (255 - opacity);
            -127 <= 255 * tinted(value, channel, transparency_percent) - exact <= 127
        }),
{
    opacities_follow_the_transparency(transparency_percent, transparency_percent);
    let opacity = backdrop_opacity(transparency_percent);
    let shade = tint(channel);
    assert(value * opacity <= brighter * opacity) by (nonlinear_arith)
        requires
            value <= brighter,
            0 <= opacity,
    ;
    let exact = value * opacity + shade * (255 - opacity);
    assert(value <= shade ==> 255 * value <= exact <= 255 * shade) by (nonlinear_arith)
        requires
            exact == value * opacity + shade * (255 - opacity),
            0 <= opacity <= 255,
    ;
    assert(shade <= value ==> 255 * shade <= exact <= 255 * value) by (nonlinear_arith)
        requires
            exact == value * opacity + shade * (255 - opacity),
            0 <= opacity <= 255,
    ;
    assert(opacity == 0 ==> value * opacity == 0) by (nonlinear_arith);
    assert(opacity == 255 ==> value * opacity == 255 * value) by (nonlinear_arith);
}

/// The weight of the backdrop is the transparency as a share of 255, to the nearest
/// integer; more transparency never shows less of it.
pub proof fn opacities_follow_the_transparency(transparency_percent: int, more: int)
    requires
        0 <= transparency_percent <= more <= 100,
    ensures
        0 <= backdrop_opacity(transparency_percent) <= backdrop_opacity(more) <= 255,
        -50 <= 100 * backdrop_opacity(transparency_percent) - 255 * transparency_percent <= 50,
        backdrop_opacity(0) == 0,
        backdrop_opacity(100) == 255,
{
}

/// Windows with the same samples have the same sums.
proof fn lemma_same_window(
    one: Seq<u8>,
    other: Seq<u8>,
    base: int,
    other_base: int,
    stride: int,
    other_stride: int,
    len: int,
    lo: int,
    n: int,
)
    requires
        forall|k: int|
            0 <= k < len && clamp_index(lo, len) <= k <= clamp_index(lo + n - 1, len)
                ==> #[trigger] one[base + k * stride] == other[other_base + k * other_stride],
        len >= 1,
    ensures
        box_sum(one, base, stride, len, lo, n) == box_sum(
            other,
            other_base,
            other_stride,
            len,
            lo,
            n,
        ),
    decreases n,
{
    if n > 0 {
        lemma_same_window(one, other, base, other_base, stride, other_stride, len, lo, n - 1);
        let k = clamp_index(lo + n - 1, len);
        assert(one[base + k * stride] == other[other_base + k * other_stride]);
    }
}

/// The effect at a pixel depends on its own channel alone, and there only on pixels
/// at most the radius away along both axes.
pub proof fn blurs_stay_within_the_radius(
    one: Seq<u8>,
    other: Seq<u8>,
    scratch: Seq<u8>,
    width: int,
    height: int,
    radius: int,
    transparency_percent: int,
    x: int,
    y: int,
    channel: int,
)
    requires
        one.len() == width * height * 4,
        other.len() == one.len(),
        radius >= 0,
        0 <= x < width,
        0 <= y < height,
        0 <= channel < 3,
        forall|column: int, row: int|
            0 <= column < width && 0 <= row < height && -radius <= column - x <= radius && -radius
                <= row - y <= radius ==> #[trigger] one[byte_offset(column, row, width, channel)]
                == other[byte_offset(column, row, width, channel)],
    ensures
        ({
            let i = byte_offset(x, y, width, channel);
            effect_byte(one, scratch, width, height, radius, transparency_percent, i)
                == effect_byte(other, scratch, width, height, radius, transparency_percent, i)
        }),
{
    let i = byte_offset(x, y, width, channel);
    let a = horizontal_pass(one, scratch, width, radius);
    let b = horizontal_pass(other, scratch, width, radius);
    lemma_offset_in_range(x, y, width, height, channel);
    lemma_decode(x, y, width, channel);
    let base = byte_offset(x, 0, width, channel);
    let n = 2 * radius + 1;
    assert forall|k: int|
        0 <= k < height && clamp_index(y - radius, height) <= k <= clamp_index(
            y - radius + n - 1,
            height,
        ) implies #[trigger] a[base + k * (width * 4)] == b[base + k * (width * 4)] by {
        lemma_column_offset(x, k, width, channel);
        lemma_offset_in_range(x, k, width, height, channel);
        lemma_decode(x, k, width, channel);
        let line = byte_offset(0, k, width, channel);
        assert forall|c: int|
            0 <= c < width && clamp_index(x - radius, width) <= c <= clamp_index(
                x - radius + n - 1,
                width,
            ) implies #[trigger] one[line + c * 4] == other[line + c * 4] by {
            assert(line + c * 4 == byte_offset(c, k, width, channel));
        }
        lemma_same_window(one, other, line, line, 4, 4, width, x - radius, n);
    }
    lemma_same_window(a, b, base, base, width * 4, width * 4, height, y - radius, n);
}

/// Where all rows of a channel are alike, the effect is the mean along the row, mixed
/// with the tint; where all columns are, it is the mean along the column.
pub proof fn stripes_are_blurred_across(
    pixels: Seq<u8>,
    scratch: Seq<u8>,
    width: int,
    height: int,
    radius: int,
    transparency_percent: int,
    x: int,
    y: int,
    channel: int,
)
    requires
        pixels.len() == width * height * 4,
        radius >= 0,
        0 <= x < width,
        0 <= y < height,
        0 <= channel < 3,
        0 <= transparency_percent <= 100,
    ensures
        ({
            let i = byte_offset(x, y, width, channel);
            let effect = effect_byte(
                pixels,
                scratch,
                width,
                height,
                radius,
                transparency_percent,
                i,
            );
            &&& (forall|column: int, row: int|
                0 <= column < width && 0 <= row < height ==> #[trigger] pixels[byte_offset(
                    column,
                    row,
                    width,
                    channel,
                )] == pixels[byte_offset(column, y, width, channel)]) ==> effect == tinted(
                box_mean(
                    pixels,
                    byte_offset(0, y, width, channel),
                    4,
                    width,
                    x,
                    radius,
                ),
                channel,
                transparency_percent,
            )
            &&& (forall|column: int, row: int|
                0 <= column < width && 0 <= row < height ==> #[trigger] pixels[byte_offset(
                    column,
                    row,
                    width,
                    channel,
                )] == pixels[byte_offset(x, row, width, channel)]) ==> effect == tinted(
                box_mean(
                    pixels,
                    byte_offset(x, 0, width, channel),
                    width * 4,
                    height,
                    y,
                    radius,
                ),
                channel,
                transparency_percent,
            )
        }),
{
    let i = byte_offset(x, y, width, channel);
    let n = 2 * radius + 1;
    let blurred = horizontal_pass(pixels, scratch, width, radius);
    let base = byte_offset(x, 0, width, channel);
    lemma_offset_in_range(x, y, width, height, channel);
    lemma_decode(x, y, width, channel);
    let row_mean = box_mean(pixels, byte_offset(0, y, width, channel), 4, width, x, radius);
    let column_mean = box_mean(pixels, base, width * 4, height, y, radius);
    lemma_mean_is_byte(pixels, byte_offset(0, y, width, channel), 4, width, x, radius);
    lemma_mean_is_byte(pixels, base, width * 4, height, y, radius);
    lemma_tinted_fits(row_mean, channel, transparency_percent);
    lemma_tinted_fits(column_mean, channel, transparency_percent);
    if forall|column: int, row: int|
        0 <= column < width && 0 <= row < height ==> #[trigger] pixels[byte_offset(
            column,
            row,
            width,
            channel,
        )] == pixels[byte_offset(column, y, width, channel)] {
        assert forall|k: int| 0 <= k < height implies row_mean <= #[trigger] blurred[base + k * (
        width * 4)] <= row_mean by {
            lemma_column_offset(x, k, width, channel);
            lemma_offset_in_range(x, k, width, height, channel);
            lemma_decode(x, k, width, channel);
            let (here, there) = (
                byte_offset(0, k, width, channel),
                byte_offset(0, y, width, channel),
            );
            assert forall|c: int| 0 <= c < width implies #[trigger] pixels[here + c * 4]
                == pixels[there + c * 4] by {
                assert(here + c * 4 == byte_offset(c, k, width, channel));
                assert(there + c * 4 == byte_offset(c, y, width, channel));
            }
            lemma_same_window(pixels, pixels, here, there, 4, 4, width, x - radius, n);
        }
        box_mean_stays_in_range(
            blurred,
            base,
            width * 4,
            height,
            y,
            radius,
            row_mean,
            row_mean,
        );
    }
    if forall|column: int, row: int|
        0 <= column < width && 0 <= row < height ==> #[trigger] pixels[byte_offset(
            column,
            row,
            width,
            channel,
        )] == pixels[byte_offset(x, row, width, channel)] {
        assert forall|k: int| 0 <= k < height implies #[trigger] blurred[base + k * (width * 4)]
            == pixels[base + k * (width * 4)] by {
            lemma_column_offset(x, k, width, channel);
            lemma_offset_in_range(x, k, width, height, channel);
            lemma_decode(x, k, width, channel);
            let value = pixels[byte_offset(x, k, width, channel)] as int;
            let line = byte_offset(0, k, width, channel);
            assert forall|c: int| 0 <= c < width implies value <= #[trigger] pixels[line + c * 4]
                <= value by {
                assert(line + c * 4 == byte_offset(c, k, width, channel));
            }
            box_mean_stays_in_range(pixels, line, 4, width, x, radius, value, value);
        }
        lemma_same_window(
            blurred,
            pixels,
            base,
            base,
            width * 4,
            width * 4,
            height,
            y - radius,
            n,
        );
    }
}

/// A mean of bytes is a byte.
proof fn lemma_mean_is_byte(
    src: Seq<u8>,
    base: int,
    stride: int,
    len: int,
    at: int,
    radius: int,
)
    requires
        len >= 1,
        radius >= 0,
    ensures
        0 <= box_mean(src, base, stride, len, at, radius) <= 255,
{
    box_mean_stays_in_range(src, base, stride, len, at, radius, 0, 255);
}

/// The effect can be had exactly for an image with pixels, whose bytes and scratch bytes
/// have its size, a radius whose sums can be counted, and at most a hundred percent.
pub proof fn effects_need_a_complete_image(
    pixels_len: int,
    scratch_len: int,
    width: int,
    height: int,
    radius: int,
    transparency_percent: int,
)
    requires
        0 <= width,
        0 <= height,
        0 <= radius,
        pixels_len <= usize::MAX,
    ensures
        effect_error(
            pixels_len,
            scratch_len,
            width,
            height,
            radius,
            transparency_percent,
        ) is None <==> 1 <= width && 1 <= height && pixels_len == 4 * (width * height)
            && scratch_len == pixels_len && 255 * (2 * radius + 1) <= u32::MAX
            && transparency_percent <= 100,
        effect_error(
            pixels_len,
            scratch_len,
            width,
            height,
            radius,
            transparency_percent,
        ) == Some(PixelEffectError::EmptyImage) <==> width == 0 || height == 0,
{
}

/// Beyond its ends a line goes on with its first and its last sample.
pub proof fn lines_go_on_with_their_ends(i: int, len: int)
    requires
        len >= 1,
    ensures
        0 <= clamp_index(i, len) < len,
        0 <= i < len ==> clamp_index(i, len) == i,
        i <= 0 ==> clamp_index(i, len) == 0,
        i >= len - 1 ==> clamp_index(i, len) == len - 1,
{
}

} // verus!
