use vstd::prelude::*;
use vstd::arithmetic::div_mod::lemma_fundamental_div_mod_converse;
use vstd::arithmetic::mul::lemma_mul_inequality;

verus! {

/// The cursor image the X server hands out: the cursor's position, its hotspot, its size
/// and its pixels, row by row, each a 32-bit ARGB value with red in the lowest byte.
/// Coordinates are as `usize` conversions of the server's values give them.
pub struct CursorImage {
    pub x: usize,
    pub y: usize,
    pub xhot: usize,
    pub yhot: usize,
    pub width: usize,
    pub height: usize,
    pub pixels: Vec<u32>,
}

/// The area of the screen a screenshot covers, in pixels.
#[derive(Clone, Copy, Debug, PartialEq, Eq, Structural)]
pub struct ScreenBounds {
    pub x: usize,
    pub y: usize,
    pub w: usize,
    pub h: usize,
}

/// The column, in the screenshot, of the cursor's top-left corner.
pub open spec fn cursor_left(cursor: CursorImage, bounds: ScreenBounds) -> int {
    (if cursor.x >= cursor.xhot { cursor.x - cursor.xhot } else { 0 }) - bounds.x
}

/// The row, in the screenshot, of the cursor's top-left corner.
pub open spec fn cursor_top(cursor: CursorImage, bounds: ScreenBounds) -> int {
    (if cursor.y >= cursor.yhot { cursor.y - cursor.yhot } else { 0 }) - bounds.y
}

/// How many columns of the cursor are drawn: those that fit in the screenshot.
pub open spec fn draw_width(cursor: CursorImage, bounds: ScreenBounds) -> int {
    let room = bounds.w - cursor_left(cursor, bounds);
    if cursor.width <= room { cursor.width as int } else { room }
}

/// How many rows of the cursor are drawn: those that fit in the screenshot.
pub open spec fn draw_height(cursor: CursorImage, bounds: ScreenBounds) -> int {
    let room = bounds.h - cursor_top(cursor, bounds);
    if cursor.height <= room { cursor.height as int } else { room }
}

/// The inputs on which overlaying stays within both images and within `usize`.
pub open spec fn overlay_in_bounds(cursor: CursorImage, bounds: ScreenBounds, screenshot_len: int) -> bool {
    let left = cursor_left(cursor, bounds);
    let top = cursor_top(cursor, bounds);
    let wd = draw_width(cursor, bounds);
    let hd = draw_height(cursor, bounds);
    &&& left >= 0
    &&& top >= 0
    &&& bounds.w >= left
    &&& bounds.h >= top
    &&& wd > 0 && hd > 0 ==> {
        &&& (hd - 1) * cursor.width + (wd - 1) < cursor.pixels@.len()
        &&& 4 * bounds.w <= usize::MAX
        &&& 4 * bounds.w * (top + hd - 1) + 4 * (left + wd - 1) + 2 < screenshot_len
    }
}

/// `target + source * (255 - alpha) / 255`, rounded, as a byte: the cursor channel over
/// the screenshot channel.
pub open spec fn blend(target: int, source: int, alpha: int) -> u8 {
    ((target + (source * (255 - alpha) + 127) / 255) % 256) as u8
}

pub open spec fn alpha_of(c: u32) -> int {
    (c / 0x100_0000) as int
}

pub open spec fn red_of(c: u32) -> int {
    (c % 0x100) as int
}

pub open spec fn green_of(c: u32) -> int {
    ((c / 0x100) % 0x100) as int
}

pub open spec fn blue_of(c: u32) -> int {
    ((c / 0x1_0000) % 0x100) as int
}

/// Which cursor pixel `(column, row)` and channel (0 red, 1 green, 2 blue) the screenshot
/// byte `idx` shows, if any. Screenshot pixels are 4 bytes, the fourth unused.
pub open spec fn overlay_target(
    idx: int,
    bounds_w: int,
    left: int,
    top: int,
    wd: int,
    hd: int,
) -> Option<(int, int, int)> {
    let stride = 4 * bounds_w;
    if stride <= 0 {
        None
    } else {
        let row = idx / stride;
        let col = idx % stride;
        if top <= row < top + hd && 4 * left <= col < 4 * (left + wd) && col % 4 < 3 {
            Some((col / 4 - left, row - top, col % 4))
        } else {
            None
        }
    }
}

/// The new value of byte `idx` of the screenshot, channel `k` of a pixel that shows the
/// cursor pixel `c`. Opaque cursor pixels replace the screenshot's, transparent ones keep
/// it, and the others are blended over it, each channel with its own old byte.
pub open spec fn overlaid_byte(old: Seq<u8>, c: u32, idx: int, k: int) -> u8 {
    let a = alpha_of(c);
    if a == 255 {
        if k == 0 {
            red_of(c) as u8
        } else if k == 1 {
            green_of(c) as u8
        } else {
            blue_of(c) as u8
        }
    } else if a == 0 {
        old[idx]
    } else if k == 0 {
        blend(red_of(c), old[idx] as int, a)
    } else if k == 1 {
        blend(green_of(c), old[idx] as int, a)
    } else {
        blend(blue_of(c), old[idx] as int, a)
    }
}

/// The byte `idx` of the screenshot with the cursor overlaid.
pub open spec fn overlay_byte(old: Seq<u8>, cursor: CursorImage, bounds: ScreenBounds, idx: int) -> u8 {
    match overlay_target(
        idx,
        bounds.w as int,
        cursor_left(cursor, bounds),
        cursor_top(cursor, bounds),
        draw_width(cursor, bounds),
        draw_height(cursor, bounds),
    ) {
        Some((px, py, k)) => overlaid_byte(old, cursor.pixels@[py * cursor.width + px], idx, k),
        None => old[idx],
    }
}

proof fn lemma_target_of_pixel(bw: int, left: int, top: int, wd: int, hd: int, px: int, py: int, k: int)
    requires
        bw > 0,
        left >= 0,
        top >= 0,
        left + wd <= bw,
        0 <= px < wd,
        0 <= py < hd,
        0 <= k < 3,
    ensures
        overlay_target(4 * bw * (top + py) + 4 * (left + px) + k, bw, left, top, wd, hd) == Some(
            (px, py, k),
        ),
{
    let stride = 4 * bw;
    let idx = stride * (top + py) + 4 * (left + px) + k;
    let col = 4 * (left + px) + k;
    assert(0 <= col < stride);
    assert(idx == (top + py) * stride + col) by (nonlinear_arith)
        requires
            idx == stride * (top + py) + col,
    ;
    lemma_fundamental_div_mod_converse(idx, stride, top + py, col);
    lemma_fundamental_div_mod_converse(col, 4, left + px, k);
}

proof fn lemma_pixel_of_target(idx: int, bw: int, left: int, top: int, wd: int, hd: int)
    requires
        idx >= 0,
        overlay_target(idx, bw, left, top, wd, hd) is Some,
    ensures
        ({
            let (px, py, k) = overlay_target(idx, bw, left, top, wd, hd)->Some_0;
            idx == 4 * bw * (top + py) + 4 * (left + px) + k
        }),
{
    let stride = 4 * bw;
    let row = idx / stride;
    let col = idx % stride;
    vstd::arithmetic::div_mod::lemma_fundamental_div_mod(idx, stride);
    vstd::arithmetic::div_mod::lemma_fundamental_div_mod(col, 4);
    assert(stride * row == 4 * bw * row);
}

/// Extracts the channels of an ARGB cursor pixel.
fn channels(c: u32) -> (rgba: (u32, u32, u32, u32))
    ensures
        rgba.0 == red_of(c),
        rgba.1 == green_of(c),
        rgba.2 == blue_of(c),
        rgba.3 == alpha_of(c),
{
    let r = c >> 0u32 & 0xff;
    let g = c >> 8u32 & 0xff;
    let b = c >> 16u32 & 0xff;
    let a = c >> 24u32 & 0xff;
    assert(r == c % 0x100 && g == (c / 0x100) % 0x100 && b == (c / 0x1_0000) % 0x100 && a == c
        / 0x100_0000) by (bit_vector)
        requires
            r == c >> 0u32 & 0xff,
            g == c >> 8u32 & 0xff,
            b == c >> 16u32 & 0xff,
            a == c >> 24u32 & 0xff,
    ;
    (r, g, b, a)
}

fn blend_channel(target: u32, source: u32, alpha: u32) -> (blended: u8)
    requires
        target < 256,
        source < 256,
        0 < alpha < 255,
    ensures
        blended == blend(target as int, source as int, alpha as int),
{
    assert(source * (255 - alpha) <= 255 * 255) by (nonlinear_arith)
        requires
            source < 256,
            alpha < 255,
    ;
    let blended = target + (source * (255 - alpha) + 255 / 2) / 255;
    (blended % 256) as u8
}

/// Whether the cursor can be drawn over a screenshot of `screenshot_len` bytes: it starts
/// inside the screenshot, and what is drawn of it lies within both images.
pub fn cursor_fits(cursor: &CursorImage, bounds: ScreenBounds, screenshot_len: usize) -> (fits: bool)
    ensures
        fits == overlay_in_bounds(*cursor, bounds, screenshot_len as int),
{
    let cx = cursor.x.saturating_sub(cursor.xhot);
    let cy = cursor.y.saturating_sub(cursor.yhot);
    if cx < bounds.x || cy < bounds.y {
        return false;
    }
    let left = cx - bounds.x;
    let top = cy - bounds.y;
    if bounds.w < left || bounds.h < top {
        return false;
    }
    let wd = if cursor.width <= bounds.w - left {
        cursor.width
    } else {
        bounds.w - left
    };
    let hd = if cursor.height <= bounds.h - top {
        cursor.height
    } else {
        bounds.h - top
    };
    if wd == 0 || hd == 0 {
        return true;
    }
    assert(hd == draw_height(*cursor, bounds) && wd == draw_width(*cursor, bounds));
    let pixel_count = cursor.pixels.len();
    let last_row = match (hd - 1).checked_mul(cursor.width) {
        Some(v) => v,
        None => {
            assert((hd - 1) * cursor.width + (wd - 1) >= (hd - 1) * cursor.width);
            return false;
        },
    };
    let last_pixel = match last_row.checked_add(wd - 1) {
        Some(v) => v,
        None => return false,
    };
    if last_pixel >= pixel_count {
        return false;
    }
    let stride = match bounds.w.checked_mul(4) {
        Some(v) => v,
        None => return false,
    };
    let rows = match stride.checked_mul(top + hd - 1) {
        Some(v) => v,
        None => {
            assert(4 * bounds.w * (top + hd - 1) + 4 * (left + wd - 1) + 2 >= stride * (top + hd - 1)) by (nonlinear_arith)
                requires
                    stride == 4 * bounds.w,
                    left + wd >= 1,
            ;
            return false;
        },
    };
    let columns = 4 * (left + wd - 1);
    let end = match rows.checked_add(columns) {
        Some(v) => v,
        None => return false,
    };
    let end = match end.checked_add(2) {
        Some(v) => v,
        None => return false,
    };
    assert(end == 4 * bounds.w * (top + hd - 1) + 4 * (left + wd - 1) + 2) by (nonlinear_arith)
        requires
            stride == 4 * bounds.w,
            rows == stride * (top + hd - 1),
            end == rows + columns + 2,
            columns == 4 * (left + wd - 1),
    ;
    end < screenshot_len
}

/// Draws the cursor over the screenshot, a buffer of 4-byte pixels (the fourth byte
/// unused) `bounds.w` pixels wide, clipping the cursor at the screenshot's right and
/// bottom edges.
pub fn overlay_cursor(cursor: &CursorImage, screenshot: &mut Vec<u8>, bounds: ScreenBounds)
    requires
        overlay_in_bounds(*cursor, bounds, old(screenshot)@.len() as int),
    ensures
        final(screenshot)@.len() == old(screenshot)@.len(),
        forall|idx: int|
            0 <= idx < old(screenshot)@.len() ==> #[trigger] final(screenshot)@[idx] == overlay_byte(
                old(screenshot)@,
                *cursor,
                bounds,
                idx,
            ),
{
    let ghost old_screen = screenshot@;
    let ghost left = cursor_left(*cursor, bounds);
    let ghost top = cursor_top(*cursor, bounds);
    // The cursor may stick out of the screen's top-left corner, hence the saturation.
    let cx = cursor.x.saturating_sub(cursor.xhot) - bounds.x;
    let cy = cursor.y.saturating_sub(cursor.yhot) - bounds.y;
    let w = cursor.width;
    let h = cursor.height;
    // Clip so that no write is out of bounds or wraps to the other side of the screen.
    let w_draw = if w < bounds.w - cx { w } else { bounds.w - cx };
    let h_draw = if h < bounds.h - cy { h } else { bounds.h - cy };
    let ghost wd = w_draw as int;
    let ghost hd = h_draw as int;
    assert(wd == draw_width(*cursor, bounds) && hd == draw_height(*cursor, bounds));
    if w_draw == 0 || h_draw == 0 {
        assert forall|idx: int| 0 <= idx < old_screen.len() implies #[trigger] screenshot@[idx]
            == overlay_byte(old_screen, *cursor, bounds, idx) by {}
        return;
    }
    let stride = 4 * bounds.w;
    let mut x: usize = 0;
    while x < w_draw
        invariant
            overlay_in_bounds(*cursor, bounds, old_screen.len() as int),
            left == cx,
            top == cy,
            left == cursor_left(*cursor, bounds),
            top == cursor_top(*cursor, bounds),
            wd == draw_width(*cursor, bounds),
            hd == draw_height(*cursor, bounds),
            wd == w_draw,
            hd == h_draw,
            wd > 0,
            hd > 0,
            stride == 4 * bounds.w,
            w == cursor.width,
            x <= w_draw,
            screenshot@.len() == old_screen.len(),
            forall|idx: int|
                0 <= idx < old_screen.len() ==> #[trigger] screenshot@[idx] == match overlay_target(
                    idx,
                    bounds.w as int,
                    left,
                    top,
                    wd,
                    hd,
                ) {
                    Some((px, py, k)) => if px < x {
                        overlay_byte(old_screen, *cursor, bounds, idx)
                    } else {
                        old_screen[idx]
                    },
                    None => old_screen[idx],
                },
        decreases w_draw - x,
    {
        let mut y: usize = 0;
        while y < h_draw
            invariant
                overlay_in_bounds(*cursor, bounds, old_screen.len() as int),
                left == cx,
                top == cy,
                left == cursor_left(*cursor, bounds),
                top == cursor_top(*cursor, bounds),
                wd == draw_width(*cursor, bounds),
                hd == draw_height(*cursor, bounds),
                wd == w_draw,
                hd == h_draw,
                wd > 0,
                hd > 0,
                stride == 4 * bounds.w,
                w == cursor.width,
                x < w_draw,
                y <= h_draw,
                screenshot@.len() == old_screen.len(),
                forall|idx: int|
                    0 <= idx < old_screen.len() ==> #[trigger] screenshot@[idx] == match overlay_target(
                        idx,
                        bounds.w as int,
                        left,
                        top,
                        wd,
                        hd,
                    ) {
                        Some((px, py, k)) => if px < x || (px == x && py < y) {
                            overlay_byte(old_screen, *cursor, bounds, idx)
                        } else {
                            old_screen[idx]
                        },
                        None => old_screen[idx],
                    },
            decreases h_draw - y,
        {
            proof {
                lemma_mul_inequality(y as int, hd - 1, w as int);
                lemma_mul_inequality(top + y, top + hd - 1, stride as int);
                assert((top + y) * stride == stride * (top + y)) by (nonlinear_arith);
                assert((top + hd - 1) * stride == stride * (top + hd - 1)) by (nonlinear_arith);
                assert(y * w == w * y) by (nonlinear_arith);
                assert(y * w <= (hd - 1) * w);
                assert((hd - 1) * cursor.width + (wd - 1) < cursor.pixels@.len());
                assert(y * w + x < cursor.pixels.len());
                assert(stride * (top + y) <= stride * (top + hd - 1));
                assert(4 * bounds.w * (top + hd - 1) + 4 * (left + wd - 1) + 2 < old_screen.len());
                assert(stride * (cy + y) + 4 * (cx + x) + 2 < screenshot.len());
            }
            let i = y * w + x;
            let c = cursor.pixels[i];
            let (r, g, b, a) = channels(c);
            let pixel_idx = stride * (cy + y) + 4 * (cx + x);
            let ghost base = pixel_idx as int;
            proof {
                lemma_target_of_pixel(bounds.w as int, left, top, wd, hd, x as int, y as int, 0);
                lemma_target_of_pixel(bounds.w as int, left, top, wd, hd, x as int, y as int, 1);
                lemma_target_of_pixel(bounds.w as int, left, top, wd, hd, x as int, y as int, 2);
            }
            let ghost before = screenshot@;
            if a == 255 {
                screenshot.set(pixel_idx, r as u8);
                screenshot.set(pixel_idx + 1, g as u8);
                screenshot.set(pixel_idx + 2, b as u8);
            } else if a == 0 {
                // Transparent pixels need no blending.
            } else {
                let red = blend_channel(r, screenshot[pixel_idx] as u32, a);
                screenshot.set(pixel_idx, red);
                let green = blend_channel(g, screenshot[pixel_idx + 1] as u32, a);
                screenshot.set(pixel_idx + 1, green);
                let blue = blend_channel(b, screenshot[pixel_idx + 2] as u32, a);
                screenshot.set(pixel_idx + 2, blue);
            }
            assert forall|idx: int| 0 <= idx < old_screen.len() implies #[trigger] screenshot@[idx]
                == match overlay_target(idx, bounds.w as int, left, top, wd, hd) {
                Some((px, py, k)) => if px < x || (px == x && py < y + 1) {
                    overlay_byte(old_screen, *cursor, bounds, idx)
                } else {
                    old_screen[idx]
                },
                None => old_screen[idx],
            } by {
                if idx == base || idx == base + 1 || idx == base + 2 {
                    assert(before[idx] == old_screen[idx]);
                    assert(before[base + 1] == old_screen[base + 1]);
                    assert(before[base] == old_screen[base]);
                } else {
                    assert(screenshot@[idx] == before[idx]);
                    if overlay_target(idx, bounds.w as int, left, top, wd, hd) is Some {
                        lemma_pixel_of_target(idx, bounds.w as int, left, top, wd, hd);
                    }
                }
            }
            y = y + 1;
        }
        x = x + 1;
    }
}

/// Each cursor pixel that is drawn shows in the screenshot pixel under it, channel by
/// channel: an opaque one replaces the old byte by its own channel, a transparent one
/// keeps the old byte, and a translucent one is laid over it as premultiplied colour is:
/// the cursor's own channel plus the old byte scaled by `(255 - alpha) / 255`, rounded,
/// kept to a byte. So over black a translucent cursor's colour shows as it is, and where
/// the sum fits a byte the result is never darker than the cursor's channel nor than the
/// scaled old byte.
pub proof fn lemma_cursor_pixel_over_screenshot(
    old: Seq<u8>,
    cursor: CursorImage,
    bounds: ScreenBounds,
    px: int,
    py: int,
    k: int,
)
    requires
        overlay_in_bounds(cursor, bounds, old.len() as int),
        0 <= px < draw_width(cursor, bounds),
        0 <= py < draw_height(cursor, bounds),
        0 <= k < 3,
    ensures
        ({
            let c = cursor.pixels@[py * cursor.width + px];
            let alpha = c / 0x100_0000;
            let channel = if k == 0 {
                c % 0x100
            } else if k == 1 {
                (c / 0x100) % 0x100
            } else {
                (c / 0x1_0000) % 0x100
            };
            let idx = 4 * bounds.w * (cursor_top(cursor, bounds) + py) + 4 * (cursor_left(
                cursor,
                bounds,
            ) + px) + k;
            let scaled = (old[idx] * (255 - alpha) + 127) / 255;
            let result = overlay_byte(old, cursor, bounds, idx) as int;
            &&& alpha == 255 ==> result == channel
            &&& alpha == 0 ==> result == old[idx]
            &&& 0 < alpha < 255 ==> result == (channel + scaled) % 256
            &&& 0 < alpha < 255 && old[idx] == 0 ==> result == channel
            &&& 0 < alpha < 255 && channel + scaled < 256 ==> result >= channel && result >= scaled
        }),
{
    let left = cursor_left(cursor, bounds);
    let top = cursor_top(cursor, bounds);
    let wd = draw_width(cursor, bounds);
    let hd = draw_height(cursor, bounds);
    let w = cursor.width as int;
    let stride = 4 * bounds.w;
    lemma_mul_inequality(py, hd - 1, w);
    lemma_mul_inequality(top + py, top + hd - 1, stride);
    assert(py * w + px < cursor.pixels@.len());
    let c = cursor.pixels@[py * cursor.width + px];
    let alpha = c / 0x100_0000;
    let idx = 4 * bounds.w * (top + py) + 4 * (left + px) + k;
    assert(idx < old.len()) by (nonlinear_arith)
        requires
            (top + py) * stride <= (top + hd - 1) * stride,
            stride == 4 * bounds.w,
            idx == 4 * bounds.w * (top + py) + 4 * (left + px) + k,
            k < 3,
            px < wd,
            4 * bounds.w * (top + hd - 1) + 4 * (left + wd - 1) + 2 < old.len(),
    ;
    lemma_target_of_pixel(
        bounds.w as int,
        left,
        top,
        draw_width(cursor, bounds),
        draw_height(cursor, bounds),
        px,
        py,
        k,
    );
    let o = old[idx] as int;
    assert(alpha <= 255);
    assert(o * (255 - alpha) >= 0) by (nonlinear_arith)
        requires
            o >= 0,
            alpha <= 255,
    ;
    if o == 0 {
        assert(o * (255 - alpha) == 0) by (nonlinear_arith)
            requires
                o == 0,
        ;
    }
}

} // verus!
