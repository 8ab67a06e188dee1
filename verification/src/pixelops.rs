use vstd::prelude::*;
use vstd::arithmetic::div_mod::lemma_fundamental_div_mod_converse;
use vstd::arithmetic::mul::lemma_mul_inequality;

verus! {

/// The blurred pixels, as `stackblur_iter::blur_argb` computes them from a buffer of
/// 0xAARRGGBB pixels `width` wide and `height` high and a blur radius.
pub uninterp spec fn stackblur_argb(pixels: Seq<u32>, width: nat, height: nat, radius: nat) -> Seq<u32>;

/// `stackblur_iter::blur_argb` on the whole buffer, seen as an image `width` pixels wide
/// (`imgref::ImgRefMut::new`). The crate documents good results up to a radius of 4096 and
/// that larger radii may overflow; `ImgRefMut::new` panics on a zero width or on sizes
/// beyond `u32`.
#[verifier::external_body]
fn blur_argb(pixels: &mut Vec<u32>, width: usize, height: usize, radius: usize)
    requires
        0 < width <= u32::MAX,
        height <= u32::MAX,
        old(pixels)@.len() == width * height,
        radius <= 4096,
    ensures
        final(pixels)@.len() == old(pixels)@.len(),
        final(pixels)@ == stackblur_argb(old(pixels)@, width as nat, height as nat, radius as nat),
{
    let mut image = stackblur_iter::imgref::ImgRefMut::new(pixels.as_mut_slice(), width, height);
    stackblur_iter::blur_argb(&mut image, radius);
}

/// The distance between the starts of two rows of an RGB buffer: its stride, but rows
/// are never shorter than three bytes per pixel.
pub open spec fn row_length(width: int, stride: int) -> int {
    if stride > 3 * width {
        stride
    } else {
        3 * width
    }
}

/// The opaque 0xAARRGGBB pixel made of the three RGB bytes at `offset`.
pub open spec fn packed_pixel(pixels: Seq<u8>, offset: int) -> u32 {
    (0xff00_0000 + pixels[offset] * 0x1_0000 + pixels[offset + 1] * 0x100 + pixels[offset
        + 2]) as u32
}

/// The RGB buffer as one 0xAARRGGBB pixel per element, row by row, without the padding
/// at the end of each row.
pub open spec fn packed_pixels(pixels: Seq<u8>, width: int, height: int, stride: int) -> Seq<u32> {
    Seq::new(
        (width * height) as nat,
        |i: int| packed_pixel(pixels, (i / width) * row_length(width, stride) + 3 * (i % width)),
    )
}

/// Channel `k` (0 red, 1 green, 2 blue) of a 0xAARRGGBB pixel.
pub open spec fn rgb_channel(pixel: u32, k: int) -> u8 {
    if k == 0 {
        ((pixel / 0x1_0000) % 0x100) as u8
    } else if k == 1 {
        ((pixel / 0x100) % 0x100) as u8
    } else {
        (pixel % 0x100) as u8
    }
}

/// The pixels as RGB bytes, without alpha and without padding.
pub open spec fn unpacked_rgb(pixels: Seq<u32>) -> Seq<u8> {
    Seq::new(3 * pixels.len(), |j: int| rgb_channel(pixels[j / 3], j % 3))
}

/// The inputs `blur_rgb` takes: whole RGB pixels, enough of them for every row, and sizes
/// that the blur and the returned stride fit.
pub open spec fn blur_rgb_requires(len: int, width: int, height: int, stride: int, radius: int) -> bool {
    &&& len % 3 == 0
    &&& 0 < width
    &&& 3 * width <= i32::MAX
    &&& height <= u32::MAX
    &&& height > 0 ==> (height - 1) * row_length(width, stride) + 3 * width <= len
    &&& radius <= 4096
}

/// Pads an RGB buffer read from a pixbuf so that it holds whole pixels, as the blur
/// needs: `3 - len % 3` zero bytes are appended, so a buffer of whole pixels still grows
/// by one zero pixel.
pub fn pad_to_whole_pixels(pixels: &mut Vec<u8>)
    requires
        old(pixels)@.len() + 3 <= usize::MAX,
    ensures
        final(pixels)@ == old(pixels)@ + Seq::new((3 - old(pixels)@.len() % 3) as nat, |i: int| 0u8),
        final(pixels)@.len() % 3 == 0,
{
    let extend_by = 3 - pixels.len() % 3;
    let ghost start = pixels@;
    let mut i: usize = 0;
    while i < extend_by
        invariant
            extend_by == 3 - start.len() % 3,
            i <= extend_by,
            pixels@ == start + Seq::new(i as nat, |j: int| 0u8),
            start.len() + 3 <= usize::MAX,
        decreases extend_by - i,
    {
        pixels.push(0);
        i = i + 1;
        assert(pixels@ =~= start + Seq::new(i as nat, |j: int| 0u8));
    }
}

fn pack_rgb(b0: u8, b1: u8, b2: u8) -> (pixel: u32)
    ensures
        pixel == (0xff00_0000 + b0 * 0x1_0000 + b1 * 0x100 + b2) as u32,
{
    let (x, y, z) = (b0 as u32, b1 as u32, b2 as u32);
    let pixel = 0xff00_0000u32 | (x << 16u32) | (y << 8u32) | z;
    assert(pixel == 0xff00_0000 + x * 0x1_0000 + y * 0x100 + z) by (bit_vector)
        requires
            x < 256,
            y < 256,
            z < 256,
            pixel == 0xff00_0000u32 | (x << 16u32) | (y << 8u32) | z,
    ;
    pixel
}

/// Blurs an RGB image whose rows start `stride` bytes apart (rows are never read as
/// shorter than the pixels they hold). Returns the blurred pixels, tightly packed: three
/// bytes per pixel and no row padding, so `3 * width * height` bytes; and their row stride.
pub fn blur_rgb(pixels: Vec<u8>, width: usize, height: usize, stride: usize, radius: usize) -> (blurred: (Vec<u8>, i32))
    requires
        blur_rgb_requires(pixels@.len() as int, width as int, height as int, stride as int, radius as int),
    ensures
        blurred.0@ == unpacked_rgb(
            stackblur_argb(
                packed_pixels(pixels@, width as int, height as int, stride as int),
                width as nat,
                height as nat,
                radius as nat,
            ),
        ),
        blurred.0@.len() == 3 * width * height,
        blurred.1 == 3 * width,
{
    // GdkPixbuf's stride may not be a multiple of 3, so reading the buffer in chunks of 3
    // would shift the channels; the extra bytes at the end of each row are skipped.
    let row_len = if stride > width * 3 { stride } else { width * 3 };
    let ghost packed = packed_pixels(pixels@, width as int, height as int, stride as int);
    let n = pixels.len();
    let mut argb: Vec<u32> = Vec::new();
    let mut row: usize = 0;
    while row < height
        invariant
            blur_rgb_requires(pixels@.len() as int, width as int, height as int, stride as int, radius as int),
            row_len == row_length(width as int, stride as int),
            packed == packed_pixels(pixels@, width as int, height as int, stride as int),
            row <= height,
            n == pixels@.len(),
            argb@ == packed.take(row * width),
        decreases height - row,
    {
        proof {
            lemma_mul_inequality(row as int, height - 1, row_len as int);
            assert(row * row_len + 3 * width <= n);
        }
        let start = row * row_len;
        let mut col: usize = 0;
        while col < width
            invariant
                blur_rgb_requires(pixels@.len() as int, width as int, height as int, stride as int, radius as int),
                row_len == row_length(width as int, stride as int),
                packed == packed_pixels(pixels@, width as int, height as int, stride as int),
                row < height,
                col <= width,
                start == row * row_len,
                start + 3 * width <= pixels@.len(),
                n == pixels@.len(),
                argb@ == packed.take(row * width + col),
            decreases width - col,
        {
            let offset = start + 3 * col;
            let pixel = pack_rgb(pixels[offset], pixels[offset + 1], pixels[offset + 2]);
            proof {
                let i = row * width + col;
                lemma_fundamental_div_mod_converse(i, width as int, row as int, col as int);
                lemma_mul_inequality(row as int + 1, height as int, width as int);
                assert(i < width * height) by (nonlinear_arith)
                    requires
                        i == row * width + col,
                        col < width,
                        (row + 1) * width <= height * width,
                ;
                assert(packed[i] == pixel);
                assert(packed.take(i + 1) =~= packed.take(i).push(pixel));
            }
            argb.push(pixel);
            col = col + 1;
        }
        assert((row + 1) * width == row * width + width) by (nonlinear_arith);
        row = row + 1;
    }
    assert(row * width == width * height) by (nonlinear_arith)
        requires
            row == height,
    ;
    assert(argb@ =~= packed);
    blur_argb(&mut argb, width, height, radius);
    let ghost blurred = argb@;
    let mut rgb: Vec<u8> = Vec::new();
    let mut k: usize = 0;
    while k < argb.len()
        invariant
            argb@ == blurred,
            k <= argb@.len(),
            rgb@ == unpacked_rgb(blurred.take(k as int)),
        decreases argb@.len() - k,
    {
        let pixel = argb[k];
        let r32 = (pixel >> 16u32) & 0xff;
        let g32 = (pixel >> 8u32) & 0xff;
        let b32 = pixel & 0xff;
        assert(r32 == (pixel / 0x1_0000) % 0x100 && g32 == (pixel / 0x100) % 0x100 && b32 == pixel
            % 0x100) by (bit_vector)
            requires
                r32 == (pixel >> 16u32) & 0xff,
                g32 == (pixel >> 8u32) & 0xff,
                b32 == pixel & 0xff,
        ;
        let r = r32 as u8;
        let g = g32 as u8;
        let b = b32 as u8;
        rgb.push(r);
        rgb.push(g);
        rgb.push(b);
        proof {
            let next = unpacked_rgb(blurred.take(k + 1));
            assert forall|j: int| 0 <= j < next.len() implies next[j] == rgb@[j] by {
                if j < 3 * k {
                    assert(blurred.take(k + 1)[j / 3] == blurred.take(k as int)[j / 3]);
                } else {
                    lemma_fundamental_div_mod_converse(j, 3, k as int, j - 3 * k);
                }
            }
            assert(rgb@ =~= next);
        }
        k = k + 1;
    }
    assert(blurred.take(blurred.len() as int) =~= blurred);
    assert(blurred.len() == width * height);
    assert(3 * (width * height) == 3 * width * height) by (nonlinear_arith);
    (rgb, (width * 3) as i32)
}


/// The values that `rand::rngs::StdRng` seeded with `seed` (`SeedableRng::seed_from_u64`)
/// gives for `Rng::gen_range(0..bound)` on `u64`, drawn for each bound in turn.
pub uninterp spec fn std_rng_draws(seed: u64, bounds: Seq<u64>) -> Seq<u64>;

/// `rand::SeedableRng::seed_from_u64` for `rand::rngs::StdRng`, then `Rng::gen_range(0..bound)`
/// for each bound in turn: one draw below each bound. In rand 0.8 `StdRng` is ChaCha12, so
/// the draws depend on the seed and the bounds alone. The crate panics on an empty range,
/// which `requires` rules out.
#[verifier::external_body]
fn seeded_draws(seed: u64, bounds: &Vec<u64>) -> (draws: Vec<u64>)
    requires
        forall|k: int| 0 <= k < bounds@.len() ==> bounds@[k] > 0,
    ensures
        draws@ == std_rng_draws(seed, bounds@),
        draws@.len() == bounds@.len(),
        forall|k: int| 0 <= k < bounds@.len() ==> draws@[k] < bounds@[k],
{
    let mut rng: rand::rngs::StdRng = rand::SeedableRng::seed_from_u64(seed);
    bounds.iter().map(|&bound| rand::Rng::gen_range(&mut rng, 0..bound)).collect()
}

/// The number of boxes in a column of an image `height` pixels high.
pub open spec fn boxes_high(height: int) -> int {
    (height + 3) / 4
}

/// The number of boxes in a row of an image `width` pixels wide.
pub open spec fn boxes_wide(width: int) -> int {
    (width + 3) / 4
}

/// The extent of the box starting at `start` in an image `size` pixels across: 4, or what
/// is left at the edge.
pub open spec fn box_extent(size: int, start: int) -> u64 {
    (if size - start < 4 {
        size - start
    } else {
        4
    }) as u64
}

/// The bounds of the draws that pick the sample pixels: box by box, column of boxes after
/// column of boxes, the box's width then its height.
pub open spec fn box_bounds(width: int, height: int) -> Seq<u64> {
    let ny = boxes_high(height);
    Seq::new(
        (2 * (boxes_wide(width) * ny)) as nat,
        |k: int|
            {
                let bi = k / 2;
                if k % 2 == 0 {
                    box_extent(width, (bi / ny) * 4)
                } else {
                    box_extent(height, (bi % ny) * 4)
                }
            },
    )
}

/// The sample pixel of each box, offset within the box by the draws for it.
pub open spec fn samples_of(draws: Seq<u64>, width: int, height: int) -> Map<(int, int), (int, int)> {
    Map::new(
        |key: (int, int)| true,
        |key: (int, int)|
            {
                let bi = (key.0 / 4) * boxes_high(height) + key.1 / 4;
                (key.0 + draws[2 * bi], key.1 + draws[2 * bi + 1])
            },
    )
}

/// Where the draws of box `(bx, by)` stand among the draws, and what they are bounded by.
proof fn lemma_box_index(width: int, height: int, bx: int, by: int)
    requires
        0 <= bx < width,
        0 <= by < height,
        bx % 4 == 0,
        by % 4 == 0,
    ensures
        ({
            let ny = boxes_high(height);
            let bi = (bx / 4) * ny + by / 4;
            &&& 0 <= bi
            &&& 2 * bi + 1 < box_bounds(width, height).len()
            &&& box_bounds(width, height)[2 * bi] == box_extent(width, bx)
            &&& box_bounds(width, height)[2 * bi + 1] == box_extent(height, by)
        }),
{
    let ny = boxes_high(height);
    let nx = boxes_wide(width);
    let q = bx / 4;
    let r = by / 4;
    let bi = q * ny + r;
    assert(0 <= r < ny);
    assert(0 <= q < nx);
    assert(q * ny >= 0) by (nonlinear_arith)
        requires
            q >= 0,
            ny > 0,
    ;
    assert((q + 1) * ny <= nx * ny) by (nonlinear_arith)
        requires
            q + 1 <= nx,
            ny >= 0,
    ;
    assert(q * ny + ny == (q + 1) * ny) by (nonlinear_arith);
    lemma_fundamental_div_mod_converse(bi, ny, q, r);
    assert((2 * bi) / 2 == bi && (2 * bi) % 2 == 0);
    assert((2 * bi + 1) / 2 == bi && (2 * bi + 1) % 2 == 1);
    assert(q * 4 == bx && r * 4 == by);
}

/// The sample the draws give each box lies in the box.
proof fn lemma_sample_in_box(draws: Seq<u64>, width: int, height: int, bx: int, by: int)
    requires
        draws.len() == box_bounds(width, height).len(),
        forall|k: int| 0 <= k < draws.len() ==> draws[k] < box_bounds(width, height)[k],
        0 <= bx < width,
        0 <= by < height,
        bx % 4 == 0,
        by % 4 == 0,
    ensures
        sample_ok(samples_of(draws, width, height), width, height, bx, by),
{
    lemma_box_index(width, height, bx, by);
    let bi = (bx / 4) * boxes_high(height) + by / 4;
    assert(draws[2 * bi] < box_bounds(width, height)[2 * bi]);
    assert(draws[2 * bi + 1] < box_bounds(width, height)[2 * bi + 1]);
}

/// Pixelating twice with the same samples gives the same result: with the draws fixed by the
/// seed, the same image and seed always give the same pixelation.
pub proof fn lemma_pixelation_is_deterministic(
    old: Seq<u8>,
    first: Seq<u8>,
    second: Seq<u8>,
    rowstride: int,
    bpp: int,
    width: int,
    height: int,
    samples: Map<(int, int), (int, int)>,
)
    requires
        pixelated_with(old, first, rowstride, bpp, width, height, samples),
        pixelated_with(old, second, rowstride, bpp, width, height, samples),
    ensures
        first == second,
{
    assert forall|idx: int| 0 <= idx < first.len() implies first[idx] == second[idx] by {
        assert(first[idx] == pixelated_byte(old, rowstride, bpp, width, height, samples, idx));
        assert(second[idx] == pixelated_byte(old, rowstride, bpp, width, height, samples, idx));
    }
    assert(first =~= second);
}

/// Pixelation works on boxes of this many pixels a side.
pub const PIXELATE_SIZE: usize = 4;

/// The row of the pixel that byte `idx` belongs to, in a buffer whose rows are
/// `rowstride` bytes apart and whose pixels are `bpp` bytes.
pub open spec fn pixel_row(idx: int, rowstride: int) -> int {
    idx / rowstride
}

/// The column of the pixel that byte `idx` belongs to.
pub open spec fn pixel_col(idx: int, rowstride: int, bpp: int) -> int {
    (idx % rowstride) / bpp
}

/// Which byte of its pixel `idx` is.
pub open spec fn pixel_byte(idx: int, rowstride: int, bpp: int) -> int {
    (idx % rowstride) % bpp
}

/// Byte `idx` belongs to one of the `width` x `height` pixels of the image (and not to
/// the padding at the end of a row).
pub open spec fn in_image(idx: int, rowstride: int, bpp: int, width: int, height: int) -> bool {
    bpp > 0 && rowstride > 0 && idx >= 0 && pixel_row(idx, rowstride) < height && pixel_col(
        idx,
        rowstride,
        bpp,
    ) < width
}

/// The offset of byte `k` of pixel `(x, y)`.
pub open spec fn byte_offset(rowstride: int, bpp: int, x: int, y: int, k: int) -> int {
    y * rowstride + bpp * x + k
}

/// The top-left pixel of the box that pixel `(x, y)` falls in.
pub open spec fn box_of(x: int, y: int) -> (int, int) {
    ((x / 4) * 4, (y / 4) * 4)
}

/// The buffers a pixelation accepts: rows hold their pixels, and every pixel of the
/// image lies in the buffer.
pub open spec fn pixelate_requires(len: int, rowstride: int, bpp: int, width: int, height: int) -> bool {
    &&& rowstride >= bpp * width
    &&& width > 0 && height > 0 ==> (height - 1) * rowstride + bpp * width <= len
}

/// Byte `idx` of `old` pixelated with the given choice of a sample pixel for each box:
/// a byte of an image pixel takes the value of the same byte of its box's sample, any
/// other byte keeps its value.
pub open spec fn pixelated_byte(
    old: Seq<u8>,
    rowstride: int,
    bpp: int,
    width: int,
    height: int,
    samples: Map<(int, int), (int, int)>,
    idx: int,
) -> u8 {
    if in_image(idx, rowstride, bpp, width, height) {
        let (sx, sy) = samples[box_of(pixel_col(idx, rowstride, bpp), pixel_row(idx, rowstride))];
        old[byte_offset(rowstride, bpp, sx, sy, pixel_byte(idx, rowstride, bpp))]
    } else {
        old[idx]
    }
}

/// The sample chosen for box `(bx, by)` is one of its pixels.
pub open spec fn sample_ok(samples: Map<(int, int), (int, int)>, width: int, height: int, bx: int, by: int) -> bool {
    let (sx, sy) = samples[(bx, by)];
    &&& samples.contains_key((bx, by))
    &&& bx <= sx < bx + 4 && sx < width
    &&& by <= sy < by + 4 && sy < height
}

/// `new` is `old` pixelated with the given samples, each one a pixel of its box.
pub open spec fn pixelated_with(
    old: Seq<u8>,
    new: Seq<u8>,
    rowstride: int,
    bpp: int,
    width: int,
    height: int,
    samples: Map<(int, int), (int, int)>,
) -> bool {
    &&& new.len() == old.len()
    &&& forall|bx: int, by: int|
        #![trigger sample_ok(samples, width, height, bx, by)]
        0 <= bx < width && 0 <= by < height && bx % 4 == 0 && by % 4 == 0 ==> sample_ok(
            samples,
            width,
            height,
            bx,
            by,
        )
    &&& forall|idx: int|
        #![trigger new[idx]]
        0 <= idx < old.len() ==> new[idx] == pixelated_byte(
            old,
            rowstride,
            bpp,
            width,
            height,
            samples,
            idx,
        )
}

proof fn lemma_decompose(rowstride: int, bpp: int, width: int, x: int, y: int, k: int)
    requires
        bpp > 0,
        rowstride >= bpp * width,
        0 <= x < width,
        0 <= y,
        0 <= k < bpp,
    ensures
        pixel_row(byte_offset(rowstride, bpp, x, y, k), rowstride) == y,
        pixel_col(byte_offset(rowstride, bpp, x, y, k), rowstride, bpp) == x,
        pixel_byte(byte_offset(rowstride, bpp, x, y, k), rowstride, bpp) == k,
{
    let rem = bpp * x + k;
    lemma_mul_inequality(x + 1, width, bpp);
    assert(bpp * x + bpp == (x + 1) * bpp) by (nonlinear_arith);
    assert(width * bpp == bpp * width) by (nonlinear_arith);
    assert(0 <= rem < rowstride) by (nonlinear_arith)
        requires
            rem == bpp * x + k,
            k < bpp,
            (x + 1) * bpp <= width * bpp,
            bpp * x + bpp == (x + 1) * bpp,
            width * bpp <= rowstride,
            x >= 0,
            k >= 0,
            bpp > 0,
    ;
    lemma_fundamental_div_mod_converse(byte_offset(rowstride, bpp, x, y, k), rowstride, y, rem);
    assert(rem == x * bpp + k) by (nonlinear_arith)
        requires
            rem == bpp * x + k,
    ;
    lemma_fundamental_div_mod_converse(rem, bpp, x, k);
}

proof fn lemma_recompose(idx: int, rowstride: int, bpp: int)
    requires
        idx >= 0,
        rowstride > 0,
        bpp > 0,
    ensures
        idx == byte_offset(
            rowstride,
            bpp,
            pixel_col(idx, rowstride, bpp),
            pixel_row(idx, rowstride),
            pixel_byte(idx, rowstride, bpp),
        ),
{
    vstd::arithmetic::div_mod::lemma_fundamental_div_mod(idx, rowstride);
    vstd::arithmetic::div_mod::lemma_fundamental_div_mod(idx % rowstride, bpp);
    assert(rowstride * (idx / rowstride) == (idx / rowstride) * rowstride) by (nonlinear_arith);
}

proof fn lemma_offset_bound(rowstride: int, bpp: int, width: int, height: int, x: int, y: int, k: int)
    requires
        bpp > 0,
        rowstride >= bpp * width,
        0 <= x < width,
        0 <= y < height,
        0 <= k < bpp,
    ensures
        0 <= byte_offset(rowstride, bpp, x, y, k) < (height - 1) * rowstride + bpp * width,
{
    lemma_mul_inequality(y, height - 1, rowstride);
    lemma_mul_inequality(x + 1, width, bpp);
    assert(bpp * x + bpp == (x + 1) * bpp) by (nonlinear_arith);
    assert(width * bpp == bpp * width) by (nonlinear_arith);
    assert(y * rowstride >= 0) by (nonlinear_arith)
        requires
            y >= 0,
            rowstride >= 0,
    ;
    assert(bpp * x >= 0) by (nonlinear_arith)
        requires
            x >= 0,
            bpp >= 0,
    ;
}

/// Whether byte `idx` belongs to the box whose pixels are columns `bx..bx + bw` and rows
/// `by..by + bh`.
pub open spec fn in_box(idx: int, rowstride: int, bpp: int, width: int, height: int, bx: int, by: int, bw: int, bh: int) -> bool {
    &&& in_image(idx, rowstride, bpp, width, height)
    &&& bx <= pixel_col(idx, rowstride, bpp) < bx + bw
    &&& by <= pixel_row(idx, rowstride) < by + bh
}

/// Sets every byte of the box to the same byte of `sample`.
fn fill_box(
    pixels: &mut Vec<u8>,
    rowstride: usize,
    bpp: usize,
    width: usize,
    height: usize,
    bx: usize,
    by: usize,
    bw: usize,
    bh: usize,
    sample: &Vec<u8>,
)
    requires
        pixelate_requires(old(pixels)@.len() as int, rowstride as int, bpp as int, width as int, height as int),
        bpp > 0,
        sample@.len() == bpp,
        bx + bw <= width,
        by + bh <= height,
        old(pixels)@.len() <= usize::MAX,
    ensures
        final(pixels)@.len() == old(pixels)@.len(),
        forall|idx: int|
            0 <= idx < old(pixels)@.len() ==> #[trigger] final(pixels)@[idx] == if in_box(
                idx,
                rowstride as int,
                bpp as int,
                width as int,
                height as int,
                bx as int,
                by as int,
                bw as int,
                bh as int,
            ) {
                sample@[pixel_byte(idx, rowstride as int, bpp as int)]
            } else {
                old(pixels)@[idx]
            },
{
    let ghost old_pixels = pixels@;
    let ghost (rs, b, w, h) = (rowstride as int, bpp as int, width as int, height as int);
    let mut px = bx;
    while px < bx + bw
        invariant
            pixelate_requires(old_pixels.len() as int, rs, b, w, h),
            rs == rowstride,
            b == bpp,
            w == width,
            h == height,
            bpp > 0,
            sample@.len() == bpp,
            bx + bw <= width,
            by + bh <= height,
            bx <= px <= bx + bw,
            pixels@.len() == old_pixels.len(),
            old_pixels.len() <= usize::MAX,
            forall|idx: int|
                0 <= idx < old_pixels.len() ==> #[trigger] pixels@[idx] == if in_box(
                    idx, rs, b, w, h, bx as int, by as int, px - bx, bh as int,
                ) {
                    sample@[pixel_byte(idx, rs, b)]
                } else {
                    old_pixels[idx]
                },
        decreases bx + bw - px,
    {
        let mut py = by;
        while py < by + bh
            invariant
                pixelate_requires(old_pixels.len() as int, rs, b, w, h),
                rs == rowstride,
                b == bpp,
                w == width,
                h == height,
                bpp > 0,
                sample@.len() == bpp,
                bx + bw <= width,
                by + bh <= height,
                bx <= px < bx + bw,
                by <= py <= by + bh,
                pixels@.len() == old_pixels.len(),
                old_pixels.len() <= usize::MAX,
                forall|idx: int|
                    0 <= idx < old_pixels.len() ==> #[trigger] pixels@[idx] == if in_box(
                        idx, rs, b, w, h, bx as int, by as int, px - bx, bh as int,
                    ) || (in_box(idx, rs, b, w, h, px as int, by as int, 1, py - by)) {
                        sample@[pixel_byte(idx, rs, b)]
                    } else {
                        old_pixels[idx]
                    },
            decreases by + bh - py,
        {
            proof {
                lemma_offset_bound(rs, b, w, h, px as int, py as int, 0);
                lemma_offset_bound(rs, b, w, h, px as int, py as int, b - 1);
                assert(py * rowstride + bpp * px + bpp <= old_pixels.len());
            }
            let row_index = py * rowstride + bpp * px;
            let mut k: usize = 0;
            while k < bpp
                invariant
                    pixelate_requires(old_pixels.len() as int, rs, b, w, h),
                    rs == rowstride,
                    b == bpp,
                    w == width,
                    h == height,
                    bpp > 0,
                    sample@.len() == bpp,
                    bx + bw <= width,
                    by + bh <= height,
                    bx <= px < bx + bw,
                    by <= py < by + bh,
                    k <= bpp,
                    row_index == byte_offset(rs, b, px as int, py as int, 0),
                    row_index + bpp <= old_pixels.len(),
                    pixels@.len() == old_pixels.len(),
                    old_pixels.len() <= usize::MAX,
                    forall|idx: int|
                        0 <= idx < old_pixels.len() ==> #[trigger] pixels@[idx] == if in_box(
                            idx, rs, b, w, h, bx as int, by as int, px - bx, bh as int,
                        ) || in_box(idx, rs, b, w, h, px as int, by as int, 1, py - by) || (
                        in_box(idx, rs, b, w, h, px as int, py as int, 1, 1) && pixel_byte(
                            idx,
                            rs,
                            b,
                        ) < k) {
                            sample@[pixel_byte(idx, rs, b)]
                        } else {
                            old_pixels[idx]
                        },
                decreases bpp - k,
            {
                proof {
                    lemma_decompose(rs, b, w, px as int, py as int, k as int);
                    assert(b * w >= 1) by (nonlinear_arith)
                        requires
                            b >= 1,
                            w >= 1,
                    ;
                    assert(in_image(row_index + k, rs, b, w, h));
                }
                let ghost before = pixels@;
                pixels.set(row_index + k, sample[k]);
                proof {
                    assert forall|idx: int| 0 <= idx < old_pixels.len() implies #[trigger] pixels@[idx]
                        == if in_box(idx, rs, b, w, h, bx as int, by as int, px - bx, bh as int)
                        || in_box(idx, rs, b, w, h, px as int, by as int, 1, py - by) || (in_box(
                        idx, rs, b, w, h, px as int, py as int, 1, 1) && pixel_byte(idx, rs, b) < k + 1) {
                        sample@[pixel_byte(idx, rs, b)]
                    } else {
                        old_pixels[idx]
                    } by {
                        if idx != row_index + k {
                            assert(pixels@[idx] == before[idx]);
                            if in_image(idx, rs, b, w, h) {
                                lemma_recompose(idx, rs, b);
                            }
                        }
                    }
                }
                k = k + 1;
            }
            proof {
                assert forall|idx: int| 0 <= idx < old_pixels.len() implies #[trigger] pixels@[idx]
                    == if in_box(idx, rs, b, w, h, bx as int, by as int, px - bx, bh as int)
                    || in_box(idx, rs, b, w, h, px as int, by as int, 1, py + 1 - by) {
                    sample@[pixel_byte(idx, rs, b)]
                } else {
                    old_pixels[idx]
                } by {
                    if in_image(idx, rs, b, w, h) {
                        vstd::arithmetic::div_mod::lemma_mod_pos_bound(idx % rs, b);
                        vstd::arithmetic::div_mod::lemma_mod_pos_bound(idx, rs);
                    }
                }
            }
            py = py + 1;
        }
        px = px + 1;
    }
}

/// The byte-offset of byte `k` of pixel `(x, y)`, for pixels of the image.
fn offset_of(rowstride: usize, bpp: usize, x: usize, y: usize, k: usize, width: Ghost<usize>, height: Ghost<usize>, len: Ghost<int>) -> (offset: usize)
    requires
        bpp > 0,
        rowstride >= bpp * width@,
        width@ > 0 && height@ > 0 ==> (height@ - 1) * rowstride + bpp * width@ <= len@,
        len@ <= usize::MAX,
        x < width@,
        y < height@,
        k < bpp,
    ensures
        offset == byte_offset(rowstride as int, bpp as int, x as int, y as int, k as int),
        offset < len@,
{
    proof {
        lemma_offset_bound(rowstride as int, bpp as int, width@ as int, height@ as int, x as int, y as int, k as int);
    }
    y * rowstride + bpp * x + k
}


proof fn lemma_box_of(col: int, bx: int, bw: int, width: int)
    requires
        bx % 4 == 0,
        0 <= bx < width,
        bw == if width - bx < 4 { width - bx } else { 4 },
        0 <= col < width,
    ensures
        (bx <= col < bx + bw) == ((col / 4) * 4 == bx),
{
    vstd::arithmetic::div_mod::lemma_fundamental_div_mod(col, 4);
    vstd::arithmetic::div_mod::lemma_fundamental_div_mod(bx, 4);
    if bx <= col < bx + bw {
        lemma_fundamental_div_mod_converse(col, 4, bx / 4, col - bx);
    }
}

/// The boxes before `(i, j)` in the order pixelation visits them: column of boxes by
/// column of boxes, top to bottom.
pub open spec fn box_done(bx: int, by: int, i: int, j: int) -> bool {
    bx < i || (bx == i && by < j)
}

/// Byte `idx` of `new` is what pixelating `old` gives, if its box is done, or unchanged.
pub open spec fn byte_ok(
    old: Seq<u8>,
    new: Seq<u8>,
    rowstride: int,
    bpp: int,
    width: int,
    height: int,
    samples: Map<(int, int), (int, int)>,
    i: int,
    j: int,
    idx: int,
) -> bool {
    let col = pixel_col(idx, rowstride, bpp);
    let row = pixel_row(idx, rowstride);
    new[idx] == if in_image(idx, rowstride, bpp, width, height) && box_done(
        box_of(col, row).0,
        box_of(col, row).1,
        i,
        j,
    ) {
        pixelated_byte(old, rowstride, bpp, width, height, samples, idx)
    } else {
        old[idx]
    }
}

/// The state of the buffer once the boxes before `(i, j)` are pixelated with `samples`.
pub open spec fn boxes_done(
    old: Seq<u8>,
    new: Seq<u8>,
    rowstride: int,
    bpp: int,
    width: int,
    height: int,
    samples: Map<(int, int), (int, int)>,
    i: int,
    j: int,
) -> bool {
    &&& new.len() == old.len()
    &&& forall|bx: int, by: int|
        #![trigger sample_ok(samples, width, height, bx, by)]
        0 <= bx < width && 0 <= by < height && bx % 4 == 0 && by % 4 == 0 && box_done(bx, by, i, j)
            ==> sample_ok(samples, width, height, bx, by)
    &&& forall|idx: int|
        #![trigger new[idx]]
        0 <= idx < old.len() ==> byte_ok(old, new, rowstride, bpp, width, height, samples, i, j, idx)
}

/// Pixelates the `width` x `height` image in the buffer, whose rows are `rowstride` bytes
/// apart and whose pixels are `bytes_per_pixel` bytes: each box of 4 x 4 pixels (smaller at
/// the right and bottom edges) takes the colour of one of its pixels, drawn by a generator
/// seeded with `seed`, box after box, column of boxes after column of boxes.
pub fn pixelate(
    pixels: &mut Vec<u8>,
    rowstride: usize,
    bytes_per_pixel: usize,
    width: usize,
    height: usize,
    seed: u64,
)
    requires
        pixelate_requires(old(pixels)@.len() as int, rowstride as int, bytes_per_pixel as int, width as int, height as int),
    ensures
        pixelated_with(
            old(pixels)@,
            final(pixels)@,
            rowstride as int,
            bytes_per_pixel as int,
            width as int,
            height as int,
            samples_of(std_rng_draws(seed, box_bounds(width as int, height as int)), width as int, height as int),
        ),
{
    let ghost old_pixels = pixels@;
    let ghost (rs, b, w, h) = (rowstride as int, bytes_per_pixel as int, width as int, height as int);
    let ghost ny = boxes_high(h);
    let ghost nx = boxes_wide(w);
    // The bounds of the draws, in the order the boxes are visited.
    let mut bounds: Vec<u64> = Vec::new();
    assert(((0int + 3) / 4) * ny == 0);
    let mut i: usize = 0;
    while i < width
        invariant
            w == width,
            h == height,
            ny == boxes_high(h),
            i <= width,
            i % 4 == 0 || i == width,
            bounds@.len() == 2 * (((i as int + 3) / 4) * ny),
            forall|k: int| 0 <= k < bounds@.len() ==> #[trigger] bounds@[k] == box_bounds(w, h)[k],
            forall|k: int| 0 <= k < bounds@.len() ==> #[trigger] bounds@[k] > 0,
        decreases width - i,
    {
        let box_w: u64 = if width - i < PIXELATE_SIZE { (width - i) as u64 } else { 4 };
        let mut j: usize = 0;
        while j < height
            invariant
                w == width,
                h == height,
                ny == boxes_high(h),
                i < width,
                i % 4 == 0,
                box_w == box_extent(w, i as int),
                box_w > 0,
                j <= height,
                j % 4 == 0 || j == height,
                bounds@.len() == 2 * ((i as int / 4) * ny + (j as int + 3) / 4),
                forall|k: int| 0 <= k < bounds@.len() ==> #[trigger] bounds@[k] == box_bounds(w, h)[k],
                forall|k: int| 0 <= k < bounds@.len() ==> #[trigger] bounds@[k] > 0,
            decreases height - j,
        {
            let box_h: u64 = if height - j < PIXELATE_SIZE { (height - j) as u64 } else { 4 };
            proof {
                lemma_box_index(w, h, i as int, j as int);
            }
            bounds.push(box_w);
            bounds.push(box_h);
            j = if height - j > PIXELATE_SIZE { j + PIXELATE_SIZE } else { height };
        }
        assert((i as int / 4) * ny + ny == (i as int / 4 + 1) * ny) by (nonlinear_arith);
        i = if width - i > PIXELATE_SIZE { i + PIXELATE_SIZE } else { width };
    }
    assert(bounds@ =~= box_bounds(w, h));
    let draws = seeded_draws(seed, &bounds);
    let ghost samples = samples_of(draws@, w, h);
    assert forall|bx: int, by: int|
        #![trigger sample_ok(samples, w, h, bx, by)]
        0 <= bx < w && 0 <= by < h && bx % 4 == 0 && by % 4 == 0 implies sample_ok(samples, w, h, bx, by) by {
        lemma_sample_in_box(draws@, w, h, bx, by);
    }
    if bytes_per_pixel == 0 {
        // Pixels without bytes: there is nothing to change.
        assert(pixelated_with(old_pixels, pixels@, rs, b, w, h, samples));
        return;
    }
    let len = pixels.len();
    let n_draws = draws.len();
    let mut draw_at: usize = 0;
    assert(((0int + 3) / 4) * ny == 0);
    let mut i: usize = 0;
    while i < width
        invariant
            pixelate_requires(old_pixels.len() as int, rs, b, w, h),
            rs == rowstride,
            b == bytes_per_pixel,
            w == width,
            h == height,
            b > 0,
            len == old_pixels.len(),
            ny == boxes_high(h),
            draws@.len() == box_bounds(w, h).len(),
            n_draws == draws@.len(),
            forall|kk: int| 0 <= kk < draws@.len() ==> #[trigger] draws@[kk] < box_bounds(w, h)[kk],
            samples == samples_of(draws@, w, h),
            forall|bx: int, by: int|
                #![trigger sample_ok(samples, w, h, bx, by)]
                0 <= bx < w && 0 <= by < h && bx % 4 == 0 && by % 4 == 0 ==> sample_ok(samples, w, h, bx, by),
            i <= width,
            i % 4 == 0 || i == width,
            draw_at == 2 * (((i as int + 3) / 4) * ny),
            boxes_done(old_pixels, pixels@, rs, b, w, h, samples, i as int, 0),
        decreases width - i,
    {
        let box_w = if width - i < PIXELATE_SIZE { width - i } else { PIXELATE_SIZE };
        let mut j: usize = 0;
        while j < height
            invariant
                pixelate_requires(old_pixels.len() as int, rs, b, w, h),
                rs == rowstride,
                b == bytes_per_pixel,
                w == width,
                h == height,
                b > 0,
                len == old_pixels.len(),
                ny == boxes_high(h),
                draws@.len() == box_bounds(w, h).len(),
                n_draws == draws@.len(),
                forall|kk: int| 0 <= kk < draws@.len() ==> #[trigger] draws@[kk] < box_bounds(w, h)[kk],
                samples == samples_of(draws@, w, h),
                forall|bx: int, by: int|
                    #![trigger sample_ok(samples, w, h, bx, by)]
                    0 <= bx < w && 0 <= by < h && bx % 4 == 0 && by % 4 == 0 ==> sample_ok(samples, w, h, bx, by),
                i < width,
                i % 4 == 0,
                box_w == if width - i < 4 { width - i } else { 4 },
                j <= height,
                j % 4 == 0 || j == height,
                draw_at == 2 * ((i as int / 4) * ny + (j as int + 3) / 4),
                boxes_done(old_pixels, pixels@, rs, b, w, h, samples, i as int, j as int),
            decreases height - j,
        {
            let box_h = if height - j < PIXELATE_SIZE { height - j } else { PIXELATE_SIZE };
            proof {
                lemma_box_index(w, h, i as int, j as int);
                assert(draws@[draw_at as int] < box_bounds(w, h)[draw_at as int]);
                assert(draws@[draw_at + 1] < box_bounds(w, h)[draw_at + 1]);
            }
            let sample_x = i + draws[draw_at] as usize;
            let sample_y = j + draws[draw_at + 1] as usize;
            assert(samples[(i as int, j as int)] == (sample_x as int, sample_y as int));
            // The sample is read before any pixel of its box changes.
            let mut sample: Vec<u8> = Vec::new();
            let mut k: usize = 0;
            while k < bytes_per_pixel
                invariant
                    pixelate_requires(old_pixels.len() as int, rs, b, w, h),
                    rs == rowstride,
                    b == bytes_per_pixel,
                    w == width,
                    h == height,
                    b > 0,
                    len == pixels@.len(),
                    len == old_pixels.len(),
                    sample_x < width,
                    sample_y < height,
                    k <= bytes_per_pixel,
                    sample@.len() == k,
                    forall|kk: int|
                        0 <= kk < k ==> sample@[kk] == pixels@[byte_offset(
                            rs,
                            b,
                            sample_x as int,
                            sample_y as int,
                            kk,
                        )],
                decreases bytes_per_pixel - k,
            {
                let offset = offset_of(
                    rowstride,
                    bytes_per_pixel,
                    sample_x,
                    sample_y,
                    k,
                    Ghost(width),
                    Ghost(height),
                    Ghost(len as int),
                );
                sample.push(pixels[offset]);
                k = k + 1;
            }
            let ghost before = pixels@;
            fill_box(pixels, rowstride, bytes_per_pixel, width, height, i, j, box_w, box_h, &sample);
            proof {
                let new_samples = samples;
                let next_j = if height - j > 4 { j + 4 } else { height as int };
                vstd::arithmetic::div_mod::lemma_fundamental_div_mod(i as int, 4);
                vstd::arithmetic::div_mod::lemma_fundamental_div_mod(j as int, 4);
                assert forall|idx: int|
                    #![trigger pixels@[idx]]
                    0 <= idx < old_pixels.len() implies byte_ok(old_pixels, pixels@, rs, b, w, h, new_samples, i as int, next_j, idx) by {
                    assert(byte_ok(old_pixels, before, rs, b, w, h, samples, i as int, j as int, idx));
                    if in_image(idx, rs, b, w, h) {
                        let col = pixel_col(idx, rs, b);
                        let row = pixel_row(idx, rs);
                        vstd::arithmetic::div_mod::lemma_mod_pos_bound(idx % rs, b);
                        vstd::arithmetic::div_mod::lemma_mod_pos_bound(idx, rs);
                        vstd::arithmetic::div_mod::lemma_div_pos_is_pos(idx, rs);
                        vstd::arithmetic::div_mod::lemma_div_pos_is_pos(idx % rs, b);
                        lemma_box_of(col, i as int, box_w as int, w);
                        lemma_box_of(row, j as int, box_h as int, h);
                        vstd::arithmetic::div_mod::lemma_fundamental_div_mod(col, 4);
                        vstd::arithmetic::div_mod::lemma_fundamental_div_mod(row, 4);
                        let (bx, by) = box_of(col, row);
                        let k = pixel_byte(idx, rs, b);
                        if bx == i && by == j {
                            lemma_decompose(rs, b, w, sample_x as int, sample_y as int, k);
                            lemma_offset_bound(rs, b, w, h, sample_x as int, sample_y as int, k);
                            lemma_box_of(sample_x as int, i as int, box_w as int, w);
                            lemma_box_of(sample_y as int, j as int, box_h as int, h);
                            let offset = byte_offset(rs, b, sample_x as int, sample_y as int, k);
                            assert(byte_ok(old_pixels, before, rs, b, w, h, samples, i as int, j as int, offset));
                            assert(in_image(offset, rs, b, w, h));
                            assert(before[offset] == old_pixels[offset]);
                            assert(sample@[k] == before[offset]);
                        }
                    }
                }
                assert(boxes_done(old_pixels, pixels@, rs, b, w, h, new_samples, i as int, next_j));
            }
            draw_at = draw_at + 2;
            j = if height - j > PIXELATE_SIZE { j + PIXELATE_SIZE } else { height };
        }
        proof {
            let next_i = if width - i > 4 { i + 4 } else { width as int };
            vstd::arithmetic::div_mod::lemma_fundamental_div_mod(i as int, 4);
            assert forall|idx: int|
                #![trigger pixels@[idx]]
                0 <= idx < old_pixels.len() implies byte_ok(old_pixels, pixels@, rs, b, w, h, samples, next_i, 0, idx) by {
                assert(byte_ok(old_pixels, pixels@, rs, b, w, h, samples, i as int, j as int, idx));
                if in_image(idx, rs, b, w, h) {
                    let col = pixel_col(idx, rs, b);
                    let row = pixel_row(idx, rs);
                    vstd::arithmetic::div_mod::lemma_mod_pos_bound(idx % rs, b);
                    vstd::arithmetic::div_mod::lemma_mod_pos_bound(idx, rs);
                    vstd::arithmetic::div_mod::lemma_div_pos_is_pos(idx, rs);
                    vstd::arithmetic::div_mod::lemma_div_pos_is_pos(idx % rs, b);
                    lemma_box_of(col, i as int, box_w as int, w);
                    vstd::arithmetic::div_mod::lemma_fundamental_div_mod(col, 4);
                    vstd::arithmetic::div_mod::lemma_fundamental_div_mod(row, 4);
                    vstd::arithmetic::div_mod::lemma_mod_pos_bound(row, 4);
                }
            }
            assert forall|bx: int, by: int|
                #![trigger sample_ok(samples, w, h, bx, by)]
                0 <= bx < w && 0 <= by < h && bx % 4 == 0 && by % 4 == 0 && box_done(bx, by, next_i, 0)
                implies sample_ok(samples, w, h, bx, by) by {
                vstd::arithmetic::div_mod::lemma_fundamental_div_mod(bx, 4);
                assert(box_done(bx, by, i as int, j as int));
            }
            assert(boxes_done(old_pixels, pixels@, rs, b, w, h, samples, next_i, 0));
        }
        assert((i as int / 4) * ny + ny == (i as int / 4 + 1) * ny) by (nonlinear_arith);
        i = if width - i > PIXELATE_SIZE { i + PIXELATE_SIZE } else { width };
    }
    proof {
        assert forall|idx: int|
            #![trigger pixels@[idx]]
            0 <= idx < old_pixels.len() implies pixels@[idx] == pixelated_byte(old_pixels, rs, b, w, h, samples, idx) by {
            assert(byte_ok(old_pixels, pixels@, rs, b, w, h, samples, i as int, 0, idx));
            if in_image(idx, rs, b, w, h) {
                let col = pixel_col(idx, rs, b);
                vstd::arithmetic::div_mod::lemma_fundamental_div_mod(col, 4);
                vstd::arithmetic::div_mod::lemma_mod_pos_bound(col, 4);
            }
        }
        assert forall|bx: int, by: int|
            #![trigger sample_ok(samples, w, h, bx, by)]
            0 <= bx < w && 0 <= by < h && bx % 4 == 0 && by % 4 == 0 implies sample_ok(samples, w, h, bx, by) by {
            assert(box_done(bx, by, i as int, 0));
        }
        assert(pixelated_with(old_pixels, pixels@, rs, b, w, h, samples));
    }
}

/// Pixelation makes every 4 x 4 box of the image one colour: two pixels of the same box
/// end up with the same bytes.
pub proof fn lemma_pixelated_boxes_are_uniform(
    old: Seq<u8>,
    new: Seq<u8>,
    rowstride: int,
    bpp: int,
    width: int,
    height: int,
    samples: Map<(int, int), (int, int)>,
    x1: int,
    y1: int,
    x2: int,
    y2: int,
    k: int,
)
    requires
        pixelate_requires(old.len() as int, rowstride, bpp, width, height),
        pixelated_with(old, new, rowstride, bpp, width, height, samples),
        0 <= x1 < width,
        0 <= y1 < height,
        0 <= x2 < width,
        0 <= y2 < height,
        0 <= k < bpp,
        box_of(x1, y1) == box_of(x2, y2),
    ensures
        new[byte_offset(rowstride, bpp, x1, y1, k)] == new[byte_offset(rowstride, bpp, x2, y2, k)],
{
    lemma_decompose(rowstride, bpp, width, x1, y1, k);
    lemma_decompose(rowstride, bpp, width, x2, y2, k);
    lemma_offset_bound(rowstride, bpp, width, height, x1, y1, k);
    lemma_offset_bound(rowstride, bpp, width, height, x2, y2, k);
    let i1 = byte_offset(rowstride, bpp, x1, y1, k);
    let i2 = byte_offset(rowstride, bpp, x2, y2, k);
    assert(rowstride > 0) by (nonlinear_arith)
        requires
            rowstride >= bpp * width,
            bpp > 0,
            width > 0,
    ;
    assert(new[i1] == pixelated_byte(old, rowstride, bpp, width, height, samples, i1));
    assert(new[i2] == pixelated_byte(old, rowstride, bpp, width, height, samples, i2));
}

} // verus!
