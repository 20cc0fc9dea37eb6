//! Placing a captured image on a display panel that is mounted turned by 90°.
//!
//! Images are row-major sequences of 16-bit pixels, two bytes each. The panel
//! reads its framebuffer column by column, so a naturally oriented image
//! `width` pixels wide and `height` tall is written into it turned clockwise:
//! as an image `height` wide and `width` tall.
use vstd::arithmetic::div_mod::{
    lemma_fundamental_div_mod, lemma_fundamental_div_mod_converse, lemma_mod_pos_bound,
};
use vstd::prelude::*;

verus! {

/// Bytes taken by one pixel of the 16-bit colour format.
pub const BYTES_PER_PIXEL: usize = 2;

/// Byte offset of the pixel at column `i`, row `j` of an image `width` wide.
pub open spec fn source_offset(i: int, j: int, width: int) -> int {
    (j * width + i) * 2
}

/// Byte offset at which the turned image holds the source pixel at column
/// `i`, row `j`, for a source image `height` tall.
pub open spec fn rotated_offset(i: int, j: int, height: int) -> int {
    (i * height + (height - 1 - j)) * 2
}

/// The image `src`, `width` by `height` pixels, turned 90° clockwise. Byte `k`
/// belongs to pixel `k / 2`, which stands in row `(k / 2) / height` and column
/// `(k / 2) % height` of the turned image.
pub open spec fn rotated(src: Seq<u8>, width: int, height: int) -> Seq<u8> {
    Seq::new(
        (width * height * 2) as nat,
        |k: int|
            src[source_offset((k / 2) / height, height - 1 - (k / 2) % height, width) + k % 2],
    )
}

/// The image `src` of `width * height` pixels turned by 180°: the pixel order
/// reversed, the two bytes of each pixel kept in order.
pub open spec fn half_turn(src: Seq<u8>, width: int, height: int) -> Seq<u8> {
    Seq::new((width * height * 2) as nat, |k: int| src[(width * height - 1 - k / 2) * 2 + k % 2])
}

proof fn lemma_split(p: int, d: int, q: int, r: int)
    requires
        d > 0,
        0 <= r < d,
        p == q * d + r,
    ensures
        p / d == q,
        p % d == r,
{
    lemma_fundamental_div_mod_converse(p, d, q, r);
}

/// The source pixel (column, row) that the turned image holds as its pixel
/// `q`, for a source image `height` tall.
pub open spec fn source_of(q: int, height: int) -> (int, int) {
    (q / height, height - 1 - q % height)
}

/// Where a source pixel lands: the turned image holds source pixel (`i`, `j`)
/// at `rotated_offset(i, j, height)`, inside the image.
pub proof fn lemma_rotated_pixel(src: Seq<u8>, width: int, height: int, i: int, j: int, b: int)
    requires
        0 <= i < width,
        0 <= j < height,
        0 <= b < 2,
    ensures
        0 <= rotated_offset(i, j, height) + b < width * height * 2,
        rotated(src, width, height)[rotated_offset(i, j, height) + b] == src[source_offset(
            i,
            j,
            width,
        ) + b],
{
    let q = i * height + (height - 1 - j);
    assert(0 <= q < width * height) by (nonlinear_arith)
        requires
            q == i * height + (height - 1 - j),
            0 <= i < width,
            0 <= j < height,
    ;
    let k = q * 2 + b;
    assert(k / 2 == q && k % 2 == b);
    lemma_split(q, height, i, height - 1 - j);
}

/// No two source pixels land on the same place, and every pixel of the turned
/// image is the image of the source pixel `source_of` names: the pixel map is a bijection.
pub proof fn lemma_rotation_is_bijection(width: int, height: int)
    requires
        width > 0,
        height > 0,
    ensures
        forall|i1: int, j1: int, i2: int, j2: int|
            0 <= i1 < width && 0 <= j1 < height && 0 <= i2 < width && 0 <= j2 < height
                && #[trigger] rotated_offset(i1, j1, height) == #[trigger] rotated_offset(
                i2,
                j2,
                height,
            ) ==> i1 == i2 && j1 == j2,
        forall|q: int|
            0 <= q < width * height ==> {
                let (i, j) = #[trigger] source_of(q, height);
                0 <= i < width && 0 <= j < height && rotated_offset(i, j, height) == q * 2
            },
{
    assert forall|i1: int, j1: int, i2: int, j2: int|
        0 <= i1 < width && 0 <= j1 < height && 0 <= i2 < width && 0 <= j2 < height
            && #[trigger] rotated_offset(i1, j1, height) == #[trigger] rotated_offset(
            i2,
            j2,
            height,
        ) implies i1 == i2 && j1 == j2 by {
        let q = i1 * height + (height - 1 - j1);
        lemma_split(q, height, i1, height - 1 - j1);
        lemma_split(q, height, i2, height - 1 - j2);
    }
    assert forall|q: int| 0 <= q < width * height implies {
        let (i, j) = #[trigger] source_of(q, height);
        0 <= i < width && 0 <= j < height && rotated_offset(i, j, height) == q * 2
    } by {
        lemma_row_col(q, height, width);
        let i = q / height;
        let j = height - 1 - q % height;
        assert(rotated_offset(i, j, height) == q * 2) by (nonlinear_arith)
            requires
                q == i * height + q % height,
                j == height - 1 - q % height,
        ;
    }
}

/// Splits pixel `p` of an image `d` pixels wide into its row and column.
proof fn lemma_row_col(p: int, d: int, rows: int)
    requires
        d > 0,
        0 <= p < rows * d,
    ensures
        0 <= p / d < rows,
        0 <= p % d < d,
        p == (p / d) * d + p % d,
{
    lemma_fundamental_div_mod(p, d);
    lemma_mod_pos_bound(p, d);
    let q = p / d;
    let r = p % d;
    assert(p == q * d + r) by (nonlinear_arith)
        requires
            p == d * q + r,
    ;
    assert(0 <= q < rows) by (nonlinear_arith)
        requires
            p == q * d + r,
            0 <= r < d,
            0 <= p < rows * d,
            d > 0,
    ;
}

/// Two quarter turns make a half turn.
pub proof fn lemma_two_rotations(src: Seq<u8>, width: int, height: int)
    requires
        width > 0,
        height > 0,
        src.len() == width * height * 2,
    ensures
        rotated(rotated(src, width, height), height, width) == half_turn(src, width, height),
{
    let r1 = rotated(src, width, height);
    let r2 = rotated(r1, height, width);
    let h = half_turn(src, width, height);
    assert(height * width == width * height) by (nonlinear_arith);
    assert forall|k: int| 0 <= k < r2.len() implies r2[k] == h[k] by {
        let p = k / 2;
        let b = k % 2;
        lemma_row_col(p, width, height);
        let i2 = p / width;
        let c2 = p % width;
        let q1 = (width - 1 - c2) * height + i2;
        assert(0 <= q1 < width * height) by (nonlinear_arith)
            requires
                q1 == (width - 1 - c2) * height + i2,
                0 <= c2 < width,
                0 <= i2 < height,
        ;
        let k1 = q1 * 2 + b;
        assert(k1 / 2 == q1 && k1 % 2 == b);
        lemma_split(q1, height, width - 1 - c2, i2);
        assert(r2[k] == r1[k1]);
        let s = ((height - 1 - i2) * width + (width - 1 - c2)) * 2 + b;
        assert(r1[k1] == src[s]);
        assert(s == (width * height - 1 - p) * 2 + b) by (nonlinear_arith)
            requires
                s == ((height - 1 - i2) * width + (width - 1 - c2)) * 2 + b,
                p == i2 * width + c2,
        ;
    }
    assert(r2 =~= h);
}

/// Turning an image by 180° twice gives the image back.
pub proof fn lemma_half_turn_twice(src: Seq<u8>, width: int, height: int)
    requires
        width > 0,
        height > 0,
        src.len() == width * height * 2,
    ensures
        half_turn(half_turn(src, width, height), width, height) == src,
{
    let h = half_turn(src, width, height);
    let h2 = half_turn(h, width, height);
    assert forall|k: int| 0 <= k < src.len() implies h2[k] == src[k] by {
        let k1 = (width * height - 1 - k / 2) * 2 + k % 2;
        assert(k1 / 2 == width * height - 1 - k / 2 && k1 % 2 == k % 2);
    }
    assert(h2 =~= src);
}

/// Four quarter turns, the dimensions swapping each time, give the image back.
pub proof fn lemma_four_rotations(src: Seq<u8>, width: int, height: int)
    requires
        width > 0,
        height > 0,
        src.len() == width * height * 2,
    ensures
        rotated(rotated(rotated(rotated(src, width, height), height, width), width, height), height, width) == src,
{
    lemma_two_rotations(src, width, height);
    let h = half_turn(src, width, height);
    lemma_two_rotations(h, width, height);
    lemma_half_turn_twice(src, width, height);
}

/// Writes the image `src`, `width` by `height` pixels, turned 90° clockwise
/// into the first `width * height * 2` bytes of `framebuf`: the source pixel
/// at column `i`, row `j` lands at byte `(i * height + (height - 1 - j)) * 2`.
/// The bytes of `framebuf` past the image are left as they were.
pub fn rotate_image_to_screen(src: &[u8], framebuf: &mut Vec<u8>, width: usize, height: usize)
    requires
        src@.len() == width * height * 2,
        old(framebuf)@.len() >= width * height * 2,
    ensures
        final(framebuf)@.len() == old(framebuf)@.len(),
        final(framebuf)@.subrange(0, width * height * 2) == rotated(src@, width as int, height as int),
        forall|k: int|
            width * height * 2 <= k < old(framebuf)@.len() ==> final(framebuf)@[k] == old(framebuf)@[k],
        forall|i: int, j: int|
            0 <= i < width && 0 <= j < height ==> {
                let d = #[trigger] rotated_offset(i, j, height as int);
                let s = source_offset(i, j, width as int);
                final(framebuf)@[d] == src@[s] && final(framebuf)@[d + 1] == src@[s + 1]
            },
{
    let ghost orig = framebuf@;
    let ghost image = rotated(src@, width as int, height as int);
    assert(width * height <= width * height * 2) by (nonlinear_arith)
        requires
            width >= 0,
            height >= 0,
    ;
    let len: usize = src.len();
    let n: usize = width * height;
    let mut p: usize = 0;
    while p < n
        invariant
            n == width * height,
            src@.len() == n * 2,
            len == src@.len(),
            image == rotated(src@, width as int, height as int),
            framebuf@.len() == orig.len(),
            orig.len() >= n * 2,
            p <= n,
            forall|k: int| 0 <= k < 2 * p ==> framebuf@[k] == image[k],
            forall|k: int| 2 * p <= k < orig.len() ==> framebuf@[k] == orig[k],
        decreases n - p,
    {
        assert(height > 0) by (nonlinear_arith)
            requires
                p < width * height,
                width >= 0,
        ;
        proof {
            lemma_row_col(p as int, height as int, width as int);
        }
        let i: usize = p / height;
        let c: usize = p % height;
        let j: usize = height - 1 - c;
        assert(j * width + i < width * height) by (nonlinear_arith)
            requires
                0 <= i < width,
                j < height,
        ;
        assert((j * width + i) * 2 < len);
        let from: usize = (j * width + i) * 2;
        let lo = src[from];
        let hi = src[from + 1];
        assert(image[2 * p] == lo && image[2 * p + 1] == hi) by {
            let k0 = 2 * p as int;
            assert(k0 / 2 == p && k0 % 2 == 0);
            assert((k0 + 1) / 2 == p && (k0 + 1) % 2 == 1);
        }
        framebuf.set(2 * p, lo);
        framebuf.set(2 * p + 1, hi);
        p = p + 1;
    }
    assert(framebuf@.subrange(0, n * 2) =~= image);
    assert forall|i: int, j: int| 0 <= i < width && 0 <= j < height implies {
        let d = #[trigger] rotated_offset(i, j, height as int);
        let s = source_offset(i, j, width as int);
        framebuf@[d] == src@[s] && framebuf@[d + 1] == src@[s + 1]
    } by {
        lemma_rotated_pixel(src@, width as int, height as int, i, j, 0);
        lemma_rotated_pixel(src@, width as int, height as int, i, j, 1);
    }
}

} // verus!
