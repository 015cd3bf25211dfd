//! Raster operations of the top-down image observation: a pixel buffer of
//! `width * height` pixels, row by row, each pixel one gray byte or three
//! RGB bytes.

use vstd::prelude::*;

verus! {

/// A drawing color, with the gray level used in grayscale images.
#[derive(Debug, Clone, Copy, PartialEq, Eq, Structural)]
pub struct PixelColor {
    pub r: u8,
    pub g: u8,
    pub b: u8,
    pub gray: u8,
}

/// Bytes per pixel: 1 for grayscale, 3 for RGB.
pub open spec fn spec_channels(grayscale: bool) -> int {
    if grayscale { 1 } else { 3 }
}

/// Offset of the first byte of pixel number `j`.
pub open spec fn offset(grayscale: bool, j: int) -> int {
    if grayscale { j } else { 3 * j }
}

/// Pixel number of column `px`, row `py` in an image `w` pixels wide.
pub open spec fn pixel_index(w: int, px: int, py: int) -> int {
    py * w + px
}

/// Byte `c` of a pixel of color `color`.
pub open spec fn component(color: PixelColor, grayscale: bool, c: int) -> u8 {
    if grayscale {
        color.gray
    } else if c == 0 {
        color.r
    } else if c == 1 {
        color.g
    } else {
        color.b
    }
}

/// Whether all bytes of pixel number `j` lie within a buffer of `len` bytes.
pub open spec fn fits(len: int, grayscale: bool, j: int) -> bool {
    if grayscale { j < len } else { 3 * j + 2 < len }
}

/// Byte `c` of the pixel at column `px`, row `py` of buffer `s`.
pub open spec fn cell(s: Seq<u8>, grayscale: bool, w: int, px: int, py: int, c: int) -> u8 {
    s[offset(grayscale, pixel_index(w, px, py)) + c]
}

/// Number of bytes per pixel.
pub fn channels(grayscale: bool) -> (n: usize)
    ensures
        n == spec_channels(grayscale),
{
    if grayscale { 1 } else { 3 }
}

/// Writes `color` at byte offset `idx`: one gray byte, or three RGB bytes;
/// a pixel that does not fit in the buffer is skipped.
pub fn set_pixel(pixels: &mut [u8], idx: usize, color: PixelColor, grayscale: bool)
    requires
        idx + 2 <= usize::MAX,
    ensures
        final(pixels)@ == (if grayscale {
            if idx < old(pixels)@.len() {
                old(pixels)@.update(idx as int, color.gray)
            } else {
                old(pixels)@
            }
        } else {
            if idx + 2 < old(pixels)@.len() {
                old(pixels)@.update(idx as int, color.r).update(idx + 1, color.g).update(idx + 2, color.b)
            } else {
                old(pixels)@
            }
        }),
{
    if grayscale {
        if idx < pixels.len() {
            pixels[idx] = color.gray;
        }
    } else if idx + 2 < pixels.len() {
        pixels[idx] = color.r;
        pixels[idx + 1] = color.g;
        pixels[idx + 2] = color.b;
    }
}

/// Paints every pixel of a `width` by `height` image with `color`; bytes
/// past the image are left as they are.
pub fn fill_background(pixels: &mut [u8], width: usize, height: usize, color: PixelColor, grayscale: bool)
    requires
        width * height * spec_channels(grayscale) <= old(pixels)@.len(),
    ensures
        final(pixels)@.len() == old(pixels)@.len(),
        forall|j: int, c: int|
            0 <= j < width * height && 0 <= c < spec_channels(grayscale) ==> #[trigger] final(pixels)@[offset(
                grayscale,
                j,
            ) + c] == component(color, grayscale, c),
        forall|k: int|
            width * height * spec_channels(grayscale) <= k < old(pixels)@.len() ==> #[trigger] final(pixels)@[k]
                == old(pixels)@[k],
{
    let ghost s0 = pixels@;
    let ghost ch = spec_channels(grayscale);
    let len = pixels.len();
    proof {
        assert(width * height <= width * height * ch) by (nonlinear_arith)
            requires
                ch >= 1,
                width >= 0,
                height >= 0,
        ;
    }
    let n = width * height;
    let mut i: usize = 0;
    while i < n
        invariant
            n == width * height,
            n * ch <= s0.len(),
            len == s0.len(),
            ch == spec_channels(grayscale),
            i <= n,
            pixels@.len() == s0.len(),
            forall|j: int, c: int|
                0 <= j < i && 0 <= c < ch ==> #[trigger] pixels@[offset(grayscale, j) + c] == component(
                    color,
                    grayscale,
                    c,
                ),
            forall|k: int| offset(grayscale, i as int) <= k < s0.len() ==> #[trigger] pixels@[k] == s0[k],
        decreases n - i,
    {
        proof {
            assert(offset(grayscale, i as int) + ch <= n * ch) by (nonlinear_arith)
                requires
                    i < n,
                    ch == 1 || ch == 3,
                    offset(grayscale, i as int) == i * ch,
            ;
        }
        if grayscale {
            pixels[i] = color.gray;
        } else {
            assert(i * 3 + 2 < s0.len());
            pixels[i * 3] = color.r;
            pixels[i * 3 + 1] = color.g;
            pixels[i * 3 + 2] = color.b;
        }
        i = i + 1;
    }
    proof {
        assert(offset(grayscale, n as int) == n * ch);
    }
}

/// Whether the pixel at column `px`, row `py` is covered by a disc of radius
/// `r` pixels centered at (`cx`, `cy`): its offsets from the center are at
/// most `r` in each direction and its squared distance at most `r * r`.
pub open spec fn in_disc(cx: int, cy: int, r: int, px: int, py: int) -> bool {
    let dx = px - cx;
    let dy = py - cy;
    &&& -r <= dx <= r
    &&& -r <= dy <= r
    &&& dx * dx + dy * dy <= r * r
}

/// Whether the disc scan has reached the pixel at (`px`, `py`): rows are
/// scanned from the top, columns from the left, and the scan stands at
/// offset (`col`, `row`) from the center.
pub open spec fn scanned(cx: int, cy: int, px: int, py: int, row: int, col: int) -> bool {
    py - cy < row || (py - cy == row && px - cx < col)
}

/// What byte `c` of the pixel at (`px`, `py`) holds after the disc scan has
/// reached (`col`, `row`), starting from buffer `s0`.
pub open spec fn disc_cell(
    s0: Seq<u8>,
    w: int,
    cx: int,
    cy: int,
    r: int,
    color: PixelColor,
    grayscale: bool,
    px: int,
    py: int,
    c: int,
    row: int,
    col: int,
) -> u8 {
    if in_disc(cx, cy, r, px, py) && scanned(cx, cy, px, py, row, col) && fits(
        s0.len() as int,
        grayscale,
        pixel_index(w, px, py),
    ) {
        component(color, grayscale, c)
    } else {
        cell(s0, grayscale, w, px, py, c)
    }
}

/// The state of the buffer while the disc is drawn: pixels reached by the
/// scan and covered by the disc hold the color, all other bytes are as in `s0`.
pub open spec fn disc_progress(
    s: Seq<u8>,
    s0: Seq<u8>,
    w: int,
    h: int,
    cx: int,
    cy: int,
    r: int,
    color: PixelColor,
    grayscale: bool,
    row: int,
    col: int,
) -> bool {
    &&& s.len() == s0.len()
    &&& forall|k: int| w * h * spec_channels(grayscale) <= k < s0.len() ==> #[trigger] s[k] == s0[k]
    &&& forall|px: int, py: int, c: int|
        0 <= px < w && 0 <= py < h && 0 <= c < spec_channels(grayscale) && offset(
            grayscale,
            pixel_index(w, px, py),
        ) + c < s0.len() ==> #[trigger] cell(s, grayscale, w, px, py, c) == disc_cell(
            s0,
            w,
            cx,
            cy,
            r,
            color,
            grayscale,
            px,
            py,
            c,
            row,
            col,
        )
}

/// The buffer after a disc has been drawn on `s0`: every pixel covered by
/// the disc that fits in the buffer holds the color; all other bytes are as
/// in `s0`.
pub open spec fn disc_drawn(
    s: Seq<u8>,
    s0: Seq<u8>,
    w: int,
    h: int,
    cx: int,
    cy: int,
    r: int,
    color: PixelColor,
    grayscale: bool,
) -> bool {
    &&& s.len() == s0.len()
    &&& forall|k: int| w * h * spec_channels(grayscale) <= k < s0.len() ==> #[trigger] s[k] == s0[k]
    &&& forall|px: int, py: int, c: int|
        0 <= px < w && 0 <= py < h && 0 <= c < spec_channels(grayscale) && offset(
            grayscale,
            pixel_index(w, px, py),
        ) + c < s0.len() ==> #[trigger] cell(s, grayscale, w, px, py, c) == (if in_disc(cx, cy, r, px, py)
            && fits(s0.len() as int, grayscale, pixel_index(w, px, py)) {
            component(color, grayscale, c)
        } else {
            cell(s0, grayscale, w, px, py, c)
        })
}

/// Draws a filled disc of radius `radius_px` pixels centered at pixel
/// (`cx`, `cy`) on a `width` by `height` image; the parts of the disc outside
/// the image are clipped.
pub fn draw_circle(
    pixels: &mut [u8],
    width: usize,
    height: usize,
    cx: i32,
    cy: i32,
    radius_px: i32,
    color: PixelColor,
    grayscale: bool,
)
    requires
        width <= 0x7fff_ffff,
        height <= 0x7fff_ffff,
        width * height * 3 <= usize::MAX,
        -0x4000_0000 <= cx <= 0x4000_0000,
        -0x4000_0000 <= cy <= 0x4000_0000,
        -0x7fff <= radius_px <= 0x7fff,
    ensures
        disc_drawn(final(pixels)@, old(pixels)@, width as int, height as int, cx as int, cy as int, radius_px as int, color, grayscale),
{
    let ghost s0 = pixels@;
    let ghost w = width as int;
    let ghost h = height as int;
    let ch = channels(grayscale);
    let r = radius_px;
    let mut dy: i32 = -r;
    while dy <= r
        invariant
            width <= 0x7fff_ffff,
            height <= 0x7fff_ffff,
            width * height * 3 <= usize::MAX,
            -0x4000_0000 <= cx <= 0x4000_0000,
            -0x4000_0000 <= cy <= 0x4000_0000,
            -0x7fff <= r <= 0x7fff,
            ch == spec_channels(grayscale),
            w == width,
            h == height,
            -r <= dy,
            dy <= r + 1 || dy == -r,
            disc_progress(pixels@, s0, w, h, cx as int, cy as int, r as int, color, grayscale, dy as int, -r as int),
        decreases r + 1 - dy,
    {
        let mut dx: i32 = -r;
        while dx <= r
            invariant
                width <= 0x7fff_ffff,
                height <= 0x7fff_ffff,
                width * height * 3 <= usize::MAX,
                -0x4000_0000 <= cx <= 0x4000_0000,
                -0x4000_0000 <= cy <= 0x4000_0000,
                -0x7fff <= r <= 0x7fff,
                ch == spec_channels(grayscale),
                w == width,
                h == height,
                -r <= dy <= r,
                -r <= dx <= r + 1,
                disc_progress(pixels@, s0, w, h, cx as int, cy as int, r as int, color, grayscale, dy as int, dx as int),
            decreases r + 1 - dx,
        {
            let ghost before = pixels@;
            proof {
                assert(dx * dx <= 0x7fff * 0x7fff) by (nonlinear_arith)
                    requires -0x7fff <= dx <= 0x7fff;
                assert(dy * dy <= 0x7fff * 0x7fff) by (nonlinear_arith)
                    requires -0x7fff <= dy <= 0x7fff;
                assert(r * r <= 0x7fff * 0x7fff) by (nonlinear_arith)
                    requires -0x7fff <= r <= 0x7fff;
                assert(0 <= dx * dx && 0 <= dy * dy) by (nonlinear_arith);
            }
            let mut written = false;
            if dx * dx + dy * dy <= r * r {
                let px = cx + dx;
                let py = cy + dy;
                if px >= 0 && px < width as i32 && py >= 0 && py < height as i32 {
                    proof {
                        lemma_pixel_index(w, h, px as int, py as int, px as int, py as int);
                        assert(pixel_index(w, px as int, py as int) * 3 < w * h * 3);
                    }
                    let idx = (py as usize * width + px as usize) * ch;
                    set_pixel(pixels, idx, color, grayscale);
                    written = true;
                    proof {
                        lemma_disc_write(pixels@, before, s0, w, h, cx as int, cy as int, r as int, color, grayscale, dx as int, dy as int);
                    }
                }
            }
            proof {
                if !written {
                    lemma_disc_skip(pixels@, s0, w, h, cx as int, cy as int, r as int, color, grayscale, dx as int, dy as int);
                }
            }
            dx = dx + 1;
        }
        dy = dy + 1;
    }
}

/// The scan passes the pixel at offset (`dx`, `dy`) without writing: it is
/// not covered, lies outside the image, or does not fit.
proof fn lemma_disc_skip(
    s: Seq<u8>,
    s0: Seq<u8>,
    w: int,
    h: int,
    cx: int,
    cy: int,
    r: int,
    color: PixelColor,
    grayscale: bool,
    dx: int,
    dy: int,
)
    requires
        disc_progress(s, s0, w, h, cx, cy, r, color, grayscale, dy, dx),
        !(in_disc(cx, cy, r, cx + dx, cy + dy) && 0 <= cx + dx < w && 0 <= cy + dy < h),
    ensures
        disc_progress(s, s0, w, h, cx, cy, r, color, grayscale, dy, dx + 1),
{
}

/// The scan writes the pixel at offset (`dx`, `dy`), which is covered and
/// lies inside the image.
proof fn lemma_disc_write(
    s: Seq<u8>,
    before: Seq<u8>,
    s0: Seq<u8>,
    w: int,
    h: int,
    cx: int,
    cy: int,
    r: int,
    color: PixelColor,
    grayscale: bool,
    dx: int,
    dy: int,
)
    requires
        disc_progress(before, s0, w, h, cx, cy, r, color, grayscale, dy, dx),
        in_disc(cx, cy, r, cx + dx, cy + dy),
        0 <= cx + dx < w,
        0 <= cy + dy < h,
        s == (if grayscale {
            if offset(grayscale, pixel_index(w, cx + dx, cy + dy)) < before.len() {
                before.update(offset(grayscale, pixel_index(w, cx + dx, cy + dy)), color.gray)
            } else {
                before
            }
        } else {
            if offset(grayscale, pixel_index(w, cx + dx, cy + dy)) + 2 < before.len() {
                before.update(offset(grayscale, pixel_index(w, cx + dx, cy + dy)), color.r).update(
                    offset(grayscale, pixel_index(w, cx + dx, cy + dy)) + 1,
                    color.g,
                ).update(offset(grayscale, pixel_index(w, cx + dx, cy + dy)) + 2, color.b)
            } else {
                before
            }
        }),
    ensures
        disc_progress(s, s0, w, h, cx, cy, r, color, grayscale, dy, dx + 1),
{
    let qx = cx + dx;
    let qy = cy + dy;
    let j0 = pixel_index(w, qx, qy);
    lemma_pixel_index(w, h, qx, qy, qx, qy);
    assert(offset(grayscale, j0) + spec_channels(grayscale) <= w * h * spec_channels(grayscale)) by (nonlinear_arith)
        requires
            0 <= j0 < w * h,
            offset(grayscale, j0) == j0 * spec_channels(grayscale),
    ;
    assert forall|px: int, py: int, c: int|
        0 <= px < w && 0 <= py < h && 0 <= c < spec_channels(grayscale) && offset(
            grayscale,
            pixel_index(w, px, py),
        ) + c < s0.len() implies #[trigger] cell(s, grayscale, w, px, py, c) == disc_cell(
            s0,
            w,
            cx,
            cy,
            r,
            color,
            grayscale,
            px,
            py,
            c,
            dy,
            dx + 1,
        ) by {
        lemma_pixel_index(w, h, px, py, qx, qy);
        assert(cell(before, grayscale, w, px, py, c) == disc_cell(s0, w, cx, cy, r, color, grayscale, px, py, c, dy, dx));
    }
}

/// Distinct pixels of an image have distinct pixel numbers, all below `w * h`.
pub proof fn lemma_pixel_index(w: int, h: int, px: int, py: int, qx: int, qy: int)
    requires
        0 <= px < w,
        0 <= qx < w,
        0 <= py < h,
        0 <= qy < h,
    ensures
        0 <= pixel_index(w, px, py) < w * h,
        pixel_index(w, px, py) == pixel_index(w, qx, qy) ==> px == qx && py == qy,
{
    assert(0 <= py * w + px < w * h) by (nonlinear_arith)
        requires
            0 <= px < w,
            0 <= py < h,
    ;
    if py * w + px == qy * w + qx {
        assert(py == qy && px == qx) by (nonlinear_arith)
            requires
                0 <= px < w,
                0 <= qx < w,
                0 <= py,
                0 <= qy,
                py * w + px == qy * w + qx,
        ;
    }
}

} // verus!
