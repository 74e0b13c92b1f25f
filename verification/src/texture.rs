//! Procedural texture content: the checkerboard pattern sampled by the
//! fragment stage, generated once at construction and immutable thereafter.
//! The same generator also fills the diagnostic test pattern of the
//! host-visible target.

use vstd::prelude::*;

verus! {

/// Pixels earlier in row-major order occupy strictly smaller indices.
proof fn lemma_pixel_order(y1: int, x1: int, y2: int, x2: int, w: int)
    by (nonlinear_arith)
    requires
        0 <= x1 < w,
        0 <= x2 < w,
        0 <= y1,
        y1 < y2 || (y1 == y2 && x1 < x2),
    ensures
        0 <= y1 * w + x1,
        y1 * w + x1 < y2 * w + x2,
{
}

/// The color of cell-checkered pixel `(x, y)`: `even` where the cell
/// parity is even, `odd` elsewhere.
pub open spec fn spec_checker_pixel(
    x: int,
    y: int,
    cell: int,
    even: (u8, u8, u8, u8),
    odd: (u8, u8, u8, u8),
) -> (u8, u8, u8, u8) {
    if ((x / cell) + (y / cell)) % 2 == 0 {
        even
    } else {
        odd
    }
}

/// Pixel `(x, y)` of the tightly packed stream `r` (row-major, four bytes
/// per pixel) holds its checkerboard color.
pub open spec fn checker_bytes_at(
    r: Seq<u8>,
    w: int,
    x: int,
    y: int,
    cell: int,
    even: (u8, u8, u8, u8),
    odd: (u8, u8, u8, u8),
) -> bool {
    let q = spec_checker_pixel(x, y, cell, even, odd);
    &&& r[(y * w + x) * 4] == q.0
    &&& r[(y * w + x) * 4 + 1] == q.1
    &&& r[(y * w + x) * 4 + 2] == q.2
    &&& r[(y * w + x) * 4 + 3] == q.3
}

/// Generates a tightly packed checkerboard image: four bytes per pixel,
/// row-major, cells of `cell x cell` pixels alternating between the two
/// given colors, the origin cell taking `even`.
pub fn generate_checkerboard(
    width: u32,
    height: u32,
    cell: u32,
    even: (u8, u8, u8, u8),
    odd: (u8, u8, u8, u8),
) -> (r: Vec<u8>)
    requires
        cell > 0,
        4 * width * height <= usize::MAX,
    ensures
        r@.len() == 4 * width * height,
        forall|x: int, y: int|
            0 <= x < width && 0 <= y < height ==> #[trigger] checker_bytes_at(
                r@,
                width as int,
                x,
                y,
                cell as int,
                even,
                odd,
            ),
{
    let w = width as usize;
    let h = height as usize;
    let mut r: Vec<u8> = Vec::new();
    let mut y: usize = 0;
    while y < h
        invariant
            w == width,
            h == height,
            cell > 0,
            4 * width * height <= usize::MAX,
            y <= h,
            r@.len() == (y * w) * 4,
            forall|xx: int, yy: int|
                0 <= xx < width && 0 <= yy < y ==> #[trigger] checker_bytes_at(
                    r@,
                    width as int,
                    xx,
                    yy,
                    cell as int,
                    even,
                    odd,
                ),
        decreases h - y,
    {
        let mut x: usize = 0;
        while x < w
            invariant
                w == width,
                h == height,
                cell > 0,
                4 * width * height <= usize::MAX,
                y < h,
                x <= w,
                r@.len() == (y * w + x) * 4,
                forall|xx: int, yy: int|
                    0 <= xx < width && 0 <= yy < y ==> #[trigger] checker_bytes_at(
                        r@,
                        width as int,
                        xx,
                        yy,
                        cell as int,
                        even,
                        odd,
                    ),
                forall|xx: int|
                    0 <= xx < x ==> #[trigger] checker_bytes_at(
                        r@,
                        width as int,
                        xx,
                        y as int,
                        cell as int,
                        even,
                        odd,
                    ),
            decreases w - x,
        {
            proof {
                lemma_pixel_order(y as int, x as int, h as int, 0, w as int);
                assert((y * w + x) * 4 + 4 <= ((h as int) * (w as int)) * 4) by (nonlinear_arith)
                    requires
                        (y as int) * (w as int) + (x as int) < (h as int) * (w as int);
                assert(((h as int) * (w as int)) * 4 == 4 * width * height) by (nonlinear_arith)
                    requires
                        w == width,
                        h == height;
            }
            let parity = ((x as u64 / cell as u64) + (y as u64 / cell as u64)) % 2;
            let q = if parity == 0 {
                even
            } else {
                odd
            };
            let ghost pre = r@;
            r.push(q.0);
            r.push(q.1);
            r.push(q.2);
            r.push(q.3);
            proof {
                assert forall|xx: int, yy: int|
                    0 <= xx < width && (0 <= yy < y || (yy == y && 0 <= xx < x))
                        implies #[trigger] checker_bytes_at(
                    r@,
                    width as int,
                    xx,
                    yy,
                    cell as int,
                    even,
                    odd,
                ) by {
                    lemma_pixel_order(yy, xx, y as int, x as int, w as int);
                    assert(checker_bytes_at(pre, width as int, xx, yy, cell as int, even, odd));
                }
                assert(checker_bytes_at(r@, width as int, x as int, y as int, cell as int, even, odd));
            }
            x = x + 1;
        }
        proof {
            assert(((y as int) * (w as int) + (w as int)) * 4 == ((y as int + 1) * (w as int))
                * 4) by (nonlinear_arith);
        }
        y = y + 1;
    }
    proof {
        assert(((h as int) * (w as int)) * 4 == 4 * width * height) by (nonlinear_arith)
            requires
                w == width,
                h == height;
    }
    r
}

} // verus!
