//! The CPU-readable render target: a bounded, explicitly sized buffer with
//! an explicit row stride standing in for persistently mapped image memory.
//!
//! The driver reports the row pitch at creation; it may exceed `width * 4`
//! because of alignment, and every row-wise copy must use it. A full frame
//! written through the stride reads back byte-for-byte.

use vstd::prelude::*;

verus! {

use crate::Fatal;
use vstd::arithmetic::mul::lemma_mul_inequality;
use vstd::arithmetic::div_mod::lemma_fundamental_div_mod;

/// `y * p + q1 < h * p` whenever row `y` is in range and `q1` stays inside
/// one row of pitch `p`.
pub(crate) proof fn lemma_row_bound(y: int, h: int, p: int, q: int)
    by (nonlinear_arith)
    requires
        0 <= y < h,
        0 <= q < p,
    ensures
        0 <= y * p,
        y * p + q < h * p,
{
}

/// A row segment of length `w4 <= p` starting at row `y` lies inside the
/// first `h` rows.
pub(crate) proof fn lemma_row_segment(y: int, h: int, p: int, w4: int)
    by (nonlinear_arith)
    requires
        0 <= y < h,
        0 < w4 <= p,
    ensures
        0 <= y * p,
        y * p + w4 <= h * p,
{
}

/// Byte offsets in distinct rows never collide: anything in row `y1` lies
/// strictly below the start of row `y2`.
pub(crate) proof fn lemma_rows_disjoint(y1: int, y2: int, p: int, q1: int, q2: int)
    by (nonlinear_arith)
    requires
        0 <= y1 < y2,
        0 <= q1 < p,
        0 <= q2,
    ensures
        y1 * p + q1 < y2 * p + q2,
{
}

/// A vector of `n` zero bytes.
fn zeroed(n: usize) -> (v: Vec<u8>)
    ensures
        v@.len() == n,
        forall|j: int| 0 <= j < v@.len() ==> v@[j] == 0,
{
    let mut v: Vec<u8> = Vec::new();
    let mut i: usize = 0;
    while i < n
        invariant
            i <= n,
            v@.len() == i,
            forall|j: int| 0 <= j < v@.len() ==> v@[j] == 0,
        decreases n - i,
    {
        v.push(0);
        i = i + 1;
    }
    v
}

/// Copies `count` bytes from `src[src_start..]` to `buf[start..]`, one byte
/// at a time; everything outside the destination segment is untouched.
fn copy_segment(buf: &mut Vec<u8>, start: usize, src: &Vec<u8>, src_start: usize, count: usize)
    requires
        start + count <= old(buf)@.len(),
        src_start + count <= src@.len(),
    ensures
        final(buf)@.len() == old(buf)@.len(),
        forall|j: int|
            start <= j < start + count ==> #[trigger] final(buf)@[j] == src@[j - start + src_start],
        forall|j: int|
            0 <= j < final(buf)@.len() && !(start <= j < start + count)
                ==> #[trigger] final(buf)@[j] == old(buf)@[j],
{
    let n = buf.len();
    let sn = src.len();
    let mut k: usize = 0;
    while k < count
        invariant
            n == buf@.len(),
            sn == src@.len(),
            start + count <= buf@.len(),
            src_start + count <= src@.len(),
            buf@.len() == old(buf)@.len(),
            k <= count,
            forall|j: int|
                start <= j < start + k ==> #[trigger] buf@[j] == src@[j - start + src_start],
            forall|j: int|
                0 <= j < buf@.len() && !(start <= j < start + k) ==> #[trigger] buf@[j] == old(
                    buf,
                )@[j],
        decreases count - k,
    {
        let b = src[src_start + k];
        buf[start + k] = b;
        k = k + 1;
    }
}

/// A host-visible, host-coherent color target of fixed resolution. The
/// buffer stands for the persistently mapped image memory; `row_pitch` is
/// the driver-reported byte distance between consecutive rows.
pub struct HostVisibleSurface {
    pub width: u32,
    pub height: u32,
    pub row_pitch: usize,
    pub buffer: Vec<u8>,
}

/// The byte at column offset `i` of row `y`, addressed through the stride.
pub open spec fn frame_byte(s: HostVisibleSurface, y: int, i: int) -> u8 {
    s.buffer@[y * s.row_pitch + i]
}

impl HostVisibleSurface {
    /// The stride covers a full row of pixels and the buffer covers all
    /// rows at that stride.
    pub open spec fn well_formed(self) -> bool {
        &&& self.width > 0
        &&& self.height > 0
        &&& 4 * self.width <= self.row_pitch
        &&& self.buffer@.len() == self.row_pitch * self.height
    }

    /// Allocates the color target: `width x height` pixels of four bytes,
    /// rows spaced by the driver-reported `row_pitch`, memory zeroed and
    /// mapped for the surface's lifetime.
    ///
    /// Succeeds exactly when the dimensions are non-zero, the reported
    /// stride covers a row of pixels, and the allocation fits the address
    /// space; the returned stride is authoritative for every row copy.
    pub fn create_host_visible(width: u32, height: u32, row_pitch: usize) -> (r: Result<
        Self,
        Fatal,
    >)
        ensures
            match r {
                Ok(s) => {
                    &&& width > 0 && height > 0
                    &&& 4 * width <= row_pitch
                    &&& row_pitch * height <= usize::MAX
                    &&& s.well_formed()
                    &&& s.width == width
                    &&& s.height == height
                    &&& s.row_pitch == row_pitch
                    &&& forall|j: int| 0 <= j < s.buffer@.len() ==> s.buffer@[j] == 0
                },
                Err(Fatal::InvalidDimensions) => width == 0 || height == 0 || 4 * width
                    > row_pitch,
                Err(Fatal::AllocationTooLarge) => {
                    &&& width > 0 && height > 0
                    &&& 4 * width <= row_pitch
                    &&& row_pitch * height > usize::MAX
                },
                Err(_) => false,
            },
    {
        if width == 0 || height == 0 {
            return Err(Fatal::InvalidDimensions);
        }
        let min_pitch = match (width as usize).checked_mul(4) {
            Some(m) => m,
            None => {
                // a stride of at least 4 * width cannot fit the address space
                return Err(Fatal::InvalidDimensions);
            },
        };
        if min_pitch > row_pitch {
            return Err(Fatal::InvalidDimensions);
        }
        match row_pitch.checked_mul(height as usize) {
            None => Err(Fatal::AllocationTooLarge),
            Some(n) => Ok(
                HostVisibleSurface { width, height, row_pitch, buffer: zeroed(n) },
            ),
        }
    }

    /// The driver-reported row stride, authoritative for row-wise copies.
    pub fn get_row_pitch(&self) -> (r: usize)
        ensures
            r == self.row_pitch,
    {
        self.row_pitch
    }

    /// Read-only access to the rendered bytes, `row_pitch` apart per row.
    pub fn get_frame_buffer(&self) -> (r: &Vec<u8>)
        ensures
            r@ == self.buffer@,
    {
        &self.buffer
    }

    /// Writes a tightly packed frame (`4 * width` bytes per row) into the
    /// surface, spacing rows by the reported stride.
    pub fn write_frame(&mut self, pixels: &Vec<u8>)
        requires
            old(self).well_formed(),
            pixels@.len() == 4 * old(self).width * old(self).height,
        ensures
            final(self).well_formed(),
            final(self).width == old(self).width,
            final(self).height == old(self).height,
            final(self).row_pitch == old(self).row_pitch,
            final(self).buffer@.len() == old(self).buffer@.len(),
            forall|y: int, i: int|
                0 <= y < final(self).height && 0 <= i < 4 * final(self).width ==> #[trigger] frame_byte(
                    *final(self),
                    y,
                    i,
                ) == pixels@[y * (4 * final(self).width) + i],
    {
        let w4 = 4 * (self.width as usize);
        let h = self.height as usize;
        let pitch = self.row_pitch;
        let blen = self.buffer.len();
        let plen = pixels.len();
        let mut y: usize = 0;
        while y < h
            invariant
                self.well_formed(),
                self.width == old(self).width,
                self.height == old(self).height,
                self.row_pitch == old(self).row_pitch,
                self.buffer@.len() == old(self).buffer@.len(),
                w4 == 4 * self.width,
                h == self.height,
                pitch == self.row_pitch,
                blen == self.buffer@.len(),
                plen == pixels@.len(),
                pixels@.len() == w4 * h,
                y <= h,
                forall|yy: int, i: int|
                    0 <= yy < y && 0 <= i < w4 ==> #[trigger] frame_byte(*self, yy, i)
                        == pixels@[yy * w4 + i],
            decreases h - y,
        {
            proof {
                lemma_row_segment(y as int, h as int, pitch as int, w4 as int);
                lemma_row_segment(y as int, h as int, w4 as int, w4 as int);
            }
            let start = y * pitch;
            let src_start = y * w4;
            let ghost pre = *self;
            copy_segment(&mut self.buffer, start, pixels, src_start, w4);
            proof {
                assert forall|yy: int, i: int|
                    0 <= yy < y + 1 && 0 <= i < w4 implies #[trigger] frame_byte(*self, yy, i)
                    == pixels@[yy * w4 + i] by {
                    if yy < y {
                        lemma_row_bound(yy, h as int, pitch as int, i);
                        lemma_rows_disjoint(yy, y as int, pitch as int, i, 0);
                        assert(self.buffer@[yy * pitch + i] == pre.buffer@[yy * pitch + i]);
                        assert(frame_byte(pre, yy, i) == pixels@[yy * w4 + i]);
                    } else {
                        assert(self.buffer@[start + i] == pixels@[(start + i) - start
                            + src_start]);
                    }
                }
            }
            y = y + 1;
        }
    }

    /// Reads the frame back as tightly packed bytes, honouring the stride.
    pub fn read_frame(&self) -> (r: Vec<u8>)
        requires
            self.well_formed(),
        ensures
            r@.len() == 4 * self.width * self.height,
            forall|y: int, i: int|
                0 <= y < self.height && 0 <= i < 4 * self.width ==> r@[y * (4 * self.width) + i]
                    == #[trigger] frame_byte(*self, y, i),
    {
        let w4 = 4 * (self.width as usize);
        let h = self.height as usize;
        let pitch = self.row_pitch;
        let blen = self.buffer.len();
        let mut r: Vec<u8> = Vec::new();
        proof {
            lemma_mul_inequality(4 * self.width as int, pitch as int, h as int);
        }
        let mut y: usize = 0;
        while y < h
            invariant
                self.well_formed(),
                w4 == 4 * self.width,
                h == self.height,
                pitch == self.row_pitch,
                blen == self.buffer@.len(),
                y <= h,
                r@.len() == y * w4,
                forall|yy: int, i: int|
                    0 <= yy < y && 0 <= i < w4 ==> r@[yy * w4 + i] == #[trigger] frame_byte(
                        *self,
                        yy,
                        i,
                    ),
            decreases h - y,
        {
            proof {
                lemma_row_segment(y as int, h as int, pitch as int, w4 as int);
                lemma_row_segment(y as int, h as int, w4 as int, w4 as int);
            }
            let mut i: usize = 0;
            while i < w4
                invariant
                    self.well_formed(),
                    w4 == 4 * self.width,
                    h == self.height,
                    pitch == self.row_pitch,
                    blen == self.buffer@.len(),
                    y < h,
                    y * pitch + w4 <= blen,
                    i <= w4,
                    r@.len() == y * w4 + i,
                    forall|yy: int, ii: int|
                        0 <= yy < y && 0 <= ii < w4 ==> r@[yy * w4 + ii] == #[trigger] frame_byte(
                            *self,
                            yy,
                            ii,
                        ),
                    forall|ii: int|
                        0 <= ii < i ==> r@[y * w4 + ii] == #[trigger] frame_byte(*self, y as int, ii),
                decreases w4 - i,
            {
                let b = self.buffer[y * pitch + i];
                r.push(b);
                proof {
                    assert forall|yy: int, ii: int|
                        0 <= yy < y && 0 <= ii < w4 implies r@[yy * w4 + ii] == #[trigger] frame_byte(
                        *self,
                        yy,
                        ii,
                    ) by {
                        lemma_row_bound(yy, h as int, w4 as int, ii);
                        lemma_rows_disjoint(yy, y as int, w4 as int, ii, i as int);
                    }
                    assert(r@[y as int * w4 + i] == b);
                }
                i = i + 1;
            }
            proof {
                assert((y + 1) * (w4 as int) == y * (w4 as int) + w4) by (nonlinear_arith);
            }
            y = y + 1;
        }
        proof {
            assert(h as int * (w4 as int) == 4 * self.width * self.height) by (nonlinear_arith)
                requires
                    w4 == 4 * self.width,
                    h == self.height;
        }
        r
    }

    /// Fills the target with the diagnostic checkerboard: 64-pixel cells,
    /// green (BGRA `0,255,0,255`) on even cells, blue (`255,0,0,255`) on
    /// odd ones, written through the reported stride.
    pub fn fill_test_pattern(&mut self)
        requires
            old(self).well_formed(),
        ensures
            final(self).well_formed(),
            final(self).width == old(self).width,
            final(self).height == old(self).height,
            final(self).row_pitch == old(self).row_pitch,
            final(self).buffer@.len() == old(self).buffer@.len(),
            forall|x: int, y: int|
                0 <= x < final(self).width && 0 <= y < final(self).height ==> {
                    let q = #[trigger] crate::texture::spec_checker_pixel(
                        x,
                        y,
                        64,
                        (0u8, 255u8, 0u8, 255u8),
                        (255u8, 0u8, 0u8, 255u8),
                    );
                    &&& frame_byte(*final(self), y, 4 * x) == q.0
                    &&& frame_byte(*final(self), y, 4 * x + 1) == q.1
                    &&& frame_byte(*final(self), y, 4 * x + 2) == q.2
                    &&& frame_byte(*final(self), y, 4 * x + 3) == q.3
                },
    {
        let blen = self.buffer.len();
        proof {
            lemma_mul_inequality(4 * self.width as int, self.row_pitch as int, self.height as int);
            assert(4 * self.width * self.height <= usize::MAX) by (nonlinear_arith)
                requires
                    (4 * self.width as int) * (self.height as int) <= blen <= usize::MAX;
        }
        let pattern = crate::texture::generate_checkerboard(
            self.width,
            self.height,
            64,
            (0, 255, 0, 255),
            (255, 0, 0, 255),
        );
        proof {
            assert(pattern@.len() == 4 * self.width * self.height);
        }
        self.write_frame(&pattern);
        proof {
            let w = final(self).width as int;
            assert forall|x: int, y: int|
                0 <= x < final(self).width && 0 <= y < final(self).height implies {
                let q = #[trigger] crate::texture::spec_checker_pixel(
                    x,
                    y,
                    64,
                    (0u8, 255u8, 0u8, 255u8),
                    (255u8, 0u8, 0u8, 255u8),
                );
                &&& frame_byte(*final(self), y, 4 * x) == q.0
                &&& frame_byte(*final(self), y, 4 * x + 1) == q.1
                &&& frame_byte(*final(self), y, 4 * x + 2) == q.2
                &&& frame_byte(*final(self), y, 4 * x + 3) == q.3
            } by {
                assert(crate::texture::checker_bytes_at(
                    pattern@,
                    w,
                    x,
                    y,
                    64,
                    (0u8, 255u8, 0u8, 255u8),
                    (255u8, 0u8, 0u8, 255u8),
                ));
                assert(y * (4 * w) + 4 * x == (y * w + x) * 4) by (nonlinear_arith);
            }
        }
    }
}

/// Writing a tightly packed frame through the stride and reading it back
/// yields the same bytes: for any well-formed surface whose rows hold
/// `pixels` (as `write_frame` ensures) and any readback extracted from the
/// same rows (as `read_frame` ensures), the two byte streams are equal.
pub proof fn lemma_frame_round_trip(s: HostVisibleSurface, pixels: Seq<u8>, readback: Seq<u8>)
    requires
        s.well_formed(),
        pixels.len() == 4 * s.width * s.height,
        readback.len() == 4 * s.width * s.height,
        forall|y: int, i: int|
            0 <= y < s.height && 0 <= i < 4 * s.width ==> #[trigger] frame_byte(s, y, i)
                == pixels[y * (4 * s.width) + i],
        forall|y: int, i: int|
            0 <= y < s.height && 0 <= i < 4 * s.width ==> readback[y * (4 * s.width) + i]
                == #[trigger] frame_byte(s, y, i),
    ensures
        readback == pixels,
{
    let w4 = 4 * s.width as int;
    let h = s.height as int;
    assert forall|j: int| 0 <= j < readback.len() implies readback[j] == pixels[j] by {
        let y = j / w4;
        let i = j % w4;
        lemma_fundamental_div_mod(j, w4);
        assert(0 <= i < w4);
        assert(0 <= y) by (nonlinear_arith)
            requires
                j >= 0,
                w4 > 0,
                j == w4 * y + i,
                0 <= i < w4;
        assert(y < h) by (nonlinear_arith)
            requires
                j < w4 * h,
                w4 > 0,
                j == w4 * y + i,
                0 <= i < w4;
        assert(j == y * w4 + i);
        assert(readback[y * w4 + i] == frame_byte(s, y, i));
        assert(frame_byte(s, y, i) == pixels[y * w4 + i]);
    }
    assert(readback =~= pixels);
}

} // verus!
