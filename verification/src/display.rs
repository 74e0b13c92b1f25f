//! The display-sink side of the blit path: the table of display modes a
//! sink offers, and the row-wise copy from the rendered surface into the
//! sink's own buffer.
//!
//! A resolution change is requested by mode index; an index out of range is
//! reported and leaves the current mode unchanged. The blit copies each row
//! using the source's reported stride and the destination's own stride, and
//! bounds-checks every row against both buffers before copying it.

use vstd::prelude::*;

verus! {

use crate::surface::{lemma_row_bound, lemma_rows_disjoint};

/// Errors of the display sink. `ModeOutOfRange` is recoverable: the current
/// mode persists. The others are construction failures.
#[derive(Clone, Copy, Debug, PartialEq, Eq, Structural)]
pub enum DisplayError {
    NoDisplayFound,
    NoModeAvailable,
    ModeOutOfRange,
    PresentFailed,
}

/// The display modes a sink reported, the selected mode, and its size.
pub struct ModeTable {
    pub modes: Vec<(u32, u32)>,
    pub current: usize,
    pub width: u32,
    pub height: u32,
}

impl ModeTable {
    /// The selected index is in range and the size is its mode's size.
    pub open spec fn well_formed(self) -> bool {
        &&& (self.current as int) < self.modes@.len()
        &&& (self.width, self.height) == self.modes@[self.current as int]
    }

    /// Adopts the reported mode list, starting on its first mode. Fails
    /// exactly when the sink reported no mode at all.
    pub fn new(modes: Vec<(u32, u32)>) -> (r: Result<Self, DisplayError>)
        ensures
            match r {
                Ok(t) => {
                    &&& modes@.len() > 0
                    &&& t.well_formed()
                    &&& t.modes@ == modes@
                    &&& t.current == 0
                    &&& (t.width, t.height) == modes@[0]
                },
                Err(e) => e == DisplayError::NoModeAvailable && modes@.len() == 0,
            },
    {
        if modes.len() == 0 {
            return Err(DisplayError::NoModeAvailable);
        }
        let (width, height) = modes[0];
        Ok(ModeTable { modes, current: 0, width, height })
    }

    /// The current mode's size in pixels.
    pub fn get_resolution(&self) -> (r: (u32, u32))
        ensures
            r == (self.width, self.height),
    {
        (self.width, self.height)
    }

    /// Selects mode `mode_number` (1-based). An index past the table is
    /// reported as out of range and the current mode stays; otherwise the
    /// table switches to that mode and returns its negotiated size.
    pub fn set_mode(&mut self, mode_number: u8) -> (r: Result<(u32, u32), DisplayError>)
        requires
            old(self).well_formed(),
            mode_number >= 1,
        ensures
            final(self).well_formed(),
            final(self).modes@ == old(self).modes@,
            match r {
                Ok(size) => {
                    &&& (mode_number - 1) < old(self).modes@.len()
                    &&& final(self).current == mode_number - 1
                    &&& size == old(self).modes@[mode_number - 1]
                    &&& (final(self).width, final(self).height) == size
                },
                Err(e) => {
                    &&& e == DisplayError::ModeOutOfRange
                    &&& (mode_number - 1) >= old(self).modes@.len()
                    &&& *final(self) == *old(self)
                },
            },
    {
        let mode_idx = (mode_number - 1) as usize;
        if mode_idx >= self.modes.len() {
            return Err(DisplayError::ModeOutOfRange);
        }
        let (width, height) = self.modes[mode_idx];
        self.current = mode_idx;
        self.width = width;
        self.height = height;
        Ok((width, height))
    }
}

/// The byte at column offset `i` of source row `y`, read through the
/// source's stride.
pub open spec fn blit_src_byte(src: Seq<u8>, src_stride: int, y: int, i: int) -> u8 {
    src[y * src_stride + i]
}

/// Row `y` fits both buffers: the copy of `w4` bytes stays inside the
/// destination and the source.
pub open spec fn blit_row_ok(
    y: int,
    dst_len: int,
    dst_stride: int,
    src_len: int,
    src_stride: int,
    w4: int,
) -> bool {
    &&& y * dst_stride + w4 <= dst_len
    &&& y * src_stride + w4 <= src_len
}

/// Destination byte `j` lies in the copied segment of row `y`.
pub open spec fn blit_touches(
    j: int,
    y: int,
    dst_len: int,
    dst_stride: int,
    src_len: int,
    src_stride: int,
    w4: int,
) -> bool {
    &&& blit_row_ok(y, dst_len, dst_stride, src_len, src_stride, w4)
    &&& y * dst_stride <= j < y * dst_stride + w4
}

/// Copies `height` rows of `4 * width` bytes from the rendered frame into
/// the sink's buffer, reading through the source's stride and writing
/// through the destination's. Each row is bounds-checked against both
/// buffers and skipped (leaving the destination untouched there) when it
/// does not fit. Both strides cover a full row, as the devices that report
/// them guarantee.
pub fn blit_rows(
    dst: &mut Vec<u8>,
    dst_stride: usize,
    src: &Vec<u8>,
    src_stride: usize,
    width: u32,
    height: u32,
)
    requires
        width > 0,
        4 * width <= dst_stride,
        4 * width <= src_stride,
    ensures
        final(dst)@.len() == old(dst)@.len(),
        forall|y: int, i: int|
            0 <= y < height && 0 <= i < 4 * width && blit_row_ok(
                y,
                final(dst)@.len() as int,
                dst_stride as int,
                src@.len() as int,
                src_stride as int,
                4 * width,
            ) ==> final(dst)@[y * dst_stride + i] == #[trigger] blit_src_byte(
                src@,
                src_stride as int,
                y,
                i,
            ),
        forall|j: int|
            0 <= j < final(dst)@.len() && (forall|y: int|
                0 <= y < height ==> !#[trigger] blit_touches(
                    j,
                    y,
                    final(dst)@.len() as int,
                    dst_stride as int,
                    src@.len() as int,
                    src_stride as int,
                    4 * width,
                )) ==> #[trigger] final(dst)@[j] == old(dst)@[j],
{
    let w4 = 4 * (width as usize);
    let h = height as usize;
    let dlen = dst.len();
    let slen = src.len();
    let ghost dl = dlen as int;
    let ghost sl = slen as int;
    let ghost ds = dst_stride as int;
    let ghost ss = src_stride as int;
    let mut y: usize = 0;
    while y < h
        invariant
            w4 == 4 * width,
            h == height,
            width > 0,
            w4 <= dst_stride,
            w4 <= src_stride,
            dlen == dst@.len(),
            slen == src@.len(),
            dl == dlen as int,
            sl == slen as int,
            ds == dst_stride as int,
            ss == src_stride as int,
            dst@.len() == old(dst)@.len(),
            y <= h,
            forall|yy: int, i: int|
                0 <= yy < y && 0 <= i < w4 && blit_row_ok(yy, dl, ds, sl, ss, w4 as int)
                    ==> dst@[yy * ds + i] == #[trigger] blit_src_byte(src@, ss, yy, i),
            forall|j: int|
                0 <= j < dst@.len() && (forall|yy: int|
                    0 <= yy < y ==> !#[trigger] blit_touches(j, yy, dl, ds, sl, ss, w4 as int))
                    ==> #[trigger] dst@[j] == old(dst)@[j],
        decreases h - y,
    {
        let dst_fit = match y.checked_mul(dst_stride) {
            Some(start) => match start.checked_add(w4) {
                Some(end) => if end <= dlen {
                    Some(start)
                } else {
                    None
                },
                None => None,
            },
            None => None,
        };
        let src_fit = match y.checked_mul(src_stride) {
            Some(start) => match start.checked_add(w4) {
                Some(end) => if end <= slen {
                    Some(start)
                } else {
                    None
                },
                None => None,
            },
            None => None,
        };
        match (dst_fit, src_fit) {
            (Some(dstart), Some(sstart)) => {
                let ghost pre = dst@;
                copy_rows_one(dst, dstart, src, sstart, w4);
                proof {
                    assert(blit_row_ok(y as int, dl, ds, sl, ss, w4 as int));
                    assert forall|yy: int, i: int|
                        0 <= yy < y + 1 && 0 <= i < w4 && blit_row_ok(yy, dl, ds, sl, ss, w4 as int)
                            implies dst@[yy * ds + i] == #[trigger] blit_src_byte(src@, ss, yy, i) by {
                        if yy < y {
                            lemma_row_bound(yy, y as int, ds, i);
                            lemma_rows_disjoint(yy, y as int, ds, i, 0);
                            assert(dst@[yy * ds + i] == pre[yy * ds + i]);
                        } else {
                            assert(dst@[dstart + i] == src@[(dstart + i) - dstart + sstart]);
                        }
                    }
                    assert forall|j: int|
                        0 <= j < dst@.len() && (forall|yy: int|
                            0 <= yy < y + 1 ==> !#[trigger] blit_touches(
                                j,
                                yy,
                                dl,
                                ds,
                                sl,
                                ss,
                                w4 as int,
                            )) implies #[trigger] dst@[j] == old(dst)@[j] by {
                        assert(!blit_touches(j, y as int, dl, ds, sl, ss, w4 as int));
                        assert(!(dstart <= j < dstart + w4));
                        assert(dst@[j] == pre[j]);
                    }
                }
            },
            _ => {
                proof {
                    assert(!blit_row_ok(y as int, dl, ds, sl, ss, w4 as int));
                }
            },
        }
        y = y + 1;
    }
}

/// Copies one row segment; identical to the surface's segment copy, kept
/// here so the sink's blit does not depend on a surface value.
fn copy_rows_one(dst: &mut Vec<u8>, start: usize, src: &Vec<u8>, src_start: usize, count: usize)
    requires
        start + count <= old(dst)@.len(),
        src_start + count <= src@.len(),
    ensures
        final(dst)@.len() == old(dst)@.len(),
        forall|j: int|
            start <= j < start + count ==> #[trigger] final(dst)@[j] == src@[j - start + src_start],
        forall|j: int|
            0 <= j < final(dst)@.len() && !(start <= j < start + count)
                ==> #[trigger] final(dst)@[j] == old(dst)@[j],
{
    let n = dst.len();
    let sn = src.len();
    let mut k: usize = 0;
    while k < count
        invariant
            n == dst@.len(),
            sn == src@.len(),
            start + count <= dst@.len(),
            src_start + count <= src@.len(),
            dst@.len() == old(dst)@.len(),
            k <= count,
            forall|j: int|
                start <= j < start + k ==> #[trigger] dst@[j] == src@[j - start + src_start],
            forall|j: int|
                0 <= j < dst@.len() && !(start <= j < start + k) ==> #[trigger] dst@[j] == old(
                    dst,
                )@[j],
        decreases count - k,
    {
        let b = src[src_start + k];
        dst[start + k] = b;
        k = k + 1;
    }
}

} // verus!
