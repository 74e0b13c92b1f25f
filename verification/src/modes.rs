//! Hardware display-mode management: ordering the reported mode list and
//! picking a mode for a pressed number key.
//!
//! The platform layer enumerates the display's modes and hands them over as
//! plain values (the refresh rate in millihertz, so no floating point
//! enters the library). The list is sorted by pixel count ascending, then
//! refresh rate descending, and adjacent entries of the same resolution are
//! collapsed to the first — the one with the highest refresh rate. Keys 1-5
//! pick the native-aspect mode nearest a target width; keys 6-9 spread over
//! the other-aspect modes.

use vstd::prelude::*;

verus! {

use vstd::multiset::Multiset;

/// One display mode: size in pixels and refresh rate in millihertz.
#[derive(Clone, Copy, Debug, PartialEq, Eq, Structural)]
pub struct DisplayMode {
    pub width: u32,
    pub height: u32,
    pub refresh_millihz: u64,
}

/// Errors of mode selection; the current mode persists on each.
#[derive(Clone, Copy, Debug, PartialEq, Eq, Structural)]
pub enum ModeError {
    /// No mode of roughly the native aspect ratio exists.
    NoNativeAspectMode,
    /// No mode of another aspect ratio exists.
    NoOtherAspectMode,
    /// The mode list is empty.
    NoModeAvailable,
}

pub open spec fn mode_pixels(m: DisplayMode) -> int {
    m.width * m.height
}

/// The sort order: pixel count ascending, refresh rate descending.
pub open spec fn mode_le(a: DisplayMode, b: DisplayMode) -> bool {
    mode_pixels(a) < mode_pixels(b) || (mode_pixels(a) == mode_pixels(b) && a.refresh_millihz
        >= b.refresh_millihz)
}

pub open spec fn same_resolution(a: DisplayMode, b: DisplayMode) -> bool {
    a.width == b.width && a.height == b.height
}

/// Pairwise sortedness under `mode_le`.
pub open spec fn modes_sorted(s: Seq<DisplayMode>) -> bool {
    forall|i: int, j: int| 0 <= i < j < s.len() ==> mode_le(#[trigger] s[i], #[trigger] s[j])
}

/// Mode `m` has a representative of its resolution in `s`.
pub open spec fn resolution_covered(m: DisplayMode, s: Seq<DisplayMode>) -> bool {
    exists|k: int| 0 <= k < s.len() && same_resolution(m, #[trigger] s[k])
}

pub open spec fn abs_int(x: int) -> int {
    if x < 0 {
        -x
    } else {
        x
    }
}

/// `m`'s aspect ratio is within 1/50 of `native`'s:
/// `|w/h - W/H| < 0.02` stated exactly as `50 * |w*H - W*h| < h * H`.
pub open spec fn aspect_close(m: DisplayMode, native: DisplayMode) -> bool {
    50 * abs_int(m.width * native.height - native.width * m.height) < m.height * native.height
}

/// Products of two 32-bit dimensions stay far below the 128-bit bound,
/// with room for the factor of 50 in the aspect test.
proof fn lemma_dim_product_bound(a: int, b: int)
    by (nonlinear_arith)
    requires
        0 <= a < 0x1_0000_0000,
        0 <= b < 0x1_0000_0000,
    ensures
        0 <= a * b < 0x1_0000_0000_0000_0000,
        50 * (a * b) <= u128::MAX,
{
}

/// Compares two modes under the sort order, in exec code; pixel counts are
/// taken in wide arithmetic so they cannot overflow.
fn mode_le_exec(a: &DisplayMode, b: &DisplayMode) -> (r: bool)
    ensures
        r == mode_le(*a, *b),
{
    proof {
        lemma_dim_product_bound(a.width as int, a.height as int);
        lemma_dim_product_bound(b.width as int, b.height as int);
    }
    let pa = (a.width as u64) * (a.height as u64);
    let pb = (b.width as u64) * (b.height as u64);
    pa < pb || (pa == pb && a.refresh_millihz >= b.refresh_millihz)
}

/// Whether `m` counts as native-aspect relative to `native`.
pub fn aspect_close_exec(m: &DisplayMode, native: &DisplayMode) -> (r: bool)
    ensures
        r == aspect_close(*m, *native),
{
    proof {
        lemma_dim_product_bound(m.width as int, native.height as int);
        lemma_dim_product_bound(native.width as int, m.height as int);
        lemma_dim_product_bound(m.height as int, native.height as int);
    }
    let cross_a = (m.width as u128) * (native.height as u128);
    let cross_b = (native.width as u128) * (m.height as u128);
    let diff = if cross_a >= cross_b {
        cross_a - cross_b
    } else {
        cross_b - cross_a
    };
    let bound = (m.height as u128) * (native.height as u128);
    proof {
        assert(diff == abs_int(m.width * native.height - native.width * m.height));
        assert(50 * (diff as int) <= u128::MAX) by (nonlinear_arith)
            requires
                0 <= diff < 0x1_0000_0000_0000_0000u128;
    }
    50 * diff < bound
}

/// The first index of the `mode_le`-least element.
fn find_min_index(v: &Vec<DisplayMode>) -> (i: usize)
    requires
        v@.len() > 0,
    ensures
        (i as int) < v@.len(),
        forall|j: int| 0 <= j < v@.len() ==> mode_le(v@[i as int], #[trigger] v@[j]),
{
    let n = v.len();
    let mut best: usize = 0;
    let mut j: usize = 1;
    while j < n
        invariant
            n == v@.len(),
            j <= n,
            (best as int) < v@.len(),
            forall|k: int| 0 <= k < j ==> mode_le(v@[best as int], #[trigger] v@[k]),
        decreases n - j,
    {
        if mode_le_exec(&v[j], &v[best]) && !mode_le_exec(&v[best], &v[j]) {
            best = j;
        }
        j = j + 1;
    }
    best
}

/// Sorts the reported modes by pixel count ascending, refresh rate
/// descending. The result is a reordering of the input: the same modes,
/// with multiplicity.
pub fn sort_modes(input: Vec<DisplayMode>) -> (r: Vec<DisplayMode>)
    ensures
        modes_sorted(r@),
        r@.to_multiset() == input@.to_multiset(),
{
    let mut remaining = input;
    let ghost input_ms = remaining@.to_multiset();
    let mut r: Vec<DisplayMode> = Vec::new();
    proof {
        broadcast use vstd::multiset::group_multiset_axioms;

        assert forall|a: DisplayMode| r@.to_multiset().count(a) == 0 by {
            vstd::seq_lib::to_multiset_contains(r@, a);
        }
        assert(r@.to_multiset() =~= Multiset::<DisplayMode>::empty());
        assert(r@.to_multiset().add(remaining@.to_multiset()) =~= input_ms);
    }
    while remaining.len() > 0
        invariant
            r@.to_multiset().add(remaining@.to_multiset()) =~= input_ms,
            modes_sorted(r@),
            forall|i: int, j: int|
                0 <= i < r@.len() && 0 <= j < remaining@.len() ==> mode_le(
                    #[trigger] r@[i],
                    #[trigger] remaining@[j],
                ),
        decreases remaining.len(),
    {
        let ghost pre_r = r@;
        let ghost pre_rem = remaining@;
        let m = find_min_index(&remaining);
        let picked = remaining.remove(m);
        r.push(picked);
        proof {
            broadcast use vstd::multiset::group_multiset_axioms;

            vstd::seq_lib::to_multiset_remove(pre_rem, m as int);
            vstd::seq_lib::to_multiset_build(pre_r, picked);
            vstd::seq_lib::to_multiset_contains(pre_rem, picked);
            assert(pre_rem.contains(picked));
            assert(remaining@.to_multiset() =~= pre_rem.to_multiset().remove(picked));
            assert(r@.to_multiset() =~= pre_r.to_multiset().insert(picked));
            assert(r@.to_multiset().add(remaining@.to_multiset()) =~= pre_r.to_multiset().add(
                pre_rem.to_multiset(),
            ));
        }
    }
    proof {
        broadcast use vstd::multiset::group_multiset_axioms;

        assert forall|a: DisplayMode| remaining@.to_multiset().count(a) == 0 by {
            vstd::seq_lib::to_multiset_contains(remaining@, a);
        }
        assert(remaining@.to_multiset() =~= Multiset::<DisplayMode>::empty());
        assert(r@.to_multiset() =~= input_ms);
    }
    r
}

/// Collapses adjacent entries of equal resolution, keeping the first of
/// each run — under the sort order, the one with the highest refresh rate.
/// Every entry of the result comes from the input, no two adjacent entries
/// share a resolution, every input resolution keeps a representative, and
/// a sorted input stays sorted.
#[verifier::rlimit(100)]
pub fn dedup_adjacent_resolutions(input: &Vec<DisplayMode>) -> (r: Vec<DisplayMode>)
    ensures
        forall|i: int| 0 <= i < r@.len() ==> input@.contains(#[trigger] r@[i]),
        forall|i: int|
            0 <= i && i + 1 < r@.len() ==> !same_resolution(#[trigger] r@[i], r@[i + 1]),
        forall|i: int| 0 <= i < input@.len() ==> resolution_covered(#[trigger] input@[i], r@),
        modes_sorted(input@) ==> modes_sorted(r@),
{
    let n = input.len();
    let mut r: Vec<DisplayMode> = Vec::new();
    let mut i: usize = 0;
    while i < n
        invariant
            n == input@.len(),
            i <= n,
            i == 0 ==> r@.len() == 0,
            forall|k: int| 0 <= k < r@.len() ==> input@.contains(#[trigger] r@[k]),
            forall|k: int|
                0 <= k && k + 1 < r@.len() ==> !same_resolution(#[trigger] r@[k], r@[k + 1]),
            forall|k: int| 0 <= k < i ==> resolution_covered(#[trigger] input@[k], r@),
            modes_sorted(input@) ==> modes_sorted(r@),
            modes_sorted(input@) ==> (forall|k: int, j: int|
                0 <= k < r@.len() && i <= j < input@.len() ==> mode_le(
                    #[trigger] r@[k],
                    #[trigger] input@[j],
                )),
        decreases n - i,
    {
        let cur = input[i];
        let keep = if r.len() == 0 {
            true
        } else {
            let last = &r[r.len() - 1];
            !(last.width == cur.width && last.height == cur.height)
        };
        let ghost pre = r@;
        if keep {
            r.push(cur);
        }
        proof {
            assert(input@.contains(input@[i as int]));
            assert forall|k: int| 0 <= k < i + 1 implies resolution_covered(
                #[trigger] input@[k],
                r@,
            ) by {
                if k < i {
                    let w = choose|w: int|
                        0 <= w < pre.len() && same_resolution(input@[k], #[trigger] pre[w]);
                    assert(r@[w] == pre[w]);
                } else {
                    assert(same_resolution(input@[k], r@[r@.len() - 1]));
                }
            }
            assert forall|k: int| 0 <= k && k + 1 < r@.len() implies !same_resolution(
                #[trigger] r@[k],
                r@[k + 1],
            ) by {
                if keep && k + 1 == pre.len() {
                    assert(r@[k] == pre[k]);
                    assert(r@[k + 1] == cur);
                    assert(!same_resolution(pre[pre.len() - 1], cur));
                } else {
                    assert(r@[k] == pre[k]);
                    assert(r@[k + 1] == pre[k + 1]);
                }
            }
        }
        i = i + 1;
    }
    r
}


/// The indices of `modes` whose aspect ratio differs from the native one,
/// in ascending order.
pub open spec fn other_aspect_indices(modes: Seq<DisplayMode>, native: DisplayMode) -> Seq<int>
    decreases modes.len(),
{
    if modes.len() == 0 {
        Seq::empty()
    } else {
        let prefix = other_aspect_indices(modes.drop_last(), native);
        if !aspect_close(modes.last(), native) {
            prefix.push(modes.len() - 1)
        } else {
            prefix
        }
    }
}

/// Distance of a mode's width from the target width.
pub open spec fn width_dist(m: DisplayMode, target: int) -> int {
    abs_int(m.width - target)
}

/// The target width for keys 1-5: four fixed widths and the native width.
pub open spec fn spec_target_width(native: DisplayMode, key: u8) -> int
    recommends
        1 <= key <= 5,
{
    if key == 1 {
        1024
    } else if key == 2 {
        1280
    } else if key == 3 {
        1920
    } else if key == 4 {
        2560
    } else {
        native.width as int
    }
}

/// Hardware display-resolution management: the cleaned mode list and which
/// mode, if any, this manager has switched the display to. Enumerating the
/// modes and programming the display belong to the platform layer; every
/// choice between modes is made here.
pub struct ResolutionManager {
    pub modes: Vec<DisplayMode>,
    pub current_index: Option<usize>,
}

impl ResolutionManager {
    /// Adopts the reported mode list: sorted by pixel count ascending and
    /// refresh rate descending, one entry per resolution (the one with the
    /// highest refresh rate), every reported resolution represented, and no
    /// mode invented. The display's original mode is still in effect.
    pub fn new(reported: Vec<DisplayMode>) -> (r: Self)
        ensures
            r.current_index is None,
            modes_sorted(r.modes@),
            forall|k: int|
                0 <= k && k + 1 < r.modes@.len() ==> !same_resolution(
                    #[trigger] r.modes@[k],
                    r.modes@[k + 1],
                ),
            forall|i: int|
                0 <= i < reported@.len() ==> resolution_covered(#[trigger] reported@[i], r.modes@),
            forall|k: int| 0 <= k < r.modes@.len() ==> reported@.contains(#[trigger] r.modes@[k]),
    {
        broadcast use vstd::multiset::group_multiset_axioms;

        let ghost reported_view = reported@;
        let sorted = sort_modes(reported);
        let modes = dedup_adjacent_resolutions(&sorted);
        proof {
            assert forall|i: int| 0 <= i < reported_view.len() implies resolution_covered(
                #[trigger] reported_view[i],
                modes@,
            ) by {
                vstd::seq_lib::to_multiset_contains(reported_view, reported_view[i]);
                vstd::seq_lib::to_multiset_contains(sorted@, reported_view[i]);
                assert(reported_view.contains(reported_view[i]));
                assert(sorted@.contains(reported_view[i]));
                let j = choose|j: int|
                    0 <= j < sorted@.len() && sorted@[j] == reported_view[i];
                assert(resolution_covered(sorted@[j], modes@));
                let w = choose|w: int|
                    0 <= w < modes@.len() && same_resolution(sorted@[j], #[trigger] modes@[w]);
                assert(same_resolution(reported_view[i], modes@[w]));
            }
            assert forall|k: int| 0 <= k < modes@.len() implies reported_view.contains(
                #[trigger] modes@[k],
            ) by {
                assert(sorted@.contains(modes@[k]));
                vstd::seq_lib::to_multiset_contains(sorted@, modes@[k]);
                vstd::seq_lib::to_multiset_contains(reported_view, modes@[k]);
            }
        }
        ResolutionManager { modes, current_index: None }
    }

    /// Picks the mode for a 1-based number key. Keys 1-5 take the
    /// native-aspect mode (the aspect of the largest mode, which sits last
    /// in the sorted list) whose width is nearest to 1024, 1280, 1920, 2560
    /// or the native width — the first such mode on a tie. Keys 6-9 spread
    /// evenly over the modes of other aspect ratios. The choice only is
    /// made here; programming the display, and recording the switch with
    /// `confirm_mode`, follow outside.
    pub fn select_for_key(&self, key: u8) -> (r: Result<usize, ModeError>)
        requires
            1 <= key <= 9,
        ensures
            match r {
                Ok(i) => {
                    &&& self.modes@.len() > 0
                    &&& (i as int) < self.modes@.len()
                    &&& if key <= 5 {
                        let native = self.modes@.last();
                        let target = spec_target_width(native, key);
                        &&& aspect_close(self.modes@[i as int], native)
                        &&& forall|j: int|
                            0 <= j < self.modes@.len() && aspect_close(
                                #[trigger] self.modes@[j],
                                native,
                            ) ==> width_dist(self.modes@[i as int], target) <= width_dist(
                                self.modes@[j],
                                target,
                            )
                        &&& forall|j: int|
                            0 <= j < i && aspect_close(#[trigger] self.modes@[j], native)
                                ==> width_dist(self.modes@[j], target) > width_dist(
                                self.modes@[i as int],
                                target,
                            )
                    } else {
                        let native = self.modes@.last();
                        let others = other_aspect_indices(self.modes@, native);
                        &&& others.len() > 0
                        &&& i == others[((key - 6) * (others.len() - 1)) as int / 3]
                    }
                },
                Err(ModeError::NoModeAvailable) => self.modes@.len() == 0,
                Err(ModeError::NoNativeAspectMode) => {
                    &&& self.modes@.len() > 0
                    &&& key <= 5
                    &&& forall|j: int|
                        0 <= j < self.modes@.len() ==> !aspect_close(
                            #[trigger] self.modes@[j],
                            self.modes@.last(),
                        )
                },
                Err(ModeError::NoOtherAspectMode) => {
                    &&& self.modes@.len() > 0
                    &&& key >= 6
                    &&& other_aspect_indices(self.modes@, self.modes@.last()).len() == 0
                },
            },
    {
        let n = self.modes.len();
        if n == 0 {
            return Err(ModeError::NoModeAvailable);
        }
        let native = self.modes[n - 1];
        proof {
            assert(native == self.modes@.last());
        }
        if key <= 5 {
            let target: u64 = if key == 1 {
                1024
            } else if key == 2 {
                1280
            } else if key == 3 {
                1920
            } else if key == 4 {
                2560
            } else {
                native.width as u64
            };
            proof {
                assert(target == spec_target_width(native, key));
            }
            let mut best: Option<usize> = None;
            let mut j: usize = 0;
            while j < n
                invariant
                    n == self.modes@.len(),
                    n > 0,
                    native == self.modes@.last(),
                    target == spec_target_width(native, key),
                    1 <= key <= 5,
                    j <= n,
                    match best {
                        Some(b) => {
                            &&& (b as int) < j
                            &&& aspect_close(self.modes@[b as int], native)
                            &&& forall|m: int|
                                0 <= m < j && aspect_close(#[trigger] self.modes@[m], native)
                                    ==> width_dist(self.modes@[b as int], target as int)
                                    <= width_dist(self.modes@[m], target as int)
                            &&& forall|m: int|
                                0 <= m < b && aspect_close(#[trigger] self.modes@[m], native)
                                    ==> width_dist(self.modes@[m], target as int) > width_dist(
                                    self.modes@[b as int],
                                    target as int,
                                )
                        },
                        None => forall|m: int|
                            0 <= m < j ==> !aspect_close(#[trigger] self.modes@[m], native),
                    },
                decreases n - j,
            {
                let cand = self.modes[j];
                if aspect_close_exec(&cand, &native) {
                    let dist: u64 = if (cand.width as u64) >= target {
                        cand.width as u64 - target
                    } else {
                        target - cand.width as u64
                    };
                    proof {
                        assert(dist == width_dist(cand, target as int));
                    }
                    match best {
                        None => {
                            best = Some(j);
                        },
                        Some(b) => {
                            let bm = self.modes[b];
                            let bdist: u64 = if (bm.width as u64) >= target {
                                bm.width as u64 - target
                            } else {
                                target - bm.width as u64
                            };
                            if dist < bdist {
                                best = Some(j);
                            }
                        },
                    }
                }
                j = j + 1;
            }
            match best {
                Some(b) => Ok(b),
                None => Err(ModeError::NoNativeAspectMode),
            }
        } else {
            let others = self.other_aspect_exec(&native);
            if others.len() == 0 {
                return Err(ModeError::NoOtherAspectMode);
            }
            let slot = (key - 6) as u128;
            let cnt = (others.len() - 1) as u128;
            proof {
                assert(cnt <= 0xffff_ffff_ffff_ffffu128);
                assert(slot * cnt <= u128::MAX) by (nonlinear_arith)
                    requires
                        slot <= 3,
                        cnt <= 0xffff_ffff_ffff_ffffu128;
            }
            let idx128 = (slot * cnt) / 3;
            proof {
                assert(idx128 < others@.len()) by (nonlinear_arith)
                    requires
                        idx128 == (slot as int) * (cnt as int) / 3,
                        slot <= 3,
                        cnt as int == others@.len() - 1,
                        others@.len() > 0;
            }
            let idx = idx128 as usize;
            Ok(others[idx])
        }
    }

    /// Collects the indices of the modes whose aspect differs from the
    /// native one, ascending.
    fn other_aspect_exec(&self, native: &DisplayMode) -> (r: Vec<usize>)
        ensures
            r@.len() == other_aspect_indices(self.modes@, *native).len(),
            forall|k: int|
                0 <= k < r@.len() ==> r@[k] as int == other_aspect_indices(
                    self.modes@,
                    *native,
                )[k],
            forall|k: int| 0 <= k < r@.len() ==> (r@[k] as int) < self.modes@.len(),
    {
        let n = self.modes.len();
        let mut r: Vec<usize> = Vec::new();
        let mut i: usize = 0;
        while i < n
            invariant
                n == self.modes@.len(),
                i <= n,
                r@.len() == other_aspect_indices(self.modes@.take(i as int), *native).len(),
                forall|k: int|
                    0 <= k < r@.len() ==> r@[k] as int == other_aspect_indices(
                        self.modes@.take(i as int),
                        *native,
                    )[k],
                forall|k: int| 0 <= k < r@.len() ==> (r@[k] as int) < i,
            decreases n - i,
        {
            let ghost pre_take = self.modes@.take(i as int);
            let ghost next_take = self.modes@.take(i + 1);
            proof {
                assert(next_take.drop_last() =~= pre_take);
                assert(next_take.last() == self.modes@[i as int]);
            }
            let m = self.modes[i];
            if !aspect_close_exec(&m, native) {
                r.push(i);
            }
            i = i + 1;
        }
        proof {
            assert(self.modes@.take(n as int) =~= self.modes@);
        }
        r
    }

    /// Records that the display now runs mode `index`.
    pub fn confirm_mode(&mut self, index: usize)
        requires
            (index as int) < old(self).modes@.len(),
        ensures
            final(self).modes@ == old(self).modes@,
            final(self).current_index == Some(index),
    {
        self.current_index = Some(index);
    }

    /// Records that the display was restored to its original mode, as done
    /// on leaving fullscreen and on shutdown.
    pub fn restore(&mut self)
        ensures
            final(self).modes@ == old(self).modes@,
            final(self).current_index is None,
    {
        self.current_index = None;
    }
}

} // verus!
