//! Small helpers shared by the validations: three-component vectors, the
//! size of a pitched region, alignment, and the overlap test for copies.

use vstd::prelude::*;
use vstd::arithmetic::div_mod::{
    lemma_fundamental_div_mod, lemma_mod_bound, lemma_mod_multiples_vanish,
};

verus! {
/// The boolean `true` as the API passes it.
pub const CL_TRUE: u32 = 1;
/// The boolean `false` as the API passes it.
pub const CL_FALSE: u32 = 0;

/// Reads a boolean as the API passes it: `Some` for 0 and 1, and `None` for
/// every other number.
pub fn check_cl_bool(val: u32) -> (r: Option<bool>)
    ensures
        r == spec_cl_bool(val),
{
    if val != CL_TRUE && val != CL_FALSE {
        return None;
    }
    Some(val == CL_TRUE)
}

/// What the number `val` means as a boolean of the API.
pub open spec fn spec_cl_bool(val: u32) -> Option<bool> {
    if val == 1 {
        Some(true)
    } else if val == 0 {
        Some(false)
    } else {
        None
    }
}

/// What a slice that may have been left out holds.
pub open spec fn opt_seq<T>(s: Option<&[T]>) -> Option<Seq<T>> {
    match s {
        Some(p) => Some(p@),
        None => None,
    }
}

/// What a reference that may have been left out refers to.
pub open spec fn opt_val<T>(r: Option<&T>) -> Option<T> {
    match r {
        Some(v) => Some(*v),
        None => None,
    }
}

/// Whether `ptr` is a multiple of `alignment`.
pub fn is_aligned_to(ptr: usize, alignment: usize) -> (r: bool)
    requires
        alignment > 0,
    ensures
        r == (ptr % alignment == 0),
{
    ptr % alignment == 0
}

/// An origin or an extent in up to three dimensions.
#[derive(Clone, Copy, Debug, PartialEq, Eq, Structural)]
pub struct CLVec {
    pub x: usize,
    pub y: usize,
    pub z: usize,
}

impl CLVec {
    /// The vector with the given components.
    pub fn new(vals: [usize; 3]) -> (r: CLVec)
        ensures
            r.x == vals[0],
            r.y == vals[1],
            r.z == vals[2],
    {
        CLVec { x: vals[0], y: vals[1], z: vals[2] }
    }

    /// Whether some component equals `v`.
    pub open spec fn spec_contains(&self, v: usize) -> bool {
        self.x == v || self.y == v || self.z == v
    }

    /// Whether some component equals `v`.
    #[verifier::when_used_as_spec(spec_contains)]
    pub fn contains(&self, v: usize) -> (r: bool)
        ensures
            r == self.spec_contains(v),
    {
        self.x == v || self.y == v || self.z == v
    }

    /// The number of points in a box of this extent.
    pub open spec fn pixels(self) -> int {
        self.x * self.y * self.z
    }
}

/// The number of bytes from the start of a linear store to the end of the
/// box that begins at `base` and extends over `region`, where rows lie
/// `row_pitch` bytes apart and slices `slice_pitch` bytes.
pub open spec fn calc_size(base: CLVec, region: CLVec, row_pitch: usize, slice_pitch: usize) -> int {
    (base.x + region.x) + (base.y + region.y - 1) * row_pitch + (base.z + region.z - 1)
        * slice_pitch
}

proof fn lemma_mul_word_bound(a: int, b: int)
    requires
        0 <= a <= 0xffff_ffff_ffff_ffff,
        0 <= b <= 0xffff_ffff_ffff_ffff,
    ensures
        0 <= a * b <= 0xffff_ffff_ffff_fffe_0000_0000_0000_0001,
{
    assert(0 <= a * b <= 0xffff_ffff_ffff_fffe_0000_0000_0000_0001) by (nonlinear_arith)
        requires
            0 <= a <= 0xffff_ffff_ffff_ffff,
            0 <= b <= 0xffff_ffff_ffff_ffff,
    ;
}

/// Whether the box that begins at `base` and extends over `region` ends
/// beyond `limit` bytes. Decided exactly, however large the operands.
pub fn calc_size_exceeds(
    base: &CLVec,
    region: &CLVec,
    row_pitch: usize,
    slice_pitch: usize,
    limit: usize,
) -> (r: bool)
    requires
        region.y >= 1,
        region.z >= 1,
    ensures
        r == (calc_size(*base, *region, row_pitch, slice_pitch) > limit),
{
    let first: u128 = base.x as u128 + region.x as u128;
    let rows: u128 = base.y as u128 + region.y as u128 - 1;
    let slices: u128 = base.z as u128 + region.z as u128 - 1;
    let row_bytes: u128 = match rows.checked_mul(row_pitch as u128) {
        Some(v) => v,
        None => {
            return true;
        },
    };
    let slice_bytes: u128 = match slices.checked_mul(slice_pitch as u128) {
        Some(v) => v,
        None => {
            return true;
        },
    };
    let partial: u128 = match first.checked_add(row_bytes) {
        Some(v) => v,
        None => {
            return true;
        },
    };
    let total: u128 = match partial.checked_add(slice_bytes) {
        Some(v) => v,
        None => {
            return true;
        },
    };
    total > limit as u128
}

/// The byte at which a box with the given origin begins in a linear store
/// that itself begins `offset` bytes into its backing memory.
pub open spec fn region_start(
    origin: CLVec,
    offset: usize,
    row_pitch: usize,
    slice_pitch: usize,
) -> int {
    origin.z * slice_pitch + origin.y * row_pitch + origin.x + offset
}

/// The number of bytes from the first to the last byte of a box, both
/// counted.
pub open spec fn block_size(region: CLVec, row_pitch: usize, slice_pitch: usize) -> int {
    (region.z - 1) * slice_pitch + (region.y - 1) * row_pitch + region.x
}

/// Two intervals of `len` units that begin at `a` and at `b`, inside a line
/// of `pitch` units, leave each other alone: one begins behind the other's
/// end, and ends before the line is over.
pub open spec fn fits_in_gap(a: int, b: int, len: int, pitch: int) -> bool {
    ||| b >= a + len && b + len <= a + pitch
    ||| a >= b + len && a + len <= b + pitch
}

/// Whether a copy of `region` from `src_origin` to `dst_origin` within one
/// backing memory reads bytes that it also writes. Both boxes are laid out
/// with the same pitches; `src_offset` and `dst_offset` say where the two
/// stores begin in the backing memory.
///
/// The copy is free of overlap when one box ends before the other begins,
/// or when the rows of one fall into the gaps that the rows of the other
/// leave inside a row pitch, or likewise its slices inside a slice pitch.
///
/// This test is the rule of the API, and it errs on the safe side: within
/// a slice it finds every copy that shares a byte
/// (`lemma_copy_overlap_sound`), for a single row it finds those copies
/// only (`lemma_copy_overlap_linear`), and otherwise it may refuse a copy
/// that shares none.
pub open spec fn copy_overlap(
    src_origin: CLVec,
    src_offset: usize,
    dst_origin: CLVec,
    dst_offset: usize,
    region: CLVec,
    row_pitch: usize,
    slice_pitch: usize,
) -> bool {
    let block = block_size(region, row_pitch, slice_pitch);
    let src_start = region_start(src_origin, src_offset, row_pitch, slice_pitch);
    let dst_start = region_start(dst_origin, dst_offset, row_pitch, slice_pitch);
    let src_dx = (src_origin.x + src_offset) % (row_pitch as int);
    let dst_dx = (dst_origin.x + dst_offset) % (row_pitch as int);
    let src_dy = ((src_origin.y * row_pitch + src_origin.x + src_offset) % (slice_pitch as int))
        / (row_pitch as int);
    let dst_dy = ((dst_origin.y * row_pitch + dst_origin.x + dst_offset) % (slice_pitch as int))
        / (row_pitch as int);
    &&& !(dst_start + block <= src_start || src_start + block <= dst_start)
    &&& !fits_in_gap(src_dx, dst_dx, region.x as int, row_pitch as int)
    &&& !fits_in_gap(src_dy, dst_dy, region.y as int, slice_pitch as int / row_pitch as int)
}

/// Where the byte in column `i` of row `j` of the first slice of a box
/// lies in the backing memory.
pub open spec fn box_byte(
    origin: CLVec,
    offset: usize,
    row_pitch: usize,
    slice_pitch: usize,
    i: int,
    j: int,
) -> int {
    region_start(origin, offset, row_pitch, slice_pitch) + j * row_pitch + i
}

/// The rows of a box do not run across the end of a row of the store: each
/// begins and ends between two multiples of the row pitch.
pub open spec fn rows_fit(origin: CLVec, offset: usize, region: CLVec, row_pitch: usize) -> bool {
    (origin.x + offset) % (row_pitch as int) + region.x <= row_pitch
}

proof fn lemma_start_parts(x: int, y: int, z: int, rp: int, sp: int)
    requires
        x >= 0,
        y >= 0,
        z >= 0,
        rp > 0,
        sp > 0,
        sp % rp == 0,
    ensures
        ({
            let t = y * rp + x;
            let r = sp / rp;
            let dx = x % rp;
            let dy = (t % sp) / rp;
            &&& sp == r * rp
            &&& r > 0
            &&& 0 <= dx < rp
            &&& 0 <= dy < r
            &&& z * sp + t == ((z + t / sp) * r + dy) * rp + dx
        }),
{
    let t = y * rp + x;
    let r = sp / rp;
    let q = t / sp;
    let u = t % sp;
    let dy = u / rp;
    let dx = x % rp;
    lemma_fundamental_div_mod(sp, rp);
    lemma_fundamental_div_mod(t, sp);
    lemma_fundamental_div_mod(u, rp);
    lemma_mod_bound(t, sp);
    lemma_mod_bound(u, rp);
    lemma_mod_bound(x, rp);
    assert(u == rp * (y - r * q) + x) by (nonlinear_arith)
        requires
            t == sp * q + u,
            t == y * rp + x,
            sp == r * rp,
    ;
    lemma_mod_multiples_vanish(y - r * q, x, rp);
    assert(0 <= dy < r) by (nonlinear_arith)
        requires
            u == rp * dy + dx,
            0 <= dx < rp,
            0 <= u < sp,
            sp == r * rp,
            rp > 0,
    ;
    assert(z * sp + t == ((z + q) * r + dy) * rp + dx) by (nonlinear_arith)
        requires
            t == sp * q + u,
            u == rp * dy + dx,
            sp == r * rp,
    ;
}

proof fn lemma_same_row_and_column(a: int, x: int, b: int, y: int, rp: int)
    requires
        rp > 0,
        0 <= x < rp,
        0 <= y < rp,
        a * rp + x == b * rp + y,
    ensures
        a == b,
        x == y,
{
    assert(a == b) by (nonlinear_arith)
        requires
            rp > 0,
            0 <= x < rp,
            0 <= y < rp,
            a * rp + x == b * rp + y,
    ;
}

/// The overlap test misses no overlap within a slice: where a byte of the
/// first slice of the box that is read is a byte of the first slice of the
/// box that is written, the test says that the copy overlaps. The boxes are
/// one slice deep, the slice pitch is a multiple of the row pitch, and no
/// row runs across the end of a row of the store. The byte is that in
/// column `i` of row `j` of the one box and in column `i2` of row `j2` of
/// the other.
///
/// The test may take a copy for overlapping that shares no byte: it
/// compares the runs of bytes from the first to the last byte of each box
/// and the places of the boxes within a row and within a slice, not byte
/// by byte.
pub proof fn lemma_copy_overlap_sound(
    src_origin: CLVec,
    src_offset: usize,
    dst_origin: CLVec,
    dst_offset: usize,
    region: CLVec,
    row_pitch: usize,
    slice_pitch: usize,
    i: int,
    j: int,
    i2: int,
    j2: int,
)
    requires
        region.z == 1,
        row_pitch > 0,
        slice_pitch > 0,
        slice_pitch as int % row_pitch as int == 0,
        rows_fit(src_origin, src_offset, region, row_pitch),
        rows_fit(dst_origin, dst_offset, region, row_pitch),
        0 <= i < region.x,
        0 <= j < region.y,
        0 <= i2 < region.x,
        0 <= j2 < region.y,
        box_byte(src_origin, src_offset, row_pitch, slice_pitch, i, j) == box_byte(
            dst_origin,
            dst_offset,
            row_pitch,
            slice_pitch,
            i2,
            j2,
        ),
    ensures
        copy_overlap(
            src_origin,
            src_offset,
            dst_origin,
            dst_offset,
            region,
            row_pitch,
            slice_pitch,
        ),
{
    let rp = row_pitch as int;
    let sp = slice_pitch as int;
    let r = sp / rp;
    let sx = src_origin.x + src_offset;
    let dx = dst_origin.x + dst_offset;
    let st = src_origin.y * rp + sx;
    let dt = dst_origin.y * rp + dx;
    lemma_start_parts(sx, src_origin.y as int, src_origin.z as int, rp, sp);
    lemma_start_parts(dx, dst_origin.y as int, dst_origin.z as int, rp, sp);
    let s_dx = sx % rp;
    let d_dx = dx % rp;
    let s_dy = (st % sp) / rp;
    let d_dy = (dt % sp) / rp;
    let s_row = (src_origin.z + st / sp) * r + s_dy;
    let d_row = (dst_origin.z + dt / sp) * r + d_dy;
    let s_start = region_start(src_origin, src_offset, row_pitch, slice_pitch);
    let d_start = region_start(dst_origin, dst_offset, row_pitch, slice_pitch);
    // the byte, by its row and its column in the store
    assert(s_start + j * rp + i == (s_row + j) * rp + (s_dx + i)) by (nonlinear_arith)
        requires
            s_start == s_row * rp + s_dx,
    ;
    assert(d_start + j2 * rp + i2 == (d_row + j2) * rp + (d_dx + i2)) by (nonlinear_arith)
        requires
            d_start == d_row * rp + d_dx,
    ;
    lemma_same_row_and_column(s_row + j, s_dx + i, d_row + j2, d_dx + i2, rp);
    // the rows: their numbers within a slice differ by a multiple of the
    // rows of a slice
    let m = (src_origin.z + st / sp) - (dst_origin.z + dt / sp);
    assert((d_dy + j2) - (s_dy + j) == m * r) by (nonlinear_arith)
        requires
            s_row + j == d_row + j2,
            s_row == (src_origin.z + st / sp) * r + s_dy,
            d_row == (dst_origin.z + dt / sp) * r + d_dy,
            m == (src_origin.z + st / sp) - (dst_origin.z + dt / sp),
    ;
    assert(!fits_in_gap(s_dy, d_dy, region.y as int, r)) by (nonlinear_arith)
        requires
            (d_dy + j2) - (s_dy + j) == m * r,
            0 <= j < region.y,
            0 <= j2 < region.y,
            r > 0,
    {
    }
    // the runs of bytes from the first to the last byte of each box
    assert(j * rp <= (region.y - 1) * rp && j2 * rp <= (region.y - 1) * rp && j * rp >= 0 && j2
        * rp >= 0) by (nonlinear_arith)
        requires
            0 <= j < region.y,
            0 <= j2 < region.y,
            rp > 0,
    ;
}

/// Two runs of `size` bytes that begin at `a` and at `b` share a byte.
pub open spec fn ranges_overlap(a: int, b: int, size: int) -> bool {
    (a <= b && b < a + size) || (b <= a && a < b + size)
}

/// Decides `copy_overlap` for a source box that lies within addressable
/// memory; the destination may lie anywhere.
pub fn check_copy_overlap(
    src_origin: &CLVec,
    src_offset: usize,
    dst_origin: &CLVec,
    dst_offset: usize,
    region: &CLVec,
    row_pitch: usize,
    slice_pitch: usize,
) -> (r: bool)
    requires
        !region.contains(0),
        row_pitch > 0,
        slice_pitch > 0,
        region_start(*src_origin, src_offset, row_pitch, slice_pitch) + block_size(
            *region,
            row_pitch,
            slice_pitch,
        ) <= usize::MAX,
    ensures
        r == copy_overlap(
            *src_origin,
            src_offset,
            *dst_origin,
            dst_offset,
            *region,
            row_pitch,
            slice_pitch,
        ),
{
    let rp: u128 = row_pitch as u128;
    let sp: u128 = slice_pitch as u128;
    proof {
        lemma_mul_word_bound(region.z - 1, slice_pitch as int);
        lemma_mul_word_bound(region.y - 1, row_pitch as int);
        lemma_mul_word_bound(src_origin.z as int, slice_pitch as int);
        lemma_mul_word_bound(src_origin.y as int, row_pitch as int);
        lemma_mul_word_bound(dst_origin.z as int, slice_pitch as int);
        lemma_mul_word_bound(dst_origin.y as int, row_pitch as int);
    }
    let block: u128 = (region.z as u128 - 1) * sp + (region.y as u128 - 1) * rp + region.x as u128;
    let src_start: u128 = src_origin.z as u128 * sp + src_origin.y as u128 * rp
        + src_origin.x as u128 + src_offset as u128;
    let src_end: u128 = src_start + block;
    let dst_rows: u128 = dst_origin.y as u128 * rp + dst_origin.x as u128 + dst_offset as u128;
    let dst_start: u128 = match (dst_origin.z as u128 * sp).checked_add(dst_rows) {
        Some(v) => v,
        None => {
            return false;
        },
    };
    let dst_ends_first: bool = match dst_start.checked_add(block) {
        Some(dst_end) => dst_end <= src_start,
        None => false,
    };
    if dst_ends_first || src_end <= dst_start {
        return false;
    }
    let src_dx: u128 = (src_origin.x as u128 + src_offset as u128) % rp;
    let dst_dx: u128 = (dst_origin.x as u128 + dst_offset as u128) % rp;
    let len_x: u128 = region.x as u128;
    if (dst_dx >= src_dx + len_x && dst_dx + len_x <= src_dx + rp) || (src_dx >= dst_dx + len_x
        && src_dx + len_x <= dst_dx + rp) {
        return false;
    }
    let src_rows: u128 = src_origin.y as u128 * rp + src_origin.x as u128 + src_offset as u128;
    let src_dy: u128 = (src_rows % sp) / rp;
    let dst_dy: u128 = (dst_rows % sp) / rp;
    let len_y: u128 = region.y as u128;
    let rows_per_slice: u128 = sp / rp;
    if (dst_dy >= src_dy + len_y && dst_dy + len_y <= src_dy + rows_per_slice) || (src_dy
        >= dst_dy + len_y && src_dy + len_y <= dst_dy + rows_per_slice) {
        return false;
    }
    true
}

/// A copy of a single row of a single slice overlaps exactly when the two
/// runs of bytes do.
pub proof fn lemma_copy_overlap_linear(src_offset: usize, dst_offset: usize, size: usize)
    requires
        size > 0,
    ensures
        copy_overlap(
            CLVec { x: 0, y: 0, z: 0 },
            src_offset,
            CLVec { x: 0, y: 0, z: 0 },
            dst_offset,
            CLVec { x: size, y: 1, z: 1 },
            size,
            size,
        ) <==> ranges_overlap(src_offset as int, dst_offset as int, size as int),
{
}

} // verus!
