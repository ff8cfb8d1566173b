use vstd::prelude::*;
use crate::arith::{
    add_bits, fp_add, fp_floor, fp_max, fp_min, fp_mul, fp_of_int, fp_of_uint, fp_sub, fp_to_int,
    floor_bits, max_bits, min_bits, mul_bits, of_int_bits, of_uint_bits, sub_bits, to_int_bits,
};
use crate::bits::{HALF_BITS, ONE_BITS, finite_val, sign_of};
use crate::fieldview::fview;

verus! {

broadcast use crate::fieldview::lemma_fview_len, crate::fieldview::lemma_fview_index,
    crate::fieldview::lemma_view_len, crate::fieldview::lemma_view_index;

/// A two-dimensional field: `rows` rows of `cols` binary32 bit patterns each.
pub open spec fn field_wf(s: Seq<Seq<u32>>, rows: int, cols: int) -> bool {
    &&& s.len() == rows
    &&& forall|j: int| 0 <= j < s.len() ==> (#[trigger] s[j]).len() == cols
}

/// Every sample of the field is exactly +0.0 (the all-zero bit pattern).
pub open spec fn zero_field(s: Seq<Seq<u32>>) -> bool {
    forall|j: int, i: int|
        0 <= j < s.len() && 0 <= i < s[j].len() ==> (#[trigger] s[j][i]) == 0u32
}

/// The field with the first and the `last` sample of every row set to +0.0.
pub open spec fn bc_field(s: Seq<Seq<u32>>, last: int) -> Seq<Seq<u32>> {
    s.map(|j: int, row: Seq<u32>| row.update(0, 0u32).update(last, 0u32))
}

/// Enforcing the no-flow boundary twice gives the same field as enforcing it
/// once.
pub proof fn lemma_boundary_idempotent(s: Seq<Seq<u32>>, last: int)
    requires
        0 < last,
        forall|j: int| 0 <= j < s.len() ==> last < (#[trigger] s[j]).len(),
    ensures
        bc_field(bc_field(s, last), last) == bc_field(s, last),
{
    let once = bc_field(s, last);
    let twice = bc_field(once, last);
    assert forall|j: int| 0 <= j < s.len() implies twice[j] == once[j] by {
        assert(twice[j] =~= once[j]);
    }
    assert(twice =~= once);
}

/// A signed index clamped into `[0, hi]`.
pub open spec fn clamp_idx(v: i64, hi: int) -> int {
    if v < 0 {
        0
    } else if v > hi {
        hi
    } else {
        v as int
    }
}

/// Bilinear reconstruction of the horizontal velocity at the continuous
/// position `(x, y)` (binary32 bit patterns) from the x-face field `vx` of a
/// `w` x `h` grid: the four nearest stored samples of `vx`, blended by the
/// fractional offsets of the position inside its stencil cell.  The 0.5
/// offset on `y` accounts for x-faces sitting at row centers; near the right
/// edge the second column sample collapses onto the first (the clamped index
/// is reused), so the blend degrades to the vertical direction there.
pub open spec fn interp_x_spec(w: int, h: int, x: u32, y: u32, vx: Seq<Seq<u32>>) -> u32 {
    let xf = fp_floor(x);
    let ys = fp_sub(y, HALF_BITS);
    let ysf = fp_floor(ys);
    let i = clamp_idx(fp_to_int(xf), w - 1);
    let j = clamp_idx(fp_to_int(ysf), h - 2);
    let fx = fp_sub(x, xf);
    let fy = fp_sub(ys, ysf);
    let i2 = if i < w - 1 {
        i
    } else {
        w - 1
    };
    let v00 = vx[j][i];
    let v10 = vx[j][i2];
    let v01 = vx[j + 1][i];
    let v11 = vx[j + 1][i2];
    let v0 = fp_add(fp_mul(v00, fp_sub(ONE_BITS, fx)), fp_mul(v10, fx));
    let v1 = fp_add(fp_mul(v01, fp_sub(ONE_BITS, fx)), fp_mul(v11, fx));
    fp_add(fp_mul(v0, fp_sub(ONE_BITS, fy)), fp_mul(v1, fy))
}

/// The mirror construction for the vertical velocity: the 0.5 offset is on
/// `x`, the row index steps by one whole row, and the second row sample
/// collapses onto the first near the bottom edge.
pub open spec fn interp_y_spec(w: int, h: int, x: u32, y: u32, vy: Seq<Seq<u32>>) -> u32 {
    let xs = fp_sub(x, HALF_BITS);
    let xsf = fp_floor(xs);
    let yf = fp_floor(y);
    let i = clamp_idx(fp_to_int(xsf), w - 2);
    let j = clamp_idx(fp_to_int(yf), h - 1);
    let fx = fp_sub(xs, xsf);
    let fy = fp_sub(y, yf);
    let j2 = if j < h - 1 {
        j
    } else {
        h - 1
    };
    let v00 = vy[i][j];
    let v10 = vy[i + 1][j];
    let v01 = vy[i][j2];
    let v11 = vy[i + 1][j2];
    let v0 = fp_add(fp_mul(v00, fp_sub(ONE_BITS, fx)), fp_mul(v10, fx));
    let v1 = fp_add(fp_mul(v01, fp_sub(ONE_BITS, fx)), fp_mul(v11, fx));
    fp_add(fp_mul(v0, fp_sub(ONE_BITS, fy)), fp_mul(v1, fy))
}

/// The new value of the interior x-face `(i, j)` after one semi-Lagrangian
/// advection step of size `dt` over the snapshots `vx`, `vy` of a `w` x `h`
/// grid: the full old velocity is sampled at the face position
/// `(i, j + 0.5)`, the position is traced backwards along it and clamped
/// into the domain, and the old x-velocity is interpolated there.
pub open spec fn advected_x(
    vx: Seq<Seq<u32>>,
    vy: Seq<Seq<u32>>,
    w: int,
    h: int,
    dt: u32,
    i: int,
    j: int,
) -> u32 {
    let px = fp_of_uint(i as usize);
    let py = fp_add(fp_of_uint(j as usize), HALF_BITS);
    let u = interp_x_spec(w, h, px, py, vx);
    let v = interp_y_spec(w, h, px, py, vy);
    let tx = fp_min(fp_max(fp_sub(px, fp_mul(dt, u)), 0u32), fp_of_uint(w as usize));
    let ty = fp_min(fp_max(fp_sub(py, fp_mul(dt, v)), 0u32), fp_of_uint(h as usize));
    interp_x_spec(w, h, tx, ty, vx)
}

/// The mirror of `advected_x` for the interior y-face `(i, j)`, at face
/// position `(i + 0.5, j)`.
pub open spec fn advected_y(
    vx: Seq<Seq<u32>>,
    vy: Seq<Seq<u32>>,
    w: int,
    h: int,
    dt: u32,
    i: int,
    j: int,
) -> u32 {
    let px = fp_add(fp_of_uint(i as usize), HALF_BITS);
    let py = fp_of_uint(j as usize);
    let u = interp_x_spec(w, h, px, py, vx);
    let v = interp_y_spec(w, h, px, py, vy);
    let tx = fp_min(fp_max(fp_sub(px, fp_mul(dt, u)), 0u32), fp_of_uint(w as usize));
    let ty = fp_min(fp_max(fp_sub(py, fp_mul(dt, v)), 0u32), fp_of_uint(h as usize));
    interp_y_spec(w, h, tx, ty, vy)
}

/// A staggered (MAC) grid over `width` x `height` cells.  Scalars at cell
/// centers (`pressure`, `density`) are stored row-major as `[y][x]`.  The
/// horizontal velocity `vel_x[j][i]` sits on the vertical face between cells
/// `(i-1, j)` and `(i, j)`, so each of the `height` rows has `width + 1`
/// samples.  The vertical velocity `vel_y[i][j]` sits on the horizontal face
/// between cells `(i, j-1)` and `(i, j)`; its first index is the cell's x
/// coordinate, so each of the `width` rows has `height + 1` samples.  All
/// samples are IEEE 754 binary32 bit patterns.
pub struct Grid {
    pub width: usize,
    pub height: usize,
    pub pressure: Vec<Vec<u32>>,
    pub density: Vec<Vec<u32>>,
    pub vel_x: Vec<Vec<u32>>,
    pub vel_y: Vec<Vec<u32>>,
}

impl Grid {
    /// Shape invariant: all four fields have the sizes stated above, and the
    /// resolution is positive and small enough for face counts and signed
    /// index arithmetic to fit the machine types.
    pub open spec fn wf(&self) -> bool {
        &&& 1 <= self.width
        &&& 1 <= self.height
        &&& self.width < 0x1000_0000_0000_0000
        &&& self.height < 0x1000_0000_0000_0000
        &&& field_wf(fview(self.pressure), self.height as int, self.width as int)
        &&& field_wf(fview(self.density), self.height as int, self.width as int)
        &&& field_wf(fview(self.vel_x), self.height as int, self.width + 1)
        &&& field_wf(fview(self.vel_y), self.width as int, self.height + 1)
    }
}

/// A copy of a row of samples.
fn clone_row(src: &Vec<u32>) -> (r: Vec<u32>)
    ensures
        r@ == src@,
{
    let mut r: Vec<u32> = Vec::new();
    let mut i: usize = 0;
    while i < src.len()
        invariant
            i <= src@.len(),
            r@ =~= src@.subrange(0, i as int),
        decreases src@.len() - i,
    {
        r.push(src[i]);
        i = i + 1;
    }
    proof {
        assert(r@ =~= src@);
    }
    r
}

/// Replaces sample `k` of row `j` of a field with `val`.
fn set_entry(field: &mut Vec<Vec<u32>>, j: usize, k: usize, val: u32)
    requires
        j < old(field)@.len(),
        k < old(field)@[j as int]@.len(),
    ensures
        fview(*final(field)) == fview(*old(field)).update(
            j as int,
            fview(*old(field))[j as int].update(k as int, val),
        ),
{
    let mut row = clone_row(&field[j]);
    row.set(k, val);
    field.set(j, row);
    proof {
        assert(fview(*field) =~= fview(*old(field)).update(
            j as int,
            fview(*old(field))[j as int].update(k as int, val),
        ));
    }
}

/// A sample-for-sample copy of a field.
fn clone_field(src: &Vec<Vec<u32>>) -> (r: Vec<Vec<u32>>)
    ensures
        fview(r) == fview(*src),
{
    let mut r: Vec<Vec<u32>> = Vec::new();
    let mut j: usize = 0;
    while j < src.len()
        invariant
            j <= src@.len(),
            fview(r).len() == j,
            forall|jj: int| 0 <= jj < j ==> #[trigger] fview(r)[jj] == fview(*src)[jj],
        decreases src@.len() - j,
    {
        let row = clone_row(&src[j]);
        let ghost prev = fview(r);
        r.push(row);
        proof {
            assert(forall|jj: int| 0 <= jj < j ==> #[trigger] fview(r)[jj] == prev[jj]);
            assert(fview(r)[j as int] == row@);
        }
        j = j + 1;
    }
    proof {
        assert(fview(r) =~= fview(*src));
    }
    r
}

/// A `rows` x `cols` field of +0.0 samples.
fn zero_rows(rows: usize, cols: usize) -> (r: Vec<Vec<u32>>)
    ensures
        field_wf(fview(r), rows as int, cols as int),
        zero_field(fview(r)),
{
    let mut r: Vec<Vec<u32>> = Vec::new();
    let mut j: usize = 0;
    while j < rows
        invariant
            j <= rows,
            fview(r).len() == j,
            forall|jj: int| 0 <= jj < j ==> (#[trigger] fview(r)[jj]).len() == cols,
            forall|jj: int, ii: int|
                0 <= jj < j && 0 <= ii < cols ==> (#[trigger] fview(r)[jj][ii]) == 0u32,
        decreases rows - j,
    {
        let mut row: Vec<u32> = Vec::new();
        let mut i: usize = 0;
        while i < cols
            invariant
                i <= cols,
                row@.len() == i,
                forall|ii: int| 0 <= ii < i ==> row@[ii] == 0u32,
            decreases cols - i,
        {
            row.push(0u32);
            i = i + 1;
        }
        let ghost prev = fview(r);
        r.push(row);
        proof {
            assert(forall|jj: int| 0 <= jj < j ==> #[trigger] fview(r)[jj] == prev[jj]);
            assert(fview(r)[j as int] == row@);
        }
        j = j + 1;
    }
    r
}

impl Grid {
    /// A grid of `width` x `height` cells with every sample +0.0.
    pub fn new(width: usize, height: usize) -> (g: Grid)
        requires
            1 <= width,
            1 <= height,
            width < usize::MAX,
            height < usize::MAX,
            width < 0x1000_0000_0000_0000,
            height < 0x1000_0000_0000_0000,
        ensures
            g.wf(),
            g.width == width,
            g.height == height,
            zero_field(fview(g.pressure)),
            zero_field(fview(g.density)),
            zero_field(fview(g.vel_x)),
            zero_field(fview(g.vel_y)),
    {
        Grid {
            width,
            height,
            pressure: zero_rows(height, width),
            density: zero_rows(height, width),
            vel_x: zero_rows(height, width + 1),
            vel_y: zero_rows(width, height + 1),
        }
    }

    /// The cell-centered velocity of cell `(i, j)`: the average of the two
    /// bounding x-faces and of the two bounding y-faces.
    pub fn get_center_vel(&self, i: usize, j: usize) -> (r: (u32, u32))
        requires
            self.wf(),
            i < self.width,
            j < self.height,
        ensures
            r.0 == fp_mul(
                fp_add(fview(self.vel_x)[j as int][i as int], fview(self.vel_x)[j as int][i + 1]),
                HALF_BITS,
            ),
            r.1 == fp_mul(
                fp_add(fview(self.vel_y)[i as int][j as int], fview(self.vel_y)[i as int][j + 1]),
                HALF_BITS,
            ),
    {
        let x_avg = mul_bits(add_bits(self.vel_x[j][i], self.vel_x[j][i + 1]), HALF_BITS);
        let y_avg = mul_bits(add_bits(self.vel_y[i][j], self.vel_y[i][j + 1]), HALF_BITS);
        (x_avg, y_avg)
    }

    /// The discrete divergence of the velocity field at cell `(i, j)`:
    /// outflow minus inflow on each axis, unit cell spacing.
    pub fn calculate_divergence(&self, i: usize, j: usize) -> (r: u32)
        requires
            self.wf(),
            i < self.width,
            j < self.height,
        ensures
            r == fp_add(
                fp_sub(fview(self.vel_x)[j as int][i + 1], fview(self.vel_x)[j as int][i as int]),
                fp_sub(fview(self.vel_y)[i as int][j + 1], fview(self.vel_y)[i as int][j as int]),
            ),
    {
        add_bits(
            sub_bits(self.vel_x[j][i + 1], self.vel_x[j][i]),
            sub_bits(self.vel_y[i][j + 1], self.vel_y[i][j]),
        )
    }

    /// Sets the no-flow boundary: every x-velocity on the left and right wall
    /// and every y-velocity on the top and bottom wall becomes +0.0; no other
    /// sample changes.
    pub fn set_boundary_conditions(&mut self)
        requires
            old(self).wf(),
        ensures
            final(self).wf(),
            final(self).width == old(self).width,
            final(self).height == old(self).height,
            final(self).pressure == old(self).pressure,
            final(self).density == old(self).density,
            fview(final(self).vel_x) == bc_field(fview(old(self).vel_x), old(self).width as int),
            fview(final(self).vel_y) == bc_field(fview(old(self).vel_y), old(self).height as int),
            forall|j: int|
                0 <= j < old(self).height ==> (#[trigger] fview(final(self).vel_x)[j])[0] == 0u32
                    && fview(final(self).vel_x)[j][old(self).width as int] == 0u32,
            forall|i: int|
                0 <= i < old(self).width ==> (#[trigger] fview(final(self).vel_y)[i])[0] == 0u32
                    && fview(final(self).vel_y)[i][old(self).height as int] == 0u32,
            forall|j: int, i: int|
                0 <= j < old(self).height && 0 < i < old(self).width
                    ==> #[trigger] fview(final(self).vel_x)[j][i]
                    == fview(old(self).vel_x)[j][i],
            forall|i: int, j: int|
                0 <= i < old(self).width && 0 < j < old(self).height
                    ==> #[trigger] fview(final(self).vel_y)[i][j]
                    == fview(old(self).vel_y)[i][j],
            zero_field(fview(old(self).vel_x)) ==> zero_field(fview(final(self).vel_x)),
            zero_field(fview(old(self).vel_y)) ==> zero_field(fview(final(self).vel_y)),
    {
        let ghost vx0 = fview(old(self).vel_x);
        let ghost vy0 = fview(old(self).vel_y);
        let w = self.width;
        let h = self.height;
        let mut j: usize = 0;
        while j < h
            invariant
                self.width == w,
                self.height == h,
                old(self).wf(),
                j <= h,
                self.pressure == old(self).pressure,
                self.density == old(self).density,
                self.vel_y == old(self).vel_y,
                field_wf(fview(self.vel_x), h as int, w + 1),
                forall|jj: int|
                    0 <= jj < j ==> #[trigger] fview(self.vel_x)[jj] == vx0[jj].update(
                        0,
                        0u32,
                    ).update(w as int, 0u32),
                forall|jj: int| j <= jj < h ==> #[trigger] fview(self.vel_x)[jj] == vx0[jj],
            decreases h - j,
        {
            set_entry(&mut self.vel_x, j, 0, 0u32);
            set_entry(&mut self.vel_x, j, w, 0u32);
            proof {
                assert(fview(self.vel_x)[j as int] =~= vx0[j as int].update(0, 0u32).update(
                    w as int,
                    0u32,
                ));
            }
            j = j + 1;
        }
        let mut i: usize = 0;
        while i < w
            invariant
                self.width == w,
                self.height == h,
                old(self).wf(),
                i <= w,
                self.pressure == old(self).pressure,
                self.density == old(self).density,
                forall|jj: int|
                    0 <= jj < h ==> #[trigger] fview(self.vel_x)[jj] == vx0[jj].update(
                        0,
                        0u32,
                    ).update(w as int, 0u32),
                field_wf(fview(self.vel_x), h as int, w + 1),
                field_wf(fview(self.vel_y), w as int, h + 1),
                forall|ii: int|
                    0 <= ii < i ==> #[trigger] fview(self.vel_y)[ii] == vy0[ii].update(
                        0,
                        0u32,
                    ).update(h as int, 0u32),
                forall|ii: int| i <= ii < w ==> #[trigger] fview(self.vel_y)[ii] == vy0[ii],
            decreases w - i,
        {
            set_entry(&mut self.vel_y, i, 0, 0u32);
            set_entry(&mut self.vel_y, i, h, 0u32);
            proof {
                assert(fview(self.vel_y)[i as int] =~= vy0[i as int].update(0, 0u32).update(
                    h as int,
                    0u32,
                ));
            }
            i = i + 1;
        }
        proof {
            assert(fview(self.vel_x) =~= bc_field(vx0, w as int));
            assert(fview(self.vel_y) =~= bc_field(vy0, h as int));
        }
    }

    /// Adds a directional impulse at cell `(x, y)`: `amount * dir_x` is added
    /// to the x-face `vel_x[y][x]` and `amount * dir_y` to the y-face
    /// `vel_y[x][y]`.  No boundary enforcement happens here; the next grid
    /// update restores the no-flow walls.
    pub fn update_vel(&mut self, x: usize, y: usize, dir_x: i32, dir_y: i32, amount: u32)
        requires
            old(self).wf(),
            x < old(self).width,
            y < old(self).height,
        ensures
            final(self).wf(),
            final(self).width == old(self).width,
            final(self).height == old(self).height,
            final(self).pressure == old(self).pressure,
            final(self).density == old(self).density,
            fview(final(self).vel_x) == fview(old(self).vel_x).update(
                y as int,
                fview(old(self).vel_x)[y as int].update(
                    x as int,
                    fp_add(
                        fview(old(self).vel_x)[y as int][x as int],
                        fp_mul(amount, fp_of_int(dir_x)),
                    ),
                ),
            ),
            fview(final(self).vel_y) == fview(old(self).vel_y).update(
                x as int,
                fview(old(self).vel_y)[x as int].update(
                    y as int,
                    fp_add(
                        fview(old(self).vel_y)[x as int][y as int],
                        fp_mul(amount, fp_of_int(dir_y)),
                    ),
                ),
            ),
    {
        let dx = mul_bits(amount, of_int_bits(dir_x));
        let dy = mul_bits(amount, of_int_bits(dir_y));
        let nx = add_bits(self.vel_x[y][x], dx);
        let ny = add_bits(self.vel_y[x][y], dy);
        set_entry(&mut self.vel_x, y, x, nx);
        set_entry(&mut self.vel_y, x, y, ny);
    }

    /// One semi-Lagrangian advection pass of step `dt` (a binary32 bit
    /// pattern): every interior face value is recomputed from immutable
    /// snapshots of the previous face arrays by backward tracing, then the
    /// no-flow boundary is restored.  On an all-zero grid the velocities stay
    /// exactly +0.0 for every `dt`.
    pub fn advect(&mut self, dt: u32)
        requires
            old(self).wf(),
            old(self).width == 1 && old(self).height == 1 || 2 <= old(self).width && 2 <= old(
                self,
            ).height,
        ensures
            final(self).wf(),
            final(self).width == old(self).width,
            final(self).height == old(self).height,
            final(self).pressure == old(self).pressure,
            final(self).density == old(self).density,
            forall|j: int, i: int|
                0 <= j < old(self).height && 1 <= i < old(self).width
                    ==> #[trigger] fview(final(self).vel_x)[j][i] == advected_x(
                    fview(old(self).vel_x),
                    fview(old(self).vel_y),
                    old(self).width as int,
                    old(self).height as int,
                    dt,
                    i,
                    j,
                ),
            forall|j: int|
                0 <= j < old(self).height ==> (#[trigger] fview(final(self).vel_x)[j])[0] == 0u32
                    && fview(final(self).vel_x)[j][old(self).width as int] == 0u32,
            forall|i: int, j: int|
                0 <= i < old(self).width && 1 <= j < old(self).height
                    ==> #[trigger] fview(final(self).vel_y)[i][j] == advected_y(
                    fview(old(self).vel_x),
                    fview(old(self).vel_y),
                    old(self).width as int,
                    old(self).height as int,
                    dt,
                    i,
                    j,
                ),
            forall|i: int|
                0 <= i < old(self).width ==> (#[trigger] fview(final(self).vel_y)[i])[0] == 0u32
                    && fview(final(self).vel_y)[i][old(self).height as int] == 0u32,
            zero_field(fview(old(self).vel_x)) && zero_field(fview(old(self).vel_y)) ==> zero_field(
                fview(final(self).vel_x),
            ) && zero_field(fview(final(self).vel_y)),
    {
        let w = self.width;
        let h = self.height;
        let old_vx = clone_field(&self.vel_x);
        let old_vy = clone_field(&self.vel_y);
        let ghost ovx = fview(old_vx);
        let ghost ovy = fview(old_vy);
        let wf_b = of_uint_bits(w);
        let hf_b = of_uint_bits(h);
        let mut j: usize = 0;
        while j < h
            invariant
                self.width == w,
                self.height == h,
                1 <= w < 0x1000_0000_0000_0000,
                1 <= h < 0x1000_0000_0000_0000,
                w == 1 && h == 1 || 2 <= w && 2 <= h,
                j <= h,
                self.pressure == old(self).pressure,
                self.density == old(self).density,
                self.vel_y == old(self).vel_y,
                ovx == fview(old(self).vel_x),
                ovy == fview(old(self).vel_y),
                fview(old_vx) == ovx,
                fview(old_vy) == ovy,
                field_wf(ovx, h as int, w + 1),
                field_wf(ovy, w as int, h + 1),
                field_wf(fview(self.vel_x), h as int, w + 1),
                wf_b == fp_of_uint(w),
                hf_b == fp_of_uint(h),
                !sign_of(wf_b) && wf_b <= 0x5f80_0000u32,
                !sign_of(hf_b) && hf_b <= 0x5f80_0000u32,
                forall|jj: int, ii: int|
                    0 <= jj < j && 1 <= ii < w ==> #[trigger] fview(self.vel_x)[jj][ii]
                        == advected_x(ovx, ovy, w as int, h as int, dt, ii, jj),
                forall|jj: int, ii: int|
                    0 <= jj < h && 0 <= ii <= w && (ii == 0 || ii == w || j <= jj)
                        ==> #[trigger] fview(self.vel_x)[jj][ii] == ovx[jj][ii],
                forall|jj: int, ii: int|
                    zero_field(ovx) && zero_field(ovy) && 0 <= jj < j && 1 <= ii < w
                        ==> (#[trigger] fview(self.vel_x)[jj][ii]) == 0u32,
            decreases h - j,
        {
            let mut i: usize = 1;
            while i < w
                invariant
                    self.width == w,
                    self.height == h,
                    1 <= w < 0x1000_0000_0000_0000,
                    1 <= h < 0x1000_0000_0000_0000,
                    w == 1 && h == 1 || 2 <= w && 2 <= h,
                    j < h,
                    1 <= i <= w,
                    self.pressure == old(self).pressure,
                    self.density == old(self).density,
                    self.vel_y == old(self).vel_y,
                    ovx == fview(old(self).vel_x),
                    ovy == fview(old(self).vel_y),
                    fview(old_vx) == ovx,
                    fview(old_vy) == ovy,
                    field_wf(ovx, h as int, w + 1),
                    field_wf(ovy, w as int, h + 1),
                    field_wf(fview(self.vel_x), h as int, w + 1),
                    wf_b == fp_of_uint(w),
                    hf_b == fp_of_uint(h),
                    !sign_of(wf_b) && wf_b <= 0x5f80_0000u32,
                    !sign_of(hf_b) && hf_b <= 0x5f80_0000u32,
                    forall|jj: int, ii: int|
                        0 <= jj < j && 1 <= ii < w ==> #[trigger] fview(self.vel_x)[jj][ii]
                            == advected_x(ovx, ovy, w as int, h as int, dt, ii, jj),
                    forall|ii: int|
                        1 <= ii < i ==> #[trigger] fview(self.vel_x)[j as int][ii] == advected_x(
                            ovx,
                            ovy,
                            w as int,
                            h as int,
                            dt,
                            ii,
                            j as int,
                        ),
                    forall|jj: int, ii: int|
                        0 <= jj < h && 0 <= ii <= w && (ii == 0 || ii == w || j < jj || (jj == j
                            && i <= ii)) ==> #[trigger] fview(self.vel_x)[jj][ii] == ovx[jj][ii],
                    forall|jj: int, ii: int|
                        zero_field(ovx) && zero_field(ovy) && 0 <= jj < j && 1 <= ii < w
                            ==> (#[trigger] fview(self.vel_x)[jj][ii]) == 0u32,
                    forall|ii: int|
                        zero_field(ovx) && zero_field(ovy) && 1 <= ii < i
                            ==> (#[trigger] fview(self.vel_x)[j as int][ii]) == 0u32,
                decreases w - i,
            {
                let px = of_uint_bits(i);
                let py = add_bits(of_uint_bits(j), HALF_BITS);
                let u = self.interpolate_x_velocity(px, py, &old_vx);
                let v = self.interpolate_y_velocity(px, py, &old_vy);
                let mu = mul_bits(dt, u);
                let sx = sub_bits(px, mu);
                let cx = max_bits(sx, 0u32);
                let tx = min_bits(cx, wf_b);
                let mv = mul_bits(dt, v);
                let sy = sub_bits(py, mv);
                let cy = max_bits(sy, 0u32);
                let ty = min_bits(cy, hf_b);
                let val = self.interpolate_x_velocity(tx, ty, &old_vx);
                set_entry(&mut self.vel_x, j, i, val);
                proof {
                    assert(val == advected_x(ovx, ovy, w as int, h as int, dt, i as int, j as int));
                    if zero_field(ovx) && zero_field(ovy) {
                        assert(finite_val(px) && !sign_of(px));
                        assert(finite_val(py) && !sign_of(py));
                        assert(u == 0u32 && v == 0u32);
                        assert(finite_val(tx) && !sign_of(tx));
                        assert(finite_val(ty) && !sign_of(ty));
                        assert(val == 0u32);
                    }
                }
                i = i + 1;
            }
            j = j + 1;
        }
        let ghost vxm = self.vel_x;
        let mut i: usize = 0;
        while i < w
            invariant
                self.width == w,
                self.height == h,
                1 <= w < 0x1000_0000_0000_0000,
                1 <= h < 0x1000_0000_0000_0000,
                w == 1 && h == 1 || 2 <= w && 2 <= h,
                i <= w,
                self.pressure == old(self).pressure,
                self.density == old(self).density,
                self.vel_x == vxm,
                ovx == fview(old(self).vel_x),
                ovy == fview(old(self).vel_y),
                fview(old_vx) == ovx,
                fview(old_vy) == ovy,
                field_wf(ovx, h as int, w + 1),
                field_wf(ovy, w as int, h + 1),
                field_wf(fview(self.vel_x), h as int, w + 1),
                field_wf(fview(self.vel_y), w as int, h + 1),
                wf_b == fp_of_uint(w),
                hf_b == fp_of_uint(h),
                !sign_of(wf_b) && wf_b <= 0x5f80_0000u32,
                !sign_of(hf_b) && hf_b <= 0x5f80_0000u32,
                forall|jj: int, ii: int|
                    0 <= jj < h && 1 <= ii < w ==> #[trigger] fview(self.vel_x)[jj][ii]
                        == advected_x(ovx, ovy, w as int, h as int, dt, ii, jj),
                forall|jj: int, ii: int|
                    0 <= jj < h && 0 <= ii <= w && (ii == 0 || ii == w)
                        ==> #[trigger] fview(self.vel_x)[jj][ii] == ovx[jj][ii],
                forall|jj: int, ii: int|
                    zero_field(ovx) && zero_field(ovy) && 0 <= jj < h && 1 <= ii < w
                        ==> (#[trigger] fview(self.vel_x)[jj][ii]) == 0u32,
                forall|ii: int, jj: int|
                    0 <= ii < i && 1 <= jj < h ==> #[trigger] fview(self.vel_y)[ii][jj]
                        == advected_y(ovx, ovy, w as int, h as int, dt, ii, jj),
                forall|ii: int, jj: int|
                    0 <= ii < w && 0 <= jj <= h && (jj == 0 || jj == h || i <= ii)
                        ==> #[trigger] fview(self.vel_y)[ii][jj] == ovy[ii][jj],
                forall|ii: int, jj: int|
                    zero_field(ovx) && zero_field(ovy) && 0 <= ii < i && 1 <= jj < h
                        ==> (#[trigger] fview(self.vel_y)[ii][jj]) == 0u32,
            decreases w - i,
        {
            let mut j2: usize = 1;
            while j2 < h
                invariant
                    self.width == w,
                    self.height == h,
                    1 <= w < 0x1000_0000_0000_0000,
                    1 <= h < 0x1000_0000_0000_0000,
                    w == 1 && h == 1 || 2 <= w && 2 <= h,
                    i < w,
                    1 <= j2 <= h,
                    self.pressure == old(self).pressure,
                    self.density == old(self).density,
                    self.vel_x == vxm,
                    ovx == fview(old(self).vel_x),
                    ovy == fview(old(self).vel_y),
                    fview(old_vx) == ovx,
                    fview(old_vy) == ovy,
                    field_wf(ovx, h as int, w + 1),
                    field_wf(ovy, w as int, h + 1),
                    field_wf(fview(self.vel_x), h as int, w + 1),
                    field_wf(fview(self.vel_y), w as int, h + 1),
                    wf_b == fp_of_uint(w),
                    hf_b == fp_of_uint(h),
                    !sign_of(wf_b) && wf_b <= 0x5f80_0000u32,
                    !sign_of(hf_b) && hf_b <= 0x5f80_0000u32,
                    forall|jj: int, ii: int|
                        0 <= jj < h && 1 <= ii < w ==> #[trigger] fview(self.vel_x)[jj][ii]
                            == advected_x(ovx, ovy, w as int, h as int, dt, ii, jj),
                    forall|jj: int, ii: int|
                        0 <= jj < h && 0 <= ii <= w && (ii == 0 || ii == w)
                            ==> #[trigger] fview(self.vel_x)[jj][ii] == ovx[jj][ii],
                    forall|jj: int, ii: int|
                        zero_field(ovx) && zero_field(ovy) && 0 <= jj < h && 1 <= ii < w
                            ==> (#[trigger] fview(self.vel_x)[jj][ii]) == 0u32,
                    forall|ii: int, jj: int|
                        0 <= ii < i && 1 <= jj < h ==> #[trigger] fview(self.vel_y)[ii][jj]
                            == advected_y(ovx, ovy, w as int, h as int, dt, ii, jj),
                    forall|jj: int|
                        1 <= jj < j2 ==> #[trigger] fview(self.vel_y)[i as int][jj] == advected_y(
                            ovx,
                            ovy,
                            w as int,
                            h as int,
                            dt,
                            i as int,
                            jj,
                        ),
                    forall|ii: int, jj: int|
                        0 <= ii < w && 0 <= jj <= h && (jj == 0 || jj == h || i < ii || (ii == i
                            && j2 <= jj)) ==> #[trigger] fview(self.vel_y)[ii][jj] == ovy[ii][jj],
                    forall|ii: int, jj: int|
                        zero_field(ovx) && zero_field(ovy) && 0 <= ii < i && 1 <= jj < h
                            ==> (#[trigger] fview(self.vel_y)[ii][jj]) == 0u32,
                    forall|jj: int|
                        zero_field(ovx) && zero_field(ovy) && 1 <= jj < j2
                            ==> (#[trigger] fview(self.vel_y)[i as int][jj]) == 0u32,
                decreases h - j2,
            {
                let px = add_bits(of_uint_bits(i), HALF_BITS);
                let py = of_uint_bits(j2);
                let u = self.interpolate_x_velocity(px, py, &old_vx);
                let v = self.interpolate_y_velocity(px, py, &old_vy);
                let mu = mul_bits(dt, u);
                let sx = sub_bits(px, mu);
                let cx = max_bits(sx, 0u32);
                let tx = min_bits(cx, wf_b);
                let mv = mul_bits(dt, v);
                let sy = sub_bits(py, mv);
                let cy = max_bits(sy, 0u32);
                let ty = min_bits(cy, hf_b);
                let val = self.interpolate_y_velocity(tx, ty, &old_vy);
                set_entry(&mut self.vel_y, i, j2, val);
                proof {
                    assert(val == advected_y(ovx, ovy, w as int, h as int, dt, i as int, j2 as int));
                    if zero_field(ovx) && zero_field(ovy) {
                        assert(finite_val(px) && !sign_of(px));
                        assert(finite_val(py) && !sign_of(py));
                        assert(u == 0u32 && v == 0u32);
                        assert(finite_val(tx) && !sign_of(tx));
                        assert(finite_val(ty) && !sign_of(ty));
                        assert(val == 0u32);
                    }
                }
                j2 = j2 + 1;
            }
            i = i + 1;
        }
        proof {
            if zero_field(ovx) && zero_field(ovy) {
                assert(zero_field(fview(self.vel_x)));
                assert(zero_field(fview(self.vel_y)));
            }
        }
        self.set_boundary_conditions();
    }

    /// One simulation tick: an advection pass with step 1.0, then a second,
    /// idempotent boundary enforcement.  Pressure and density are untouched.
    /// Starting from an all-zero grid, the velocities stay exactly +0.0.
    pub fn update_grid(&mut self)
        requires
            old(self).wf(),
            old(self).width == 1 && old(self).height == 1 || 2 <= old(self).width && 2 <= old(
                self,
            ).height,
        ensures
            final(self).wf(),
            final(self).width == old(self).width,
            final(self).height == old(self).height,
            final(self).pressure == old(self).pressure,
            final(self).density == old(self).density,
            forall|j: int, i: int|
                0 <= j < old(self).height && 1 <= i < old(self).width
                    ==> #[trigger] fview(final(self).vel_x)[j][i] == advected_x(
                    fview(old(self).vel_x),
                    fview(old(self).vel_y),
                    old(self).width as int,
                    old(self).height as int,
                    ONE_BITS,
                    i,
                    j,
                ),
            forall|j: int|
                0 <= j < old(self).height ==> (#[trigger] fview(final(self).vel_x)[j])[0] == 0u32
                    && fview(final(self).vel_x)[j][old(self).width as int] == 0u32,
            forall|i: int, j: int|
                0 <= i < old(self).width && 1 <= j < old(self).height
                    ==> #[trigger] fview(final(self).vel_y)[i][j] == advected_y(
                    fview(old(self).vel_x),
                    fview(old(self).vel_y),
                    old(self).width as int,
                    old(self).height as int,
                    ONE_BITS,
                    i,
                    j,
                ),
            forall|i: int|
                0 <= i < old(self).width ==> (#[trigger] fview(final(self).vel_y)[i])[0] == 0u32
                    && fview(final(self).vel_y)[i][old(self).height as int] == 0u32,
            zero_field(fview(old(self).vel_x)) && zero_field(fview(old(self).vel_y)) ==> zero_field(
                fview(final(self).vel_x),
            ) && zero_field(fview(final(self).vel_y)),
    {
        self.advect(ONE_BITS);
        self.set_boundary_conditions();
    }

    /// The horizontal velocity at position `(x, y)`, bilinearly interpolated
    /// from the x-face snapshot `vel_x`.  On an all-zero snapshot the result
    /// is exactly +0.0 for every finite nonnegative position.
    pub fn interpolate_x_velocity(&self, x: u32, y: u32, vel_x: &Vec<Vec<u32>>) -> (r: u32)
        requires
            1 <= self.width < 0x1000_0000_0000_0000,
            2 <= self.height < 0x1000_0000_0000_0000,
            field_wf(fview(*vel_x), self.height as int, self.width + 1),
        ensures
            r == interp_x_spec(self.width as int, self.height as int, x, y, fview(*vel_x)),
            zero_field(fview(*vel_x)) && finite_val(x) && !sign_of(x) && finite_val(y)
                && !sign_of(y) ==> r == 0u32,
    {
        let wi: i64 = self.width as i64;
        let hi64: i64 = self.height as i64;
        let xf = floor_bits(x);
        let ys = sub_bits(y, HALF_BITS);
        let ysf = floor_bits(ys);
        let fi: i64 = to_int_bits(xf);
        let fj: i64 = to_int_bits(ysf);
        let i: usize = if fi < 0 {
            0
        } else if fi > wi - 1 {
            (wi - 1) as usize
        } else {
            fi as usize
        };
        let j: usize = if fj < 0 {
            0
        } else if fj > hi64 - 2 {
            (hi64 - 2) as usize
        } else {
            fj as usize
        };
        let fx = sub_bits(x, xf);
        let fy = sub_bits(ys, ysf);
        let i2: usize = if i < self.width - 1 {
            i
        } else {
            self.width - 1
        };
        let v00 = vel_x[j][i];
        let v10 = vel_x[j][i2];
        let v01 = vel_x[j + 1][i];
        let v11 = vel_x[j + 1][i2];
        let wx1 = sub_bits(ONE_BITS, fx);
        let wy1 = sub_bits(ONE_BITS, fy);
        let v0 = add_bits(mul_bits(v00, wx1), mul_bits(v10, fx));
        let v1 = add_bits(mul_bits(v01, wx1), mul_bits(v11, fx));
        let r = add_bits(mul_bits(v0, wy1), mul_bits(v1, fy));
        r
    }

    /// The vertical velocity at position `(x, y)`, bilinearly interpolated
    /// from the y-face snapshot `vel_y`.  On an all-zero snapshot the result
    /// is exactly +0.0 for every finite nonnegative position.
    pub fn interpolate_y_velocity(&self, x: u32, y: u32, vel_y: &Vec<Vec<u32>>) -> (r: u32)
        requires
            2 <= self.width < 0x1000_0000_0000_0000,
            1 <= self.height < 0x1000_0000_0000_0000,
            field_wf(fview(*vel_y), self.width as int, self.height + 1),
        ensures
            r == interp_y_spec(self.width as int, self.height as int, x, y, fview(*vel_y)),
            zero_field(fview(*vel_y)) && finite_val(x) && !sign_of(x) && finite_val(y)
                && !sign_of(y) ==> r == 0u32,
    {
        let wi: i64 = self.width as i64;
        let hi64: i64 = self.height as i64;
        let xs = sub_bits(x, HALF_BITS);
        let xsf = floor_bits(xs);
        let yf = floor_bits(y);
        let fi: i64 = to_int_bits(xsf);
        let fj: i64 = to_int_bits(yf);
        let i: usize = if fi < 0 {
            0
        } else if fi > wi - 2 {
            (wi - 2) as usize
        } else {
            fi as usize
        };
        let j: usize = if fj < 0 {
            0
        } else if fj > hi64 - 1 {
            (hi64 - 1) as usize
        } else {
            fj as usize
        };
        let fx = sub_bits(xs, xsf);
        let fy = sub_bits(y, yf);
        let j2: usize = if j < self.height - 1 {
            j
        } else {
            self.height - 1
        };
        let v00 = vel_y[i][j];
        let v10 = vel_y[i + 1][j];
        let v01 = vel_y[i][j2];
        let v11 = vel_y[i + 1][j2];
        let wx1 = sub_bits(ONE_BITS, fx);
        let wy1 = sub_bits(ONE_BITS, fy);
        let v0 = add_bits(mul_bits(v00, wx1), mul_bits(v10, fx));
        let v1 = add_bits(mul_bits(v01, wx1), mul_bits(v11, fx));
        let r = add_bits(mul_bits(v0, wy1), mul_bits(v1, fy));
        r
    }

    /// The full velocity `(u, v)` at position `(x, y)`, taken from the two
    /// face snapshots.
    pub fn interpolate_velocity(
        &self,
        x: u32,
        y: u32,
        vel_x: &Vec<Vec<u32>>,
        vel_y: &Vec<Vec<u32>>,
    ) -> (r: (u32, u32))
        requires
            2 <= self.width < 0x1000_0000_0000_0000,
            2 <= self.height < 0x1000_0000_0000_0000,
            field_wf(fview(*vel_x), self.height as int, self.width + 1),
            field_wf(fview(*vel_y), self.width as int, self.height + 1),
        ensures
            r.0 == interp_x_spec(self.width as int, self.height as int, x, y, fview(*vel_x)),
            r.1 == interp_y_spec(self.width as int, self.height as int, x, y, fview(*vel_y)),
            zero_field(fview(*vel_x)) && finite_val(x) && !sign_of(x) && finite_val(y)
                && !sign_of(y) ==> r.0 == 0u32,
            zero_field(fview(*vel_y)) && finite_val(x) && !sign_of(x) && finite_val(y)
                && !sign_of(y) ==> r.1 == 0u32,
    {
        let u = self.interpolate_x_velocity(x, y, vel_x);
        let v = self.interpolate_y_velocity(x, y, vel_y);
        (u, v)
    }
}

} // verus!
