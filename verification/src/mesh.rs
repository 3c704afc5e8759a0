//! The mesh generator: a pure function from a voxel field and the
//! triangulation table to flat vertex-position, normal, scalar and
//! triangle-index buffers.
//!
//! For every unit cell the generator reads the 8 corner densities, forms the
//! 8-bit cube configuration (bit `i` set when corner `i` is above the
//! threshold), and for each edge the table lists for that configuration it
//! emits the isosurface crossing point, found by linear interpolation from
//! the higher-density corner toward the lower-density one. Crossing points
//! are grouped into consecutive triples; each triple is one triangle and
//! carries a flat (unnormalised) face normal, repeated for its three
//! vertices. No vertices are shared between triangles, so the index buffer
//! is simply `0, 1, 2, ...`.

use vstd::prelude::*;

use crate::DENSITY_BOUND;
use crate::MAX_DIM;
use crate::MAX_VOLUME;
use crate::SCALE;
use crate::field::FieldModel;
use crate::field::VoxelField;
use crate::table::TriangulationTable;
use crate::table::config_bit;
use crate::table::corner_dx;
use crate::table::corner_dy;
use crate::table::corner_dz;
use crate::table::corner_index_a_from_edge;
use crate::table::corner_index_b_from_edge;
use crate::table::edge_corner_a;
use crate::table::edge_corner_b;
use crate::table::row_ok;

verus! {

/// A point or vector in fixed-point coordinates.
#[derive(Clone, Copy, Debug, PartialEq, Eq, Structural)]
pub struct Point3 {
    pub x: i64,
    pub y: i64,
    pub z: i64,
}

/// Spec-level point or vector with unbounded integer coordinates.
pub struct Vert {
    pub x: int,
    pub y: int,
    pub z: int,
}

impl View for Point3 {
    type V = Vert;

    open spec fn view(&self) -> Vert {
        Vert { x: self.x as int, y: self.y as int, z: self.z as int }
    }
}

/// The density at corner `i` of the cell at `(x, y, z)`.
pub open spec fn corner_density(m: FieldModel, x: int, y: int, z: int, i: int) -> int {
    m.sample(x + corner_dx(i), y + corner_dy(i), z + corner_dz(i))
}

/// 1 when corner `i` of the cell is above the threshold, else 0.
pub open spec fn corner_bit(m: FieldModel, x: int, y: int, z: int, i: int) -> int {
    if corner_density(m, x, y, z, i) > m.threshold {
        1
    } else {
        0
    }
}

/// The 8-bit cube configuration of the cell at `(x, y, z)`.
pub open spec fn cube_config(m: FieldModel, x: int, y: int, z: int) -> int {
    corner_bit(m, x, y, z, 0) + 2 * corner_bit(m, x, y, z, 1) + 4 * corner_bit(m, x, y, z, 2) + 8
        * corner_bit(m, x, y, z, 3) + 16 * corner_bit(m, x, y, z, 4) + 32 * corner_bit(
        m,
        x,
        y,
        z,
        5,
    ) + 64 * corner_bit(m, x, y, z, 6) + 128 * corner_bit(m, x, y, z, 7)
}

/// The fixed-point position of corner `i` of the cell at `(x, y, z)`.
pub open spec fn corner_vert(x: int, y: int, z: int, i: int) -> Vert {
    Vert {
        x: (x + corner_dx(i)) * SCALE,
        y: (y + corner_dy(i)) * SCALE,
        z: (z + corner_dz(i)) * SCALE,
    }
}

/// The fixed-point interpolation parameter (0..=`SCALE` on crossed edges) of
/// the isosurface crossing, measured from the higher-density corner toward
/// the lower-density one: `SCALE * (d_hi - threshold) / (d_hi - d_lo)`,
/// rounded down. An uncrossed pairing (higher corner not above the
/// threshold) yields 0.
pub open spec fn interp_param(d_hi: int, d_lo: int, threshold: int) -> int {
    if d_hi <= threshold {
        0
    } else {
        SCALE * (d_hi - threshold) / (d_hi - d_lo)
    }
}

/// The point at offset `t` (in fixed-point units) from corner `hi` toward
/// corner `lo` of the cell at `(x, y, z)`.
pub open spec fn lerp_toward(x: int, y: int, z: int, hi: int, lo: int, t: int) -> Vert {
    Vert {
        x: (x + corner_dx(hi)) * SCALE + (corner_dx(lo) - corner_dx(hi)) * t,
        y: (y + corner_dy(hi)) * SCALE + (corner_dy(lo) - corner_dy(hi)) * t,
        z: (z + corner_dz(hi)) * SCALE + (corner_dz(lo) - corner_dz(hi)) * t,
    }
}

/// The isosurface crossing point on edge `e` of the cell at `(x, y, z)`:
/// interpolated from the higher-density corner toward the lower-density one;
/// with equal corner densities (never the case on an edge the table lists)
/// the first corner itself.
pub open spec fn edge_vertex(m: FieldModel, x: int, y: int, z: int, e: int) -> Vert {
    let a = edge_corner_a(e);
    let b = edge_corner_b(e);
    let da = corner_density(m, x, y, z, a);
    let db = corner_density(m, x, y, z, b);
    if da > db {
        lerp_toward(x, y, z, a, b, interp_param(da, db, m.threshold))
    } else if db > da {
        lerp_toward(x, y, z, b, a, interp_param(db, da, m.threshold))
    } else {
        corner_vert(x, y, z, a)
    }
}

/// The scalar attribute recorded for the crossing on edge `e`: the density of
/// the higher-density corner.
pub open spec fn edge_scalar(m: FieldModel, x: int, y: int, z: int, e: int) -> int {
    let da = corner_density(m, x, y, z, edge_corner_a(e));
    let db = corner_density(m, x, y, z, edge_corner_b(e));
    if da >= db {
        da
    } else {
        db
    }
}

/// Componentwise difference `u - v`.
pub open spec fn vert_sub(u: Vert, v: Vert) -> Vert {
    Vert { x: u.x - v.x, y: u.y - v.y, z: u.z - v.z }
}

/// The cross product `u x v`.
pub open spec fn cross_product(u: Vert, v: Vert) -> Vert {
    Vert {
        x: u.y * v.z - u.z * v.y,
        y: u.z * v.x - u.x * v.z,
        z: u.x * v.y - u.y * v.x,
    }
}

/// The flat (unnormalised) normal of the triangle `(v0, v1, v2)`:
/// `(v1 - v0) x (v2 - v0)`.
pub open spec fn tri_normal(v0: Vert, v1: Vert, v2: Vert) -> Vert {
    cross_product(vert_sub(v1, v0), vert_sub(v2, v0))
}

/// The crossing points of the cell at `(x, y, z)` for a table row, in row
/// order.
pub open spec fn cell_verts(m: FieldModel, row: Seq<u8>, x: int, y: int, z: int) -> Seq<Vert> {
    row.map_values(|e: u8| edge_vertex(m, x, y, z, e as int))
}

/// The scalar attributes of the cell's crossing points, in row order.
pub open spec fn cell_scalars(m: FieldModel, row: Seq<u8>, x: int, y: int, z: int) -> Seq<int> {
    row.map_values(|e: u8| edge_scalar(m, x, y, z, e as int))
}

/// The normals of the cell's crossing points: position `i` carries the flat
/// normal of its triple's triangle.
pub open spec fn cell_normals(m: FieldModel, row: Seq<u8>, x: int, y: int, z: int) -> Seq<Vert> {
    let vs = cell_verts(m, row, x, y, z);
    Seq::new(
        vs.len(),
        |i: int| tri_normal(vs[3 * (i / 3)], vs[3 * (i / 3) + 1], vs[3 * (i / 3) + 2]),
    )
}

/// The position, normal and scalar buffers of a generated mesh, as
/// mathematical sequences.
pub struct MeshBuffers {
    pub positions: Seq<Vert>,
    pub normals: Seq<Vert>,
    pub scalars: Seq<int>,
}

/// Empty buffers.
pub open spec fn empty_buffers() -> MeshBuffers {
    MeshBuffers { positions: Seq::empty(), normals: Seq::empty(), scalars: Seq::empty() }
}

/// Buffer concatenation, componentwise.
pub open spec fn buffers_add(a: MeshBuffers, b: MeshBuffers) -> MeshBuffers {
    MeshBuffers {
        positions: a.positions + b.positions,
        normals: a.normals + b.normals,
        scalars: a.scalars + b.scalars,
    }
}

/// The table row selected by the cell's cube configuration.
pub open spec fn cell_row(m: FieldModel, t: TriangulationTable, x: int, y: int, z: int) -> Seq<
    u8,
> {
    t.row(cube_config(m, x, y, z))
}

/// Everything the cell at `(x, y, z)` contributes to the mesh.
pub open spec fn cell_buffers(m: FieldModel, t: TriangulationTable, x: int, y: int, z: int) -> MeshBuffers {
    let row = cell_row(m, t, x, y, z);
    MeshBuffers {
        positions: cell_verts(m, row, x, y, z),
        normals: cell_normals(m, row, x, y, z),
        scalars: cell_scalars(m, row, x, y, z),
    }
}

/// The contributions of the cells `(x, y, 0), ..., (x, y, zc - 1)`, in order.
pub open spec fn row_buffers(m: FieldModel, t: TriangulationTable, y: int, x: int, zc: nat) -> MeshBuffers
    decreases zc,
{
    if zc == 0 {
        empty_buffers()
    } else {
        buffers_add(row_buffers(m, t, y, x, (zc - 1) as nat), cell_buffers(m, t, x, y, zc - 1))
    }
}

/// The contributions of the cell rows `(x, y, *)` for `x < xc`, in order.
pub open spec fn layer_buffers(m: FieldModel, t: TriangulationTable, y: int, xc: nat) -> MeshBuffers
    decreases xc,
{
    if xc == 0 {
        empty_buffers()
    } else {
        buffers_add(
            layer_buffers(m, t, y, (xc - 1) as nat),
            row_buffers(m, t, y, xc - 1, (m.length - 1) as nat),
        )
    }
}

/// The contributions of the cell layers at `y < yc`, in order.
pub open spec fn stack_buffers(m: FieldModel, t: TriangulationTable, yc: nat) -> MeshBuffers
    decreases yc,
{
    if yc == 0 {
        empty_buffers()
    } else {
        buffers_add(
            stack_buffers(m, t, (yc - 1) as nat),
            layer_buffers(m, t, yc - 1, (m.width - 1) as nat),
        )
    }
}

/// The whole mesh of a field: all cells in iteration order (`y` outermost,
/// then `x`, then `z`).
pub open spec fn generated_buffers(m: FieldModel, t: TriangulationTable) -> MeshBuffers {
    stack_buffers(m, t, (m.height - 1) as nat)
}

/// The configuration code is in range and its bits are exactly the corner
/// bits of the cell.
pub proof fn lemma_cube_config_bits(m: FieldModel, x: int, y: int, z: int)
    ensures
        0 <= cube_config(m, x, y, z) < 256,
        forall|i: int|
            0 <= i < 8 ==> config_bit(cube_config(m, x, y, z), i) == corner_bit(m, x, y, z, i),
{
    let b0 = corner_bit(m, x, y, z, 0);
    let b1 = corner_bit(m, x, y, z, 1);
    let b2 = corner_bit(m, x, y, z, 2);
    let b3 = corner_bit(m, x, y, z, 3);
    let b4 = corner_bit(m, x, y, z, 4);
    let b5 = corner_bit(m, x, y, z, 5);
    let b6 = corner_bit(m, x, y, z, 6);
    let b7 = corner_bit(m, x, y, z, 7);
    let c = cube_config(m, x, y, z);
    let h1 = b1 + 2 * b2 + 4 * b3 + 8 * b4 + 16 * b5 + 32 * b6 + 64 * b7;
    let h2 = b2 + 2 * b3 + 4 * b4 + 8 * b5 + 16 * b6 + 32 * b7;
    let h3 = b3 + 2 * b4 + 4 * b5 + 8 * b6 + 16 * b7;
    let h4 = b4 + 2 * b5 + 4 * b6 + 8 * b7;
    let h5 = b5 + 2 * b6 + 4 * b7;
    let h6 = b6 + 2 * b7;
    let h7 = b7;
    vstd::arithmetic::div_mod::lemma_fundamental_div_mod_converse(c, 2, h1, b0);
    vstd::arithmetic::div_mod::lemma_fundamental_div_mod_converse(c, 4, h2, b0 + 2 * b1);
    vstd::arithmetic::div_mod::lemma_fundamental_div_mod_converse(c, 8, h3, b0 + 2 * b1 + 4 * b2);
    vstd::arithmetic::div_mod::lemma_fundamental_div_mod_converse(
        c,
        16,
        h4,
        b0 + 2 * b1 + 4 * b2 + 8 * b3,
    );
    vstd::arithmetic::div_mod::lemma_fundamental_div_mod_converse(
        c,
        32,
        h5,
        b0 + 2 * b1 + 4 * b2 + 8 * b3 + 16 * b4,
    );
    vstd::arithmetic::div_mod::lemma_fundamental_div_mod_converse(
        c,
        64,
        h6,
        b0 + 2 * b1 + 4 * b2 + 8 * b3 + 16 * b4 + 32 * b5,
    );
    vstd::arithmetic::div_mod::lemma_fundamental_div_mod_converse(
        c,
        128,
        h7,
        b0 + 2 * b1 + 4 * b2 + 8 * b3 + 16 * b4 + 32 * b5 + 64 * b6,
    );
    vstd::arithmetic::div_mod::lemma_fundamental_div_mod_converse(h1, 2, h2, b1);
    vstd::arithmetic::div_mod::lemma_fundamental_div_mod_converse(h2, 2, h3, b2);
    vstd::arithmetic::div_mod::lemma_fundamental_div_mod_converse(h3, 2, h4, b3);
    vstd::arithmetic::div_mod::lemma_fundamental_div_mod_converse(h4, 2, h5, b4);
    vstd::arithmetic::div_mod::lemma_fundamental_div_mod_converse(h5, 2, h6, b5);
    vstd::arithmetic::div_mod::lemma_fundamental_div_mod_converse(h6, 2, h7, b6);
    vstd::arithmetic::div_mod::lemma_fundamental_div_mod_converse(h7, 2, 0, b7);
}

/// On a crossed edge (corner bits differ), the higher-density corner is above
/// the threshold, the lower one at or below it, the interpolation parameter
/// lies in `0..=SCALE`, and the crossing point lies within the cell cube.
pub proof fn lemma_edge_vertex_in_cell(m: FieldModel, x: int, y: int, z: int, e: int)
    requires
        0 <= e < 12,
        corner_bit(m, x, y, z, edge_corner_a(e)) != corner_bit(m, x, y, z, edge_corner_b(e)),
    ensures
        x * SCALE <= edge_vertex(m, x, y, z, e).x <= (x + 1) * SCALE,
        y * SCALE <= edge_vertex(m, x, y, z, e).y <= (y + 1) * SCALE,
        z * SCALE <= edge_vertex(m, x, y, z, e).z <= (z + 1) * SCALE,
{
    let a = edge_corner_a(e);
    let b = edge_corner_b(e);
    let da = corner_density(m, x, y, z, a);
    let db = corner_density(m, x, y, z, b);
    let thr = m.threshold;
    if da > db {
        lemma_interp_param_range(da, db, thr);
        lemma_lerp_in_cell(x, y, z, a, b, interp_param(da, db, thr));
    } else if db > da {
        lemma_interp_param_range(db, da, thr);
        lemma_lerp_in_cell(x, y, z, b, a, interp_param(db, da, thr));
    } else {
        assert(false);
    }
}

/// For `d_lo < d_hi` with the threshold between them (`d_lo <= thr < d_hi`),
/// the interpolation parameter lies in `0..=SCALE`.
pub proof fn lemma_interp_param_range(d_hi: int, d_lo: int, threshold: int)
    requires
        d_lo < d_hi,
        d_lo <= threshold < d_hi,
    ensures
        0 <= interp_param(d_hi, d_lo, threshold) <= SCALE,
{
    let num = SCALE * (d_hi - threshold);
    let den = d_hi - d_lo;
    assert(0 < num && num <= SCALE * den) by (nonlinear_arith)
        requires
            SCALE == 256,
            num == SCALE * (d_hi - threshold),
            den == d_hi - d_lo,
            d_lo <= threshold < d_hi,
    ;
    vstd::arithmetic::div_mod::lemma_div_pos_is_pos(num, den);
    vstd::arithmetic::div_mod::lemma_div_is_ordered(num, SCALE * den, den);
    vstd::arithmetic::div_mod::lemma_div_multiples_vanish_fancy(SCALE as int, 0, den);
    assert(den * SCALE + 0 == SCALE * den) by (nonlinear_arith);
}

/// A point interpolated between two corners of a cell, with parameter in
/// `0..=SCALE`, lies within the cell cube.
pub proof fn lemma_lerp_in_cell(x: int, y: int, z: int, hi: int, lo: int, t: int)
    requires
        0 <= t <= SCALE,
    ensures
        x * SCALE <= lerp_toward(x, y, z, hi, lo, t).x <= (x + 1) * SCALE,
        y * SCALE <= lerp_toward(x, y, z, hi, lo, t).y <= (y + 1) * SCALE,
        z * SCALE <= lerp_toward(x, y, z, hi, lo, t).z <= (z + 1) * SCALE,
{
    let v = lerp_toward(x, y, z, hi, lo, t);
    assert(x * SCALE <= v.x <= (x + 1) * SCALE && y * SCALE <= v.y <= (y + 1) * SCALE && z * SCALE
        <= v.z <= (z + 1) * SCALE) by (nonlinear_arith)
        requires
            0 <= t <= SCALE,
            v == lerp_toward(x, y, z, hi, lo, t),
            0 <= corner_dx(hi) <= 1,
            0 <= corner_dx(lo) <= 1,
            0 <= corner_dy(hi) <= 1,
            0 <= corner_dy(lo) <= 1,
            0 <= corner_dz(hi) <= 1,
            0 <= corner_dz(lo) <= 1,
            v.x == (x + corner_dx(hi)) * SCALE + (corner_dx(lo) - corner_dx(hi)) * t,
            v.y == (y + corner_dy(hi)) * SCALE + (corner_dy(lo) - corner_dy(hi)) * t,
            v.z == (z + corner_dz(hi)) * SCALE + (corner_dz(lo) - corner_dz(hi)) * t,
    ;
}

/// The (0 or 1) corner offsets of corner `i`, as executable fixed-point-free
/// integers.
fn corner_offsets(i: usize) -> (o: Point3)
    requires
        i < 8,
    ensures
        o.x as int == corner_dx(i as int),
        o.y as int == corner_dy(i as int),
        o.z as int == corner_dz(i as int),
{
    if i == 0 {
        Point3 { x: 0, y: 0, z: 1 }
    } else if i == 1 {
        Point3 { x: 1, y: 0, z: 1 }
    } else if i == 2 {
        Point3 { x: 1, y: 0, z: 0 }
    } else if i == 3 {
        Point3 { x: 0, y: 0, z: 0 }
    } else if i == 4 {
        Point3 { x: 0, y: 1, z: 1 }
    } else if i == 5 {
        Point3 { x: 1, y: 1, z: 1 }
    } else if i == 6 {
        Point3 { x: 1, y: 1, z: 0 }
    } else {
        Point3 { x: 0, y: 1, z: 0 }
    }
}

/// The interpolation parameter, as executable code.
fn interp_param_exec(d_hi: i64, d_lo: i64, threshold: i64) -> (t: i64)
    requires
        -DENSITY_BOUND <= d_hi <= DENSITY_BOUND,
        -DENSITY_BOUND <= d_lo <= DENSITY_BOUND,
        -DENSITY_BOUND <= threshold <= DENSITY_BOUND,
        d_lo < d_hi,
    ensures
        t as int == interp_param(d_hi as int, d_lo as int, threshold as int),
        d_lo <= threshold < d_hi ==> 0 <= t <= SCALE,
{
    if d_hi <= threshold {
        0
    } else {
        proof {
            vstd::arithmetic::div_mod::lemma_div_pos_is_pos(
                SCALE * (d_hi - threshold),
                d_hi - d_lo,
            );
            if d_lo <= threshold {
                lemma_interp_param_range(d_hi as int, d_lo as int, threshold as int);
            }
        }
        (SCALE * (d_hi - threshold)) / (d_hi - d_lo)
    }
}

/// The crossing point at offset `t` from corner `hi` toward corner `lo` of
/// the cell at `(x, y, z)`, as executable code.
fn lerp_point(x: usize, y: usize, z: usize, hi: usize, lo: usize, t: i64) -> (p: Point3)
    requires
        hi < 8,
        lo < 8,
        x + 1 <= MAX_DIM,
        y + 1 <= MAX_DIM,
        z + 1 <= MAX_DIM,
        0 <= t <= SCALE,
    ensures
        p@ == lerp_toward(x as int, y as int, z as int, hi as int, lo as int, t as int),
{
    let oa = corner_offsets(hi);
    let ob = corner_offsets(lo);
    proof {
        assert(-SCALE <= (ob.x - oa.x) * t <= SCALE && -SCALE <= (ob.y - oa.y) * t <= SCALE
            && -SCALE <= (ob.z - oa.z) * t <= SCALE) by (nonlinear_arith)
            requires
                0 <= t <= SCALE,
                -1 <= ob.x - oa.x <= 1,
                -1 <= ob.y - oa.y <= 1,
                -1 <= ob.z - oa.z <= 1,
        ;
    }
    Point3 {
        x: (x as i64 + oa.x) * SCALE + (ob.x - oa.x) * t,
        y: (y as i64 + oa.y) * SCALE + (ob.y - oa.y) * t,
        z: (z as i64 + oa.z) * SCALE + (ob.z - oa.z) * t,
    }
}


/// The spec view of a sequence of fixed-point points.
pub open spec fn points_view(s: Seq<Point3>) -> Seq<Vert> {
    s.map_values(|p: Point3| p@)
}

/// The spec view of a sequence of scalars.
pub open spec fn ints_view(s: Seq<i64>) -> Seq<int> {
    s.map_values(|v: i64| v as int)
}

/// Shape invariant of mesh buffers: the three buffers run in step and hold a
/// whole number of triangles.
pub open spec fn buffers_wf(b: MeshBuffers) -> bool {
    &&& b.positions.len() == b.normals.len()
    &&& b.positions.len() == b.scalars.len()
    &&& b.positions.len() % 3 == 0
}

/// A cell contributes well-shaped buffers of at most 5 triangles.
pub proof fn lemma_cell_buffers_shape(m: FieldModel, t: TriangulationTable, x: int, y: int, z: int)
    requires
        t.wf(),
    ensures
        buffers_wf(cell_buffers(m, t, x, y, z)),
        cell_buffers(m, t, x, y, z).positions.len() <= 15,
{
    lemma_cube_config_bits(m, x, y, z);
    crate::table::lemma_wf_rows_ok(t);
    let c = cube_config(m, x, y, z);
    assert(row_ok(c, t.row(c)));
    assert(cell_buffers(m, t, x, y, z).positions.len() == t.row(c).len());
    assert(cell_buffers(m, t, x, y, z).normals.len() == t.row(c).len());
    assert(cell_buffers(m, t, x, y, z).scalars.len() == t.row(c).len());
}

/// A row of cells contributes well-shaped, size-bounded buffers.
pub proof fn lemma_row_buffers_shape(m: FieldModel, t: TriangulationTable, y: int, x: int, zc: nat)
    requires
        t.wf(),
    ensures
        buffers_wf(row_buffers(m, t, y, x, zc)),
        row_buffers(m, t, y, x, zc).positions.len() <= 15 * zc,
    decreases zc,
{
    if zc > 0 {
        lemma_row_buffers_shape(m, t, y, x, (zc - 1) as nat);
        lemma_cell_buffers_shape(m, t, x, y, zc - 1);
    }
}

/// A layer of cell rows contributes well-shaped, size-bounded buffers.
pub proof fn lemma_layer_buffers_shape(m: FieldModel, t: TriangulationTable, y: int, xc: nat)
    requires
        t.wf(),
        m.length >= 1,
    ensures
        buffers_wf(layer_buffers(m, t, y, xc)),
        layer_buffers(m, t, y, xc).positions.len() <= 15 * xc * (m.length - 1),
    decreases xc,
{
    if xc > 0 {
        lemma_layer_buffers_shape(m, t, y, (xc - 1) as nat);
        lemma_row_buffers_shape(m, t, y, xc - 1, (m.length - 1) as nat);
        assert(15 * ((xc - 1) as int) * (m.length - 1) + 15 * (m.length - 1) == 15 * (xc as int)
            * (m.length - 1)) by (nonlinear_arith);
    } else {
        assert(15 * (xc as int) * (m.length - 1) == 0) by (nonlinear_arith)
            requires
                xc == 0,
        ;
    }
}

/// A stack of layers contributes well-shaped, size-bounded buffers.
pub proof fn lemma_stack_buffers_shape(m: FieldModel, t: TriangulationTable, yc: nat)
    requires
        t.wf(),
        m.width >= 1,
        m.length >= 1,
    ensures
        buffers_wf(stack_buffers(m, t, yc)),
        stack_buffers(m, t, yc).positions.len() <= 15 * yc * ((m.width - 1) * (m.length - 1)),
    decreases yc,
{
    if yc > 0 {
        lemma_stack_buffers_shape(m, t, (yc - 1) as nat);
        lemma_layer_buffers_shape(m, t, yc - 1, (m.width - 1) as nat);
        assert(15 * ((yc - 1) as int) * ((m.width - 1) * (m.length - 1)) + 15 * (m.width - 1)
            * (m.length - 1) == 15 * (yc as int) * ((m.width - 1) * (m.length - 1)))
            by (nonlinear_arith);
    } else {
        assert(15 * (yc as int) * ((m.width - 1) * (m.length - 1)) == 0) by (nonlinear_arith)
            requires
                yc == 0,
        ;
    }
}

/// During generation at cell `(x, y, z)`, the three already-emitted spec
/// prefixes are well shaped and together bounded well below the index limit.
pub proof fn lemma_prefix_buffers_bound(m: FieldModel, t: TriangulationTable, y: nat, x: nat, z: nat)
    requires
        m.wf(),
        t.wf(),
        y <= m.height - 1,
        x <= m.width - 1,
        z <= m.length - 1,
    ensures
        buffers_wf(stack_buffers(m, t, y)),
        buffers_wf(layer_buffers(m, t, y as int, x)),
        buffers_wf(row_buffers(m, t, y as int, x as int, z)),
        stack_buffers(m, t, y).positions.len() + layer_buffers(m, t, y as int, x).positions.len()
            + row_buffers(m, t, y as int, x as int, z).positions.len() <= 45 * (MAX_VOLUME as int),
{
    lemma_stack_buffers_shape(m, t, y);
    lemma_layer_buffers_shape(m, t, y as int, x);
    lemma_row_buffers_shape(m, t, y as int, x as int, z);
    assert(15 * (z as int) <= 15 * (MAX_VOLUME as int) && 15 * (x as int) * (m.length - 1) <= 15
        * (MAX_VOLUME as int) && 15 * (y as int) * ((m.width - 1) * (m.length - 1)) <= 15 * (
    MAX_VOLUME as int)) by (nonlinear_arith)
        requires
            1 <= m.width,
            1 <= m.height,
            1 <= m.length,
            m.width * m.height * m.length <= MAX_VOLUME as int,
            y <= m.height - 1,
            x <= m.width - 1,
            z <= m.length - 1,
    ;
}

/// The density of any corner of an in-range cell is a stored sample, hence
/// bounded.
pub proof fn lemma_corner_density_bounded(m: FieldModel, x: int, y: int, z: int, i: int)
    requires
        m.wf(),
        0 <= i < 8,
        0 <= x && x + 1 < m.width,
        0 <= y && y + 1 < m.height,
        0 <= z && z + 1 < m.length,
    ensures
        -DENSITY_BOUND <= corner_density(m, x, y, z, i) <= DENSITY_BOUND,
{
    crate::field::lemma_flat_index_bounds(
        m,
        x + corner_dx(i),
        y + corner_dy(i),
        z + corner_dz(i),
    );
}

/// Mapping the view over a sequence commutes with push.
pub proof fn lemma_points_view_push(s: Seq<Point3>, p: Point3)
    ensures
        points_view(s.push(p)) == points_view(s).push(p@),
{
    assert(points_view(s.push(p)) =~= points_view(s).push(p@));
}

/// Mapping the scalar view over a sequence commutes with push.
pub proof fn lemma_ints_view_push(s: Seq<i64>, v: i64)
    ensures
        ints_view(s.push(v)) == ints_view(s).push(v as int),
{
    assert(ints_view(s.push(v)) =~= ints_view(s).push(v as int));
}

/// The generated mesh: flat buffers of vertex positions, per-vertex flat
/// normals, per-vertex scalar attributes, and a triangle index list.
pub struct GeneratedMesh {
    pub positions: Vec<Point3>,
    pub normals: Vec<Point3>,
    pub scalars: Vec<i64>,
    pub indices: Vec<u32>,
}

impl GeneratedMesh {
    /// The positions as a mathematical sequence.
    pub open spec fn positions_view(self) -> Seq<Vert> {
        points_view(self.positions@)
    }

    /// The normals as a mathematical sequence.
    pub open spec fn normals_view(self) -> Seq<Vert> {
        points_view(self.normals@)
    }

    /// The scalars as a mathematical sequence.
    pub open spec fn scalars_view(self) -> Seq<int> {
        ints_view(self.scalars@)
    }

    /// Shape invariant: the four buffers have equal lengths, a whole number
    /// of triangles, and the index list is `0, 1, 2, ...` (no vertex
    /// sharing), so every index refers to a valid vertex.
    pub open spec fn wf(self) -> bool {
        &&& self.positions@.len() == self.normals@.len()
        &&& self.positions@.len() == self.scalars@.len()
        &&& self.positions@.len() == self.indices@.len()
        &&& self.positions@.len() % 3 == 0
        &&& (forall|i: int| 0 <= i < self.indices@.len() ==> #[trigger] self.indices@[i] as int == i)
    }
}


/// Emits everything the cell at `(x, y, z)` contributes onto the end of the
/// four mesh buffers: its crossing points in row order, one flat normal per
/// triangle repeated for its three vertices, the higher-corner density as
/// each vertex's scalar, and consecutive indices.
#[verifier::rlimit(100)]
fn emit_cell(
    field: &VoxelField,
    table: &TriangulationTable,
    x: usize,
    y: usize,
    z: usize,
    positions: &mut Vec<Point3>,
    normals: &mut Vec<Point3>,
    scalars: &mut Vec<i64>,
    indices: &mut Vec<u32>,
)
    requires
        field@.wf(),
        table.wf(),
        x + 1 < field@.width,
        y + 1 < field@.height,
        z + 1 < field@.length,
        old(positions)@.len() == old(normals)@.len(),
        old(positions)@.len() == old(scalars)@.len(),
        old(positions)@.len() == old(indices)@.len(),
        old(positions)@.len() % 3 == 0,
        old(positions)@.len() <= 45 * MAX_VOLUME,
        forall|i: int| 0 <= i < old(indices)@.len() ==> #[trigger] old(indices)@[i] as int == i,
    ensures
        points_view(final(positions)@) == points_view(old(positions)@) + cell_buffers(
            field@,
            *table,
            x as int,
            y as int,
            z as int,
        ).positions,
        points_view(final(normals)@) == points_view(old(normals)@) + cell_buffers(
            field@,
            *table,
            x as int,
            y as int,
            z as int,
        ).normals,
        ints_view(final(scalars)@) == ints_view(old(scalars)@) + cell_buffers(
            field@,
            *table,
            x as int,
            y as int,
            z as int,
        ).scalars,
        final(positions)@.len() == final(normals)@.len(),
        final(positions)@.len() == final(scalars)@.len(),
        final(positions)@.len() == final(indices)@.len(),
        final(positions)@.len() % 3 == 0,
        final(positions)@.len() <= old(positions)@.len() + 15,
        forall|i: int| 0 <= i < final(indices)@.len() ==> #[trigger] final(indices)@[i] as int == i,
{
    let ghost m = field@;
    let ghost gx = x as int;
    let ghost gy = y as int;
    let ghost gz = z as int;
    let ghost pos0 = positions@;
    let ghost nrm0 = normals@;
    let ghost scl0 = scalars@;

    let threshold = field.threshold();

    let d0 = field.get(x, y, z + 1);
    let d1 = field.get(x + 1, y, z + 1);
    let d2 = field.get(x + 1, y, z);
    let d3 = field.get(x, y, z);
    let d4 = field.get(x, y + 1, z + 1);
    let d5 = field.get(x + 1, y + 1, z + 1);
    let d6 = field.get(x + 1, y + 1, z);
    let d7 = field.get(x, y + 1, z);
    let point_data: [i64; 8] = [d0, d1, d2, d3, d4, d5, d6, d7];

    proof {
        assert(point_data@[0] as int == corner_density(m, gx, gy, gz, 0));
        assert(point_data@[1] as int == corner_density(m, gx, gy, gz, 1));
        assert(point_data@[2] as int == corner_density(m, gx, gy, gz, 2));
        assert(point_data@[3] as int == corner_density(m, gx, gy, gz, 3));
        assert(point_data@[4] as int == corner_density(m, gx, gy, gz, 4));
        assert(point_data@[5] as int == corner_density(m, gx, gy, gz, 5));
        assert(point_data@[6] as int == corner_density(m, gx, gy, gz, 6));
        assert(point_data@[7] as int == corner_density(m, gx, gy, gz, 7));
    }

    let mut config: usize = 0;
    if d0 > threshold {
        config += 1;
    }
    if d1 > threshold {
        config += 2;
    }
    if d2 > threshold {
        config += 4;
    }
    if d3 > threshold {
        config += 8;
    }
    if d4 > threshold {
        config += 16;
    }
    if d5 > threshold {
        config += 32;
    }
    if d6 > threshold {
        config += 64;
    }
    if d7 > threshold {
        config += 128;
    }

    proof {
        lemma_cube_config_bits(m, gx, gy, gz);
        assert(config as int == cube_config(m, gx, gy, gz));
        crate::table::lemma_wf_rows_ok(*table);
    }
    let ghost cfg = config as int;
    let row = table.row_at(config);
    let ghost crow = table.row(cfg);

    let mut tri_verts: Vec<Point3> = Vec::new();
    let row_len = row.len();
    let mut k: usize = 0;
    while k < row_len
        invariant
            m == field@,
            m.wf(),
            table.wf(),
            gx == x as int,
            gy == y as int,
            gz == z as int,
            gx + 1 < m.width,
            gy + 1 < m.height,
            gz + 1 < m.length,
            threshold as int == m.threshold,
            cfg == cube_config(m, gx, gy, gz),
            0 <= cfg < 256,
            row_ok(cfg, crow),
            crow == table.row(cfg),
            row@ == crow,
            row_len == crow.len(),
            forall|i: int| 0 <= i < 8 ==> config_bit(cfg, i) == corner_bit(m, gx, gy, gz, i),
            point_data@.len() == 8,
            point_data@[0] as int == corner_density(m, gx, gy, gz, 0),
            point_data@[1] as int == corner_density(m, gx, gy, gz, 1),
            point_data@[2] as int == corner_density(m, gx, gy, gz, 2),
            point_data@[3] as int == corner_density(m, gx, gy, gz, 3),
            point_data@[4] as int == corner_density(m, gx, gy, gz, 4),
            point_data@[5] as int == corner_density(m, gx, gy, gz, 5),
            point_data@[6] as int == corner_density(m, gx, gy, gz, 6),
            point_data@[7] as int == corner_density(m, gx, gy, gz, 7),
            k <= crow.len(),
            tri_verts@.len() == k,
            forall|j: int|
                0 <= j < k ==> points_view(tri_verts@)[j] == edge_vertex(
                    m,
                    gx,
                    gy,
                    gz,
                    crow[j] as int,
                ),
            positions@ == pos0,
            normals@ == nrm0,
            scalars@.len() == scl0.len() + k,
            scl0.len() <= 45 * MAX_VOLUME,
            ints_view(scalars@) == ints_view(scl0) + cell_scalars(m, crow, gx, gy, gz).take(
                k as int,
            ),
            indices@.len() == scalars@.len(),
            forall|i: int| 0 <= i < indices@.len() ==> #[trigger] indices@[i] as int == i,
        decreases crow.len() - k,
    {
        let e = row[k];
        proof {
            assert(crow[k as int] < 12);
            assert(config_bit(cfg, edge_corner_a(crow[k as int] as int)) != config_bit(
                cfg,
                edge_corner_b(crow[k as int] as int),
            ));
        }
        let eu = e as usize;
        let ia = corner_index_a_from_edge(eu);
        let ib = corner_index_b_from_edge(eu);
        let da = point_data[ia];
        let db = point_data[ib];
        proof {
            let ii = ia as int;
            let jj = ib as int;
            assert(da as int == corner_density(m, gx, gy, gz, ii)) by {
                if ii == 0 {
                } else if ii == 1 {
                } else if ii == 2 {
                } else if ii == 3 {
                } else if ii == 4 {
                } else if ii == 5 {
                } else if ii == 6 {
                } else {
                }
            }
            assert(db as int == corner_density(m, gx, gy, gz, jj)) by {
                if jj == 0 {
                } else if jj == 1 {
                } else if jj == 2 {
                } else if jj == 3 {
                } else if jj == 4 {
                } else if jj == 5 {
                } else if jj == 6 {
                } else {
                }
            }
            lemma_corner_density_bounded(m, gx, gy, gz, ii);
            lemma_corner_density_bounded(m, gx, gy, gz, jj);
            assert(corner_bit(m, gx, gy, gz, ii) != corner_bit(m, gx, gy, gz, jj));
        }
        let pos: Point3;
        let scal: i64;
        if da > db {
            proof {
                assert(da > threshold && db <= threshold);
            }
            let tpar = interp_param_exec(da, db, threshold);
            pos = lerp_point(x, y, z, ia, ib, tpar);
            scal = da;
        } else if db > da {
            proof {
                assert(db > threshold && da <= threshold);
            }
            let tpar = interp_param_exec(db, da, threshold);
            pos = lerp_point(x, y, z, ib, ia, tpar);
            scal = db;
        } else {
            proof {
                assert(false);
            }
            pos = Point3 { x: 0, y: 0, z: 0 };
            scal = da;
        }
        proof {
            assert(pos@ == edge_vertex(m, gx, gy, gz, crow[k as int] as int));
            assert(scal as int == edge_scalar(m, gx, gy, gz, crow[k as int] as int));
        }
        let ghost tv_before = tri_verts@;
        let ghost sc_before = scalars@;
        tri_verts.push(pos);
        scalars.push(scal);
        let idx = indices.len();
        indices.push(idx as u32);
        k += 1;
        proof {
            lemma_points_view_push(tv_before, pos);
            lemma_ints_view_push(sc_before, scal);
            assert(cell_scalars(m, crow, gx, gy, gz)[k - 1] == edge_scalar(
                m,
                gx,
                gy,
                gz,
                crow[k - 1] as int,
            ));
            assert(ints_view(scalars@) =~= ints_view(scl0) + cell_scalars(m, crow, gx, gy, gz).take(
                k as int,
            ));
        }
    }

    let ghost vs = cell_verts(m, crow, gx, gy, gz);
    let ghost cns = cell_normals(m, crow, gx, gy, gz);
    proof {
        assert(points_view(tri_verts@) =~= vs);
        assert(ints_view(scalars@) =~= ints_view(scl0) + cell_scalars(m, crow, gx, gy, gz));
        assert forall|j: int| 0 <= j < vs.len() implies gx * SCALE <= (#[trigger] vs[j]).x <= (gx
            + 1) * SCALE && gy * SCALE <= vs[j].y <= (gy + 1) * SCALE && gz * SCALE <= vs[j].z <= (
        gz + 1) * SCALE by {
            assert(config_bit(cfg, edge_corner_a(crow[j] as int)) != config_bit(
                cfg,
                edge_corner_b(crow[j] as int),
            ));
            lemma_edge_vertex_in_cell(m, gx, gy, gz, crow[j] as int);
        }
    }

    let n = tri_verts.len();
    let mut i: usize = 0;
    while i < n
        invariant
            m == field@,
            m.wf(),
            gx == x as int,
            gy == y as int,
            gz == z as int,
            gx + 1 < m.width,
            gy + 1 < m.height,
            gz + 1 < m.length,
            table.wf(),
            cfg == cube_config(m, gx, gy, gz),
            crow == table.row(cfg),
            vs == cell_verts(m, crow, gx, gy, gz),
            cns == cell_normals(m, crow, gx, gy, gz),
            n == tri_verts@.len(),
            n == vs.len(),
            cns.len() == vs.len(),
            n % 3 == 0,
            n <= 15,
            points_view(tri_verts@) == vs,
            forall|j: int|
                0 <= j < vs.len() ==> gx * SCALE <= (#[trigger] vs[j]).x <= (gx + 1) * SCALE && gy
                    * SCALE <= vs[j].y <= (gy + 1) * SCALE && gz * SCALE <= vs[j].z <= (gz + 1)
                    * SCALE,
            i <= n,
            i % 3 == 0,
            positions@.len() == pos0.len() + i,
            normals@.len() == nrm0.len() + i,
            points_view(positions@) == points_view(pos0) + vs.take(i as int),
            points_view(normals@) == points_view(nrm0) + cns.take(i as int),
            pos0.len() == nrm0.len(),
            pos0.len() == scl0.len(),
            pos0.len() % 3 == 0,
            ints_view(scalars@) == ints_view(scl0) + cell_scalars(m, crow, gx, gy, gz),
            scalars@.len() == scl0.len() + n,
            indices@.len() == scalars@.len(),
            forall|j: int| 0 <= j < indices@.len() ==> #[trigger] indices@[j] as int == j,
        decreases n - i,
    {
        proof {
            assert(i + 3 <= n);
        }
        let v0 = tri_verts[i];
        let v1 = tri_verts[i + 1];
        let v2 = tri_verts[i + 2];
        proof {
            assert(v0@ == vs[i as int]);
            assert(v1@ == vs[i as int + 1]);
            assert(v2@ == vs[i as int + 2]);
        }
        let ax = v1.x - v0.x;
        let ay = v1.y - v0.y;
        let az = v1.z - v0.z;
        let bx = v2.x - v0.x;
        let by2 = v2.y - v0.y;
        let bz = v2.z - v0.z;
        proof {
            assert(-SCALE <= ax <= SCALE && -SCALE <= ay <= SCALE && -SCALE <= az <= SCALE && -SCALE
                <= bx <= SCALE && -SCALE <= by2 <= SCALE && -SCALE <= bz <= SCALE);
            assert(-65536 <= ay * bz <= 65536 && -65536 <= az * by2 <= 65536 && -65536 <= az * bx
                <= 65536 && -65536 <= ax * bz <= 65536 && -65536 <= ax * by2 <= 65536 && -65536 <= ay
                * bx <= 65536) by (nonlinear_arith)
                requires
                    -256 <= ax <= 256,
                    -256 <= ay <= 256,
                    -256 <= az <= 256,
                    -256 <= bx <= 256,
                    -256 <= by2 <= 256,
                    -256 <= bz <= 256,
            ;
        }
        let nx = ay * bz - az * by2;
        let ny = az * bx - ax * bz;
        let nz = ax * by2 - ay * bx;
        let nrm = Point3 { x: nx, y: ny, z: nz };
        proof {
            vstd::arithmetic::div_mod::lemma_fundamental_div_mod(i as int, 3);
            vstd::arithmetic::div_mod::lemma_fundamental_div_mod_converse(
                i as int + 1,
                3,
                (i as int) / 3,
                1,
            );
            vstd::arithmetic::div_mod::lemma_fundamental_div_mod_converse(
                i as int + 2,
                3,
                (i as int) / 3,
                2,
            );
            assert(nrm@ == tri_normal(vs[i as int], vs[i as int + 1], vs[i as int + 2]));
            assert(cns[i as int] == tri_normal(vs[i as int], vs[i as int + 1], vs[i as int + 2]));
            assert(cns[i as int + 1] == tri_normal(vs[i as int], vs[i as int + 1], vs[i as int + 2]));
            assert(cns[i as int + 2] == tri_normal(vs[i as int], vs[i as int + 1], vs[i as int + 2]));
        }
        let ghost p_before = positions@;
        let ghost n_before = normals@;
        positions.push(v0);
        positions.push(v1);
        positions.push(v2);
        normals.push(nrm);
        normals.push(nrm);
        normals.push(nrm);
        i += 3;
        proof {
            lemma_points_view_push(p_before, v0);
            lemma_points_view_push(p_before.push(v0), v1);
            lemma_points_view_push(p_before.push(v0).push(v1), v2);
            lemma_points_view_push(n_before, nrm);
            lemma_points_view_push(n_before.push(nrm), nrm);
            lemma_points_view_push(n_before.push(nrm).push(nrm), nrm);
            assert(points_view(positions@) =~= points_view(pos0) + vs.take(i as int));
            assert(points_view(normals@) =~= points_view(nrm0) + cns.take(i as int));
        }
    }

    proof {
        assert(vs.take(n as int) =~= vs);
        assert(cns.take(n as int) =~= cns);
        assert(cell_row(m, *table, gx, gy, gz) == crow);
        assert(points_view(positions@) == points_view(pos0) + cell_buffers(
            m,
            *table,
            gx,
            gy,
            gz,
        ).positions);
        assert(points_view(normals@) == points_view(nrm0) + cell_buffers(
            m,
            *table,
            gx,
            gy,
            gz,
        ).normals);
        assert(ints_view(scalars@) == ints_view(scl0) + cell_buffers(m, *table, gx, gy, gz).scalars);
    }
}


/// The buffers already emitted when generation stands at cell `(x, y, z)`:
/// all complete layers below `y`, the complete rows of layer `y` before `x`,
/// and the first `z` cells of row `(y, x)`.
spec fn prefix_buffers(m: FieldModel, t: TriangulationTable, y: nat, x: nat, z: nat) -> MeshBuffers {
    buffers_add(
        buffers_add(stack_buffers(m, t, y), layer_buffers(m, t, y as int, x)),
        row_buffers(m, t, y as int, x as int, z),
    )
}

/// Generates the whole mesh of a field in one pass: every unit cell is
/// visited with `y` outermost, then `x`, then `z`, and contributes its
/// isosurface triangles in table order.
pub fn generate_mesh(field: &VoxelField, table: &TriangulationTable) -> (mesh: GeneratedMesh)
    requires
        field@.wf(),
        table.wf(),
    ensures
        mesh.wf(),
        mesh.positions_view() == generated_buffers(field@, *table).positions,
        mesh.normals_view() == generated_buffers(field@, *table).normals,
        mesh.scalars_view() == generated_buffers(field@, *table).scalars,
{
    let ghost m = field@;
    let width = field.width();
    let height = field.height();
    let length = field.length();
    let mut positions: Vec<Point3> = Vec::new();
    let mut normals: Vec<Point3> = Vec::new();
    let mut scalars: Vec<i64> = Vec::new();
    let mut indices: Vec<u32> = Vec::new();
    let mut y: usize = 0;
    proof {
        assert(points_view(positions@) =~= stack_buffers(m, *table, 0).positions);
        assert(points_view(normals@) =~= stack_buffers(m, *table, 0).normals);
        assert(ints_view(scalars@) =~= stack_buffers(m, *table, 0).scalars);
    }
    while y < height - 1
        invariant
            m == field@,
            m.wf(),
            table.wf(),
            width == m.width,
            height == m.height,
            length == m.length,
            y <= height - 1,
            points_view(positions@) == stack_buffers(m, *table, y as nat).positions,
            points_view(normals@) == stack_buffers(m, *table, y as nat).normals,
            ints_view(scalars@) == stack_buffers(m, *table, y as nat).scalars,
            positions@.len() == normals@.len(),
            positions@.len() == scalars@.len(),
            positions@.len() == indices@.len(),
            positions@.len() % 3 == 0,
            forall|i: int| 0 <= i < indices@.len() ==> #[trigger] indices@[i] as int == i,
        decreases height - 1 - y,
    {
        let mut x: usize = 0;
        proof {
            assert(layer_buffers(m, *table, y as int, 0) == empty_buffers());
            assert(buffers_add(stack_buffers(m, *table, y as nat), empty_buffers()).positions
                =~= stack_buffers(m, *table, y as nat).positions);
            assert(buffers_add(stack_buffers(m, *table, y as nat), empty_buffers()).normals
                =~= stack_buffers(m, *table, y as nat).normals);
            assert(buffers_add(stack_buffers(m, *table, y as nat), empty_buffers()).scalars
                =~= stack_buffers(m, *table, y as nat).scalars);
        }
        while x < width - 1
            invariant
                m == field@,
                m.wf(),
                table.wf(),
                width == m.width,
                height == m.height,
                length == m.length,
                y < height - 1,
                x <= width - 1,
                points_view(positions@) == buffers_add(
                    stack_buffers(m, *table, y as nat),
                    layer_buffers(m, *table, y as int, x as nat),
                ).positions,
                points_view(normals@) == buffers_add(
                    stack_buffers(m, *table, y as nat),
                    layer_buffers(m, *table, y as int, x as nat),
                ).normals,
                ints_view(scalars@) == buffers_add(
                    stack_buffers(m, *table, y as nat),
                    layer_buffers(m, *table, y as int, x as nat),
                ).scalars,
                positions@.len() == normals@.len(),
                positions@.len() == scalars@.len(),
                positions@.len() == indices@.len(),
                positions@.len() % 3 == 0,
                forall|i: int| 0 <= i < indices@.len() ==> #[trigger] indices@[i] as int == i,
            decreases width - 1 - x,
        {
            let mut z: usize = 0;
            proof {
                assert(row_buffers(m, *table, y as int, x as int, 0) == empty_buffers());
                assert(prefix_buffers(m, *table, y as nat, x as nat, 0).positions =~= buffers_add(
                    stack_buffers(m, *table, y as nat),
                    layer_buffers(m, *table, y as int, x as nat),
                ).positions);
                assert(prefix_buffers(m, *table, y as nat, x as nat, 0).normals =~= buffers_add(
                    stack_buffers(m, *table, y as nat),
                    layer_buffers(m, *table, y as int, x as nat),
                ).normals);
                assert(prefix_buffers(m, *table, y as nat, x as nat, 0).scalars =~= buffers_add(
                    stack_buffers(m, *table, y as nat),
                    layer_buffers(m, *table, y as int, x as nat),
                ).scalars);
            }
            while z < length - 1
                invariant
                    m == field@,
                    m.wf(),
                    table.wf(),
                    width == m.width,
                    height == m.height,
                    length == m.length,
                    y < height - 1,
                    x < width - 1,
                    z <= length - 1,
                    points_view(positions@) == prefix_buffers(
                        m,
                        *table,
                        y as nat,
                        x as nat,
                        z as nat,
                    ).positions,
                    points_view(normals@) == prefix_buffers(
                        m,
                        *table,
                        y as nat,
                        x as nat,
                        z as nat,
                    ).normals,
                    ints_view(scalars@) == prefix_buffers(
                        m,
                        *table,
                        y as nat,
                        x as nat,
                        z as nat,
                    ).scalars,
                    positions@.len() == normals@.len(),
                    positions@.len() == scalars@.len(),
                    positions@.len() == indices@.len(),
                    positions@.len() % 3 == 0,
                    forall|i: int| 0 <= i < indices@.len() ==> #[trigger] indices@[i] as int == i,
                decreases length - 1 - z,
            {
                proof {
                    lemma_prefix_buffers_bound(m, *table, y as nat, x as nat, z as nat);
                    assert(points_view(positions@).len() == positions@.len());
                    assert(positions@.len() <= 45 * MAX_VOLUME);
                }
                emit_cell(
                    field,
                    table,
                    x,
                    y,
                    z,
                    &mut positions,
                    &mut normals,
                    &mut scalars,
                    &mut indices,
                );
                z += 1;
                proof {
                    assert(points_view(positions@) =~= prefix_buffers(
                        m,
                        *table,
                        y as nat,
                        x as nat,
                        z as nat,
                    ).positions);
                    assert(points_view(normals@) =~= prefix_buffers(
                        m,
                        *table,
                        y as nat,
                        x as nat,
                        z as nat,
                    ).normals);
                    assert(ints_view(scalars@) =~= prefix_buffers(
                        m,
                        *table,
                        y as nat,
                        x as nat,
                        z as nat,
                    ).scalars);
                }
            }
            x += 1;
            proof {
                assert(points_view(positions@) =~= buffers_add(
                    stack_buffers(m, *table, y as nat),
                    layer_buffers(m, *table, y as int, x as nat),
                ).positions);
                assert(points_view(normals@) =~= buffers_add(
                    stack_buffers(m, *table, y as nat),
                    layer_buffers(m, *table, y as int, x as nat),
                ).normals);
                assert(ints_view(scalars@) =~= buffers_add(
                    stack_buffers(m, *table, y as nat),
                    layer_buffers(m, *table, y as int, x as nat),
                ).scalars);
            }
        }
        y += 1;
        proof {
            assert(points_view(positions@) =~= stack_buffers(m, *table, y as nat).positions);
            assert(points_view(normals@) =~= stack_buffers(m, *table, y as nat).normals);
            assert(ints_view(scalars@) =~= stack_buffers(m, *table, y as nat).scalars);
        }
    }
    GeneratedMesh { positions, normals, scalars, indices }
}


/// Groups a mesh's index list into triangle triples, as a triangle-mesh
/// collider builder consumes them.
pub fn triangle_list(mesh: &GeneratedMesh) -> (tris: Vec<[u32; 3]>)
    requires
        mesh.wf(),
    ensures
        tris@.len() == mesh.indices@.len() / 3,
        forall|i: int|
            0 <= i < tris@.len() ==> (#[trigger] tris@[i])@ == seq![
                mesh.indices@[3 * i],
                mesh.indices@[3 * i + 1],
                mesh.indices@[3 * i + 2],
            ],
{
    let mut tris: Vec<[u32; 3]> = Vec::new();
    let n = mesh.indices.len();
    let mut i: usize = 0;
    while i < n
        invariant
            n == mesh.indices@.len(),
            n % 3 == 0,
            i <= n,
            i % 3 == 0,
            tris@.len() == i / 3,
            forall|j: int|
                0 <= j < tris@.len() ==> (#[trigger] tris@[j])@ == seq![
                    mesh.indices@[3 * j],
                    mesh.indices@[3 * j + 1],
                    mesh.indices@[3 * j + 2],
                ],
        decreases n - i,
    {
        proof {
            assert(i + 3 <= n);
        }
        let tri: [u32; 3] = [mesh.indices[i], mesh.indices[i + 1], mesh.indices[i + 2]];
        tris.push(tri);
        i += 3;
        proof {
            vstd::arithmetic::div_mod::lemma_fundamental_div_mod_converse(
                i as int,
                3,
                (i - 3) as int / 3 + 1,
                0,
            );
            assert(tri@ =~= seq![
                mesh.indices@[3 * ((i - 3) as int / 3)],
                mesh.indices@[3 * ((i - 3) as int / 3) + 1],
                mesh.indices@[3 * ((i - 3) as int / 3) + 2],
            ]);
        }
    }
    tris
}

/// A cell whose corners all lie at or below the threshold (configuration 0)
/// or all above it (configuration 255) contributes no triangles at all.
pub proof fn lemma_trivial_cells_empty(m: FieldModel, t: TriangulationTable, x: int, y: int, z: int)
    requires
        t.wf(),
        cube_config(m, x, y, z) == 0 || cube_config(m, x, y, z) == 255,
    ensures
        cell_buffers(m, t, x, y, z).positions.len() == 0,
        cell_buffers(m, t, x, y, z).normals.len() == 0,
        cell_buffers(m, t, x, y, z).scalars.len() == 0,
{
    crate::table::lemma_trivial_configurations_empty(t);
}

/// Mesh generation is a pure function of the field and the table: two meshes
/// generated from the same unmodified field have identical buffers.
pub proof fn lemma_generate_mesh_deterministic(
    m1: GeneratedMesh,
    m2: GeneratedMesh,
    f: VoxelField,
    t: TriangulationTable,
)
    requires
        m1.wf(),
        m2.wf(),
        m1.positions_view() == generated_buffers(f@, t).positions,
        m1.normals_view() == generated_buffers(f@, t).normals,
        m1.scalars_view() == generated_buffers(f@, t).scalars,
        m2.positions_view() == generated_buffers(f@, t).positions,
        m2.normals_view() == generated_buffers(f@, t).normals,
        m2.scalars_view() == generated_buffers(f@, t).scalars,
    ensures
        m1.positions_view() == m2.positions_view(),
        m1.normals_view() == m2.normals_view(),
        m1.scalars_view() == m2.scalars_view(),
        m1.indices@ == m2.indices@,
{
    assert(m1.positions@.len() == m1.positions_view().len());
    assert(m2.positions@.len() == m2.positions_view().len());
    assert(m1.indices@ =~= m2.indices@);
}

/// Continuity and monotonicity of the interpolated crossing: on an edge with
/// the density `a` of one corner fixed at or below the threshold, the
/// crossing offset from the other corner grows monotonically with that
/// corner's density `b`, stays within the edge, and collapses to 0 (the
/// corner itself) as `b` comes close enough to the threshold -- there is no
/// jump as `b` crosses it, where the edge stops being listed at all.
pub proof fn lemma_interp_param_monotone(a: int, b1: int, b2: int, thr: int)
    requires
        a <= thr,
        thr < b2 <= b1,
    ensures
        0 <= interp_param(b2, a, thr) <= interp_param(b1, a, thr) <= SCALE,
        SCALE * (b2 - thr) < b2 - a ==> interp_param(b2, a, thr) == 0,
{
    lemma_interp_param_range(b1, a, thr);
    lemma_interp_param_range(b2, a, thr);
    let n1 = SCALE * (b1 - thr);
    let d1 = b1 - a;
    let n2 = SCALE * (b2 - thr);
    let d2 = b2 - a;
    let q1 = n1 / d1;
    let q2 = n2 / d2;
    vstd::arithmetic::div_mod::lemma_fundamental_div_mod(n1, d1);
    vstd::arithmetic::div_mod::lemma_fundamental_div_mod(n2, d2);
    assert(n2 * d1 <= n1 * d2) by (nonlinear_arith)
        requires
            n1 == SCALE * (b1 - thr),
            n2 == SCALE * (b2 - thr),
            d1 == b1 - a,
            d2 == b2 - a,
            SCALE == 256,
            a <= thr,
            thr < b2 <= b1,
    ;
    assert(q2 * d1 <= n1) by (nonlinear_arith)
        requires
            n2 == q2 * d2 + (n2 % d2),
            0 <= n2 % d2,
            n2 * d1 <= n1 * d2,
            0 < d1,
            0 < d2,
            0 <= q2,
    ;
    assert(q2 <= q1) by (nonlinear_arith)
        requires
            n1 == q1 * d1 + (n1 % d1),
            0 <= n1 % d1 < d1,
            q2 * d1 <= n1,
            0 < d1,
    ;
    if SCALE * (b2 - thr) < b2 - a {
        vstd::arithmetic::div_mod::lemma_basic_div(n2, d2);
    }
}


/// The eight corners of a cell have eight distinct offset triples.
proof fn lemma_corner_offsets_injective()
    ensures
        forall|i: int, j: int|
            0 <= i < 8 && 0 <= j < 8 && i != j ==> !(corner_dx(i) == corner_dx(j) && corner_dy(i)
                == corner_dy(j) && #[trigger] corner_dz(i) == #[trigger] corner_dz(j)),
{
}

/// A point strictly before the far end of an edge (offset below `SCALE`
/// from corner `hi` toward the adjacent corner `lo`) coincides with no cell
/// corner other than possibly `hi` itself.
proof fn lemma_lerp_avoids_other_corners(x: int, y: int, z: int, hi: int, lo: int, t: int, i: int)
    requires
        0 <= hi < 8,
        0 <= lo < 8,
        0 <= i < 8,
        i != hi,
        (if corner_dx(hi) == corner_dx(lo) {
            0int
        } else {
            1int
        }) + (if corner_dy(hi) == corner_dy(lo) {
            0int
        } else {
            1int
        }) + (if corner_dz(hi) == corner_dz(lo) {
            0int
        } else {
            1int
        }) == 1,
        0 <= t < SCALE,
    ensures
        lerp_toward(x, y, z, hi, lo, t) != corner_vert(x, y, z, i),
{
    lemma_corner_offsets_injective();
    let v = lerp_toward(x, y, z, hi, lo, t);
    let c = corner_vert(x, y, z, i);
    assert(!(v.x == c.x && v.y == c.y && v.z == c.z)) by (nonlinear_arith)
        requires
            v.x == (x + corner_dx(hi)) * SCALE + (corner_dx(lo) - corner_dx(hi)) * t,
            v.y == (y + corner_dy(hi)) * SCALE + (corner_dy(lo) - corner_dy(hi)) * t,
            v.z == (z + corner_dz(hi)) * SCALE + (corner_dz(lo) - corner_dz(hi)) * t,
            c.x == (x + corner_dx(i)) * SCALE,
            c.y == (y + corner_dy(i)) * SCALE,
            c.z == (z + corner_dz(i)) * SCALE,
            0 <= corner_dx(hi) <= 1,
            0 <= corner_dy(hi) <= 1,
            0 <= corner_dz(hi) <= 1,
            0 <= corner_dx(lo) <= 1,
            0 <= corner_dy(lo) <= 1,
            0 <= corner_dz(lo) <= 1,
            0 <= corner_dx(i) <= 1,
            0 <= corner_dy(i) <= 1,
            0 <= corner_dz(i) <= 1,
            (if corner_dx(hi) == corner_dx(lo) {
                0int
            } else {
                1int
            }) + (if corner_dy(hi) == corner_dy(lo) {
                0int
            } else {
                1int
            }) + (if corner_dz(hi) == corner_dz(lo) {
                0int
            } else {
                1int
            }) == 1,
            !(corner_dx(i) == corner_dx(hi) && corner_dy(i) == corner_dy(hi) && corner_dz(i)
                == corner_dz(hi)),
            0 <= t < SCALE,
            SCALE == 256,
    ;
}

/// Every cell edge joins two corners whose offsets differ along exactly one
/// axis.
proof fn lemma_edges_are_adjacent()
    ensures
        forall|e: int|
            0 <= e < 12 ==> (if corner_dx(#[trigger] edge_corner_a(e)) == corner_dx(
                edge_corner_b(e),
            ) {
                0int
            } else {
                1int
            }) + (if corner_dy(edge_corner_a(e)) == corner_dy(edge_corner_b(e)) {
                0int
            } else {
                1int
            }) + (if corner_dz(edge_corner_a(e)) == corner_dz(edge_corner_b(e)) {
                0int
            } else {
                1int
            }) == 1,
{
}

/// On an edge of a cell whose only above-threshold corner is `hot` (all
/// other corner densities strictly below the threshold), if `hot` is one of
/// the edge's endpoints then the crossing point coincides with no corner of
/// the cell other than possibly `hot` itself.
proof fn lemma_edge_vertex_avoids_cold_corners(
    m: FieldModel,
    x: int,
    y: int,
    z: int,
    e: int,
    hot: int,
    i: int,
)
    requires
        0 <= e < 12,
        0 <= hot < 8,
        0 <= i < 8,
        i != hot,
        corner_density(m, x, y, z, hot) > m.threshold,
        forall|c: int|
            0 <= c < 8 && c != hot ==> #[trigger] corner_density(m, x, y, z, c) < m.threshold,
        edge_corner_a(e) == hot || edge_corner_b(e) == hot,
    ensures
        edge_vertex(m, x, y, z, e) != corner_vert(x, y, z, i),
{
    lemma_edges_are_adjacent();
    let a = edge_corner_a(e);
    let b = edge_corner_b(e);
    let da = corner_density(m, x, y, z, a);
    let db = corner_density(m, x, y, z, b);
    let thr = m.threshold;
    if a == hot {
        assert(b != hot && db < thr < da);
        let tpar = interp_param(da, db, thr);
        lemma_interp_param_range(da, db, thr);
        assert(SCALE * (da - thr) < SCALE * (da - db)) by (nonlinear_arith)
            requires
                SCALE == 256,
                db < thr < da,
        ;
        vstd::arithmetic::div_mod::lemma_multiply_divide_lt(
            SCALE * (da - thr),
            da - db,
            SCALE as int,
        );
        assert((da - db) * (SCALE as int) == SCALE * (da - db)) by (nonlinear_arith);
        assert(0 <= tpar < SCALE);
        lemma_lerp_avoids_other_corners(x, y, z, a, b, tpar, i);
    } else {
        assert(a != hot && da < thr < db);
        let tpar = interp_param(db, da, thr);
        lemma_interp_param_range(db, da, thr);
        assert(SCALE * (db - thr) < SCALE * (db - da)) by (nonlinear_arith)
            requires
                SCALE == 256,
                da < thr < db,
        ;
        vstd::arithmetic::div_mod::lemma_multiply_divide_lt(
            SCALE * (db - thr),
            db - da,
            SCALE as int,
        );
        assert((db - da) * (SCALE as int) == SCALE * (db - da)) by (nonlinear_arith);
        assert(0 <= tpar < SCALE);
        lemma_lerp_avoids_other_corners(x, y, z, b, a, tpar, i);
    }
}

/// A cell with exactly one corner above the threshold and every other corner
/// strictly below it emits exactly one triangle: 3 vertices, each lying
/// within the cell cube on an edge at the hot corner, and none of them at
/// any other corner of the cell.
pub proof fn lemma_single_corner_cell(
    m: FieldModel,
    t: TriangulationTable,
    x: int,
    y: int,
    z: int,
    hot: int,
)
    requires
        t.wf(),
        0 <= hot < 8,
        corner_density(m, x, y, z, hot) > m.threshold,
        forall|i: int|
            0 <= i < 8 && i != hot ==> #[trigger] corner_density(m, x, y, z, i) < m.threshold,
    ensures
        cell_buffers(m, t, x, y, z).positions.len() == 3,
        cell_buffers(m, t, x, y, z).normals.len() == 3,
        cell_buffers(m, t, x, y, z).scalars.len() == 3,
        forall|j: int|
            0 <= j < 3 ==> x * SCALE <= (#[trigger] cell_buffers(m, t, x, y, z).positions[j]).x
                <= (x + 1) * SCALE && y * SCALE <= cell_buffers(m, t, x, y, z).positions[j].y <= (y
                + 1) * SCALE && z * SCALE <= cell_buffers(m, t, x, y, z).positions[j].z <= (z + 1)
                * SCALE,
        forall|j: int, i: int|
            #![trigger cell_buffers(m, t, x, y, z).positions[j], corner_vert(x, y, z, i)]
            0 <= j < 3 && 0 <= i < 8 && i != hot ==> cell_buffers(m, t, x, y, z).positions[j]
                != corner_vert(x, y, z, i),
{
    let c = cube_config(m, x, y, z);
    assert(corner_bit(m, x, y, z, hot) == 1);
    assert(forall|i: int| 0 <= i < 8 && i != hot ==> corner_bit(m, x, y, z, i) == 0);
    crate::table::lemma_single_corner_rows(t);
    crate::table::lemma_wf_rows_ok(t);
    lemma_cube_config_bits(m, x, y, z);
    if hot == 0 {
        assert(c == 1);
    } else if hot == 1 {
        assert(c == 2);
    } else if hot == 2 {
        assert(c == 4);
    } else if hot == 3 {
        assert(c == 8);
    } else if hot == 4 {
        assert(c == 16);
    } else if hot == 5 {
        assert(c == 32);
    } else if hot == 6 {
        assert(c == 64);
    } else {
        assert(c == 128);
    }
    let row = t.row(c);
    assert(row.len() == 3);
    assert(row_ok(c, row));
    let bufs = cell_buffers(m, t, x, y, z);
    assert(bufs.positions.len() == 3);
    assert(bufs.normals.len() == 3);
    assert(bufs.scalars.len() == 3);
    assert forall|j: int| 0 <= j < 3 implies x * SCALE <= (#[trigger] bufs.positions[j]).x <= (x
        + 1) * SCALE && y * SCALE <= bufs.positions[j].y <= (y + 1) * SCALE && z * SCALE
        <= bufs.positions[j].z <= (z + 1) * SCALE by {
        assert(config_bit(c, edge_corner_a(row[j] as int)) != config_bit(
            c,
            edge_corner_b(row[j] as int),
        ));
        lemma_edge_vertex_in_cell(m, x, y, z, row[j] as int);
    }
    assert forall|j: int, i: int|
        #![trigger bufs.positions[j], corner_vert(x, y, z, i)]
        0 <= j < 3 && 0 <= i < 8 && i != hot implies bufs.positions[j] != corner_vert(
        x,
        y,
        z,
        i,
    ) by {
        let e = row[j] as int;
        assert(config_bit(c, edge_corner_a(e)) != config_bit(c, edge_corner_b(e)));
        let a = edge_corner_a(e);
        let b = edge_corner_b(e);
        assert(0 <= a < 8 && 0 <= b < 8);
        assert(corner_bit(m, x, y, z, a) != corner_bit(m, x, y, z, b));
        if corner_bit(m, x, y, z, a) == 1 {
            assert(a == hot);
        } else {
            assert(b == hot);
        }
        lemma_edge_vertex_avoids_cold_corners(m, x, y, z, e, hot, i);
    }
}


/// Whether a point lies within the bounding box of the field's grid.
pub open spec fn in_field_box(m: FieldModel, v: Vert) -> bool {
    &&& 0 <= v.x <= (m.width - 1) * SCALE
    &&& 0 <= v.y <= (m.height - 1) * SCALE
    &&& 0 <= v.z <= (m.length - 1) * SCALE
}

/// Every crossing point of an in-range cell lies within the field's
/// bounding box.
proof fn lemma_cell_positions_in_box(m: FieldModel, t: TriangulationTable, x: int, y: int, z: int)
    requires
        t.wf(),
        0 <= x && x + 1 < m.width,
        0 <= y && y + 1 < m.height,
        0 <= z && z + 1 < m.length,
    ensures
        forall|j: int|
            0 <= j < cell_buffers(m, t, x, y, z).positions.len() ==> in_field_box(
                m,
                #[trigger] cell_buffers(m, t, x, y, z).positions[j],
            ),
{
    lemma_cube_config_bits(m, x, y, z);
    crate::table::lemma_wf_rows_ok(t);
    let c = cube_config(m, x, y, z);
    let row = t.row(c);
    assert forall|j: int| 0 <= j < cell_buffers(m, t, x, y, z).positions.len() implies in_field_box(
        m,
        #[trigger] cell_buffers(m, t, x, y, z).positions[j],
    ) by {
        assert(config_bit(c, edge_corner_a(row[j] as int)) != config_bit(
            c,
            edge_corner_b(row[j] as int),
        ));
        lemma_edge_vertex_in_cell(m, x, y, z, row[j] as int);
    }
}

/// Every crossing point of a row of cells lies within the field's box.
proof fn lemma_row_positions_in_box(m: FieldModel, t: TriangulationTable, y: int, x: int, zc: nat)
    requires
        t.wf(),
        0 <= x && x + 1 < m.width,
        0 <= y && y + 1 < m.height,
        zc < m.length,
    ensures
        forall|j: int|
            0 <= j < row_buffers(m, t, y, x, zc).positions.len() ==> in_field_box(
                m,
                #[trigger] row_buffers(m, t, y, x, zc).positions[j],
            ),
    decreases zc,
{
    if zc > 0 {
        lemma_row_positions_in_box(m, t, y, x, (zc - 1) as nat);
        lemma_cell_positions_in_box(m, t, x, y, zc - 1);
        let a = row_buffers(m, t, y, x, (zc - 1) as nat).positions;
        let b = cell_buffers(m, t, x, y, zc - 1).positions;
        assert forall|j: int|
            0 <= j < row_buffers(m, t, y, x, zc).positions.len() implies in_field_box(
            m,
            #[trigger] row_buffers(m, t, y, x, zc).positions[j],
        ) by {
            if j < a.len() {
                assert(row_buffers(m, t, y, x, zc).positions[j] == a[j]);
            } else {
                assert(row_buffers(m, t, y, x, zc).positions[j] == b[j - a.len()]);
            }
        }
    }
}

/// Every crossing point of a layer of cell rows lies within the field's box.
proof fn lemma_layer_positions_in_box(m: FieldModel, t: TriangulationTable, y: int, xc: nat)
    requires
        t.wf(),
        m.wf(),
        0 <= y && y + 1 < m.height,
        xc < m.width,
    ensures
        forall|j: int|
            0 <= j < layer_buffers(m, t, y, xc).positions.len() ==> in_field_box(
                m,
                #[trigger] layer_buffers(m, t, y, xc).positions[j],
            ),
    decreases xc,
{
    if xc > 0 {
        lemma_layer_positions_in_box(m, t, y, (xc - 1) as nat);
        lemma_row_positions_in_box(m, t, y, xc - 1, (m.length - 1) as nat);
        let a = layer_buffers(m, t, y, (xc - 1) as nat).positions;
        let b = row_buffers(m, t, y, xc - 1, (m.length - 1) as nat).positions;
        assert forall|j: int|
            0 <= j < layer_buffers(m, t, y, xc).positions.len() implies in_field_box(
            m,
            #[trigger] layer_buffers(m, t, y, xc).positions[j],
        ) by {
            if j < a.len() {
                assert(layer_buffers(m, t, y, xc).positions[j] == a[j]);
            } else {
                assert(layer_buffers(m, t, y, xc).positions[j] == b[j - a.len()]);
            }
        }
    }
}

/// Every vertex position the generator emits lies within the bounding box
/// of the field's grid: consumers can upload or collide the buffers without
/// further range checks.
pub proof fn lemma_generated_positions_in_field(m: FieldModel, t: TriangulationTable)
    requires
        m.wf(),
        t.wf(),
    ensures
        forall|j: int|
            0 <= j < generated_buffers(m, t).positions.len() ==> in_field_box(
                m,
                #[trigger] generated_buffers(m, t).positions[j],
            ),
{
    lemma_stack_positions_in_box(m, t, (m.height - 1) as nat);
}

/// Every crossing point of a stack of layers lies within the field's box.
proof fn lemma_stack_positions_in_box(m: FieldModel, t: TriangulationTable, yc: nat)
    requires
        t.wf(),
        m.wf(),
        yc < m.height,
    ensures
        forall|j: int|
            0 <= j < stack_buffers(m, t, yc).positions.len() ==> in_field_box(
                m,
                #[trigger] stack_buffers(m, t, yc).positions[j],
            ),
    decreases yc,
{
    if yc > 0 {
        lemma_stack_positions_in_box(m, t, (yc - 1) as nat);
        lemma_layer_positions_in_box(m, t, yc - 1, (m.width - 1) as nat);
        let a = stack_buffers(m, t, (yc - 1) as nat).positions;
        let b = layer_buffers(m, t, yc - 1, (m.width - 1) as nat).positions;
        assert forall|j: int|
            0 <= j < stack_buffers(m, t, yc).positions.len() implies in_field_box(
            m,
            #[trigger] stack_buffers(m, t, yc).positions[j],
        ) by {
            if j < a.len() {
                assert(stack_buffers(m, t, yc).positions[j] == a[j]);
            } else {
                assert(stack_buffers(m, t, yc).positions[j] == b[j - a.len()]);
            }
        }
    }
}

} // verus!

