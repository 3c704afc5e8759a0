//! The terrain editor: a spherical sculpting brush that raises or lowers the
//! density of every sample strictly inside the brush sphere, in field-local
//! fixed-point coordinates. The inclusion test is binary: there is no falloff
//! across the sphere boundary, and overlapping edits accumulate additively.

use vstd::prelude::*;

use crate::DENSITY_BOUND;
use crate::SCALE;
use crate::field::VoxelField;

verus! {

/// Largest magnitude the brush centre coordinates and radius may have, in
/// fixed-point coordinate units.
pub const BRUSH_COORD_LIMIT: i64 = 536_870_912;

/// Whether a brush stroke raises or lowers the density.
#[derive(Clone, Copy, Debug, PartialEq, Eq, Structural)]
pub enum BrushSign {
    Increase,
    Decrease,
}

/// The signed density change of a stroke: `+delta` for an increase, `-delta`
/// for a decrease.
pub open spec fn signed_delta(sign: BrushSign, delta: int) -> int {
    match sign {
        BrushSign::Increase => delta,
        BrushSign::Decrease => -delta,
    }
}

/// Whether the point `(px, py, pz)` lies strictly inside the sphere of the
/// given radius centred at `(cx, cy, cz)` (squared distance below squared
/// radius).
pub open spec fn inside_sphere_spec(
    cx: int,
    cy: int,
    cz: int,
    radius: int,
    px: int,
    py: int,
    pz: int,
) -> bool {
    (px - cx) * (px - cx) + (py - cy) * (py - cy) + (pz - cz) * (pz - cz) < radius * radius
}

/// Strict sphere-inclusion test on fixed-point coordinates.
pub fn inside_sphere(cx: i64, cy: i64, cz: i64, radius: i64, px: i64, py: i64, pz: i64) -> (r: bool)
    requires
        -BRUSH_COORD_LIMIT <= cx <= BRUSH_COORD_LIMIT,
        -BRUSH_COORD_LIMIT <= cy <= BRUSH_COORD_LIMIT,
        -BRUSH_COORD_LIMIT <= cz <= BRUSH_COORD_LIMIT,
        -BRUSH_COORD_LIMIT <= radius <= BRUSH_COORD_LIMIT,
        -BRUSH_COORD_LIMIT <= px <= BRUSH_COORD_LIMIT,
        -BRUSH_COORD_LIMIT <= py <= BRUSH_COORD_LIMIT,
        -BRUSH_COORD_LIMIT <= pz <= BRUSH_COORD_LIMIT,
    ensures
        r == inside_sphere_spec(cx as int, cy as int, cz as int, radius as int, px as int, py as int, pz as int),
{
    let dx = px - cx;
    let dy = py - cy;
    let dz = pz - cz;
    proof {
        assert(dx * dx <= 0x1000_0000_0000_0000 && dy * dy <= 0x1000_0000_0000_0000 && dz * dz
            <= 0x1000_0000_0000_0000 && radius * radius <= 0x1000_0000_0000_0000 && dx * dx >= 0
            && dy * dy >= 0 && dz * dz >= 0 && radius * radius >= 0) by (nonlinear_arith)
            requires
                -0x4000_0000 <= dx <= 0x4000_0000,
                -0x4000_0000 <= dy <= 0x4000_0000,
                -0x4000_0000 <= dz <= 0x4000_0000,
                -0x4000_0000 <= radius <= 0x4000_0000,
        ;
    }
    dx * dx + dy * dy + dz * dz < radius * radius
}

impl VoxelField {
    /// Applies one spherical brush stroke in field-local coordinates: every
    /// grid point whose fixed-point position lies strictly inside the sphere
    /// has its density changed by exactly the signed delta; every other
    /// sample is left untouched. Returns whether any sample was touched, so
    /// the caller knows to regenerate the mesh.
    pub fn apply_brush(
        &mut self,
        cx: i64,
        cy: i64,
        cz: i64,
        radius: i64,
        sign: BrushSign,
        delta: i64,
    ) -> (changed: bool)
        requires
            old(self)@.wf(),
            0 <= delta <= DENSITY_BOUND,
            -BRUSH_COORD_LIMIT <= cx <= BRUSH_COORD_LIMIT,
            -BRUSH_COORD_LIMIT <= cy <= BRUSH_COORD_LIMIT,
            -BRUSH_COORD_LIMIT <= cz <= BRUSH_COORD_LIMIT,
            0 <= radius <= BRUSH_COORD_LIMIT,
            forall|x: int, y: int, z: int|
                old(self)@.in_bounds(x, y, z) && inside_sphere_spec(
                    cx as int,
                    cy as int,
                    cz as int,
                    radius as int,
                    x * SCALE,
                    y * SCALE,
                    z * SCALE,
                ) ==> -DENSITY_BOUND <= #[trigger] old(self)@.sample(x, y, z) + signed_delta(
                    sign,
                    delta as int,
                ) <= DENSITY_BOUND,
        ensures
            final(self)@.wf(),
            final(self)@.width == old(self)@.width,
            final(self)@.height == old(self)@.height,
            final(self)@.length == old(self)@.length,
            final(self)@.threshold == old(self)@.threshold,
            forall|x: int, y: int, z: int|
                old(self)@.in_bounds(x, y, z) ==> #[trigger] final(self)@.sample(x, y, z) == if
                    inside_sphere_spec(
                    cx as int,
                    cy as int,
                    cz as int,
                    radius as int,
                    x * SCALE,
                    y * SCALE,
                    z * SCALE,
                ) {
                    old(self)@.sample(x, y, z) + signed_delta(sign, delta as int)
                } else {
                    old(self)@.sample(x, y, z)
                },
            changed == exists|x: int, y: int, z: int|
                old(self)@.in_bounds(x, y, z) && #[trigger] inside_sphere_spec(
                    cx as int,
                    cy as int,
                    cz as int,
                    radius as int,
                    x * SCALE,
                    y * SCALE,
                    z * SCALE,
                ),
    {
        let mut changed = false;
        let width = self.width();
        let height = self.height();
        let length = self.length();
        let ghost m0 = self@;
        let mut x: usize = 0;
        while x < width
            invariant
                self@.wf(),
                x <= width,
                self@.width == m0.width,
                self@.height == m0.height,
                self@.length == m0.length,
                self@.threshold == m0.threshold,
                width == m0.width,
                height == m0.height,
                length == m0.length,
                0 <= delta <= DENSITY_BOUND,
                -BRUSH_COORD_LIMIT <= cx <= BRUSH_COORD_LIMIT,
                -BRUSH_COORD_LIMIT <= cy <= BRUSH_COORD_LIMIT,
                -BRUSH_COORD_LIMIT <= cz <= BRUSH_COORD_LIMIT,
                0 <= radius <= BRUSH_COORD_LIMIT,
                forall|a: int, b: int, c: int|
                    m0.in_bounds(a, b, c) && inside_sphere_spec(
                        cx as int,
                        cy as int,
                        cz as int,
                        radius as int,
                        a * SCALE,
                        b * SCALE,
                        c * SCALE,
                    ) ==> -DENSITY_BOUND <= #[trigger] m0.sample(a, b, c) + signed_delta(
                        sign,
                        delta as int,
                    ) <= DENSITY_BOUND,
                forall|a: int, b: int, c: int|
                    m0.in_bounds(a, b, c) ==> #[trigger] self@.sample(a, b, c) == if a < x
                        && inside_sphere_spec(
                        cx as int,
                        cy as int,
                        cz as int,
                        radius as int,
                        a * SCALE,
                        b * SCALE,
                        c * SCALE,
                    ) {
                        m0.sample(a, b, c) + signed_delta(sign, delta as int)
                    } else {
                        m0.sample(a, b, c)
                    },
                changed == exists|a: int, b: int, c: int|
                    m0.in_bounds(a, b, c) && a < x && #[trigger] inside_sphere_spec(
                        cx as int,
                        cy as int,
                        cz as int,
                        radius as int,
                        a * SCALE,
                        b * SCALE,
                        c * SCALE,
                    ),
            decreases width - x,
        {
            let mut y: usize = 0;
            while y < height
                invariant
                    self@.wf(),
                    x < width,
                    y <= height,
                    self@.width == m0.width,
                    self@.height == m0.height,
                    self@.length == m0.length,
                    self@.threshold == m0.threshold,
                    width == m0.width,
                    height == m0.height,
                    length == m0.length,
                    0 <= delta <= DENSITY_BOUND,
                    -BRUSH_COORD_LIMIT <= cx <= BRUSH_COORD_LIMIT,
                    -BRUSH_COORD_LIMIT <= cy <= BRUSH_COORD_LIMIT,
                    -BRUSH_COORD_LIMIT <= cz <= BRUSH_COORD_LIMIT,
                    0 <= radius <= BRUSH_COORD_LIMIT,
                    forall|a: int, b: int, c: int|
                        m0.in_bounds(a, b, c) && inside_sphere_spec(
                            cx as int,
                            cy as int,
                            cz as int,
                            radius as int,
                            a * SCALE,
                            b * SCALE,
                            c * SCALE,
                        ) ==> -DENSITY_BOUND <= #[trigger] m0.sample(a, b, c) + signed_delta(
                            sign,
                            delta as int,
                        ) <= DENSITY_BOUND,
                    forall|a: int, b: int, c: int|
                        m0.in_bounds(a, b, c) ==> #[trigger] self@.sample(a, b, c) == if (a < x || (
                        a == x && b < y)) && inside_sphere_spec(
                            cx as int,
                            cy as int,
                            cz as int,
                            radius as int,
                            a * SCALE,
                            b * SCALE,
                            c * SCALE,
                        ) {
                            m0.sample(a, b, c) + signed_delta(sign, delta as int)
                        } else {
                            m0.sample(a, b, c)
                        },
                    changed == exists|a: int, b: int, c: int|
                        m0.in_bounds(a, b, c) && (a < x || (a == x && b < y))
                            && #[trigger] inside_sphere_spec(
                            cx as int,
                            cy as int,
                            cz as int,
                            radius as int,
                            a * SCALE,
                            b * SCALE,
                            c * SCALE,
                        ),
                decreases height - y,
            {
                let mut z: usize = 0;
                while z < length
                    invariant
                        self@.wf(),
                        x < width,
                        y < height,
                        z <= length,
                        self@.width == m0.width,
                        self@.height == m0.height,
                        self@.length == m0.length,
                        self@.threshold == m0.threshold,
                        width == m0.width,
                        height == m0.height,
                        length == m0.length,
                        0 <= delta <= DENSITY_BOUND,
                        -BRUSH_COORD_LIMIT <= cx <= BRUSH_COORD_LIMIT,
                        -BRUSH_COORD_LIMIT <= cy <= BRUSH_COORD_LIMIT,
                        -BRUSH_COORD_LIMIT <= cz <= BRUSH_COORD_LIMIT,
                        0 <= radius <= BRUSH_COORD_LIMIT,
                        forall|a: int, b: int, c: int|
                            m0.in_bounds(a, b, c) && inside_sphere_spec(
                                cx as int,
                                cy as int,
                                cz as int,
                                radius as int,
                                a * SCALE,
                                b * SCALE,
                                c * SCALE,
                            ) ==> -DENSITY_BOUND <= #[trigger] m0.sample(a, b, c) + signed_delta(
                                sign,
                                delta as int,
                            ) <= DENSITY_BOUND,
                        forall|a: int, b: int, c: int|
                            m0.in_bounds(a, b, c) ==> #[trigger] self@.sample(a, b, c) == if (a < x
                                || (a == x && b < y) || (a == x && b == y && c < z))
                                && inside_sphere_spec(
                                cx as int,
                                cy as int,
                                cz as int,
                                radius as int,
                                a * SCALE,
                                b * SCALE,
                                c * SCALE,
                            ) {
                                m0.sample(a, b, c) + signed_delta(sign, delta as int)
                            } else {
                                m0.sample(a, b, c)
                            },
                        changed == exists|a: int, b: int, c: int|
                            m0.in_bounds(a, b, c) && (a < x || (a == x && b < y) || (a == x && b
                                == y && c < z)) && #[trigger] inside_sphere_spec(
                                cx as int,
                                cy as int,
                                cz as int,
                                radius as int,
                                a * SCALE,
                                b * SCALE,
                                c * SCALE,
                            ),
                    decreases length - z,
                {
                    let px = (x as i64) * SCALE;
                    let py = (y as i64) * SCALE;
                    let pz = (z as i64) * SCALE;
                    if inside_sphere(cx, cy, cz, radius, px, py, pz) {
                        let v = self.get(x, y, z);
                        let updated = match sign {
                            BrushSign::Increase => v + delta,
                            BrushSign::Decrease => v - delta,
                        };
                        self.set(x, y, z, updated);
                        changed = true;
                        proof {
                            assert(inside_sphere_spec(
                                cx as int,
                                cy as int,
                                cz as int,
                                radius as int,
                                (x as int) * SCALE,
                                (y as int) * SCALE,
                                (z as int) * SCALE,
                            ));
                        }
                    }
                    z = z + 1;
                }
                y = y + 1;
            }
            x = x + 1;
        }
        changed
    }
}

} // verus!
