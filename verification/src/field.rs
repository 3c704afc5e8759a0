//! The voxel field: a dense 3D grid of scalar density samples together with
//! the grid dimensions and the isosurface threshold. The field is the mutable
//! state that the mesh generator reads and the sculpting brush writes.

use vstd::prelude::*;

use crate::DENSITY_BOUND;
use crate::MAX_DIM;
use crate::MAX_VOLUME;

verus! {

/// Mathematical model of a voxel field: the dimensions, the threshold and the
/// flat sequence of samples, all as unbounded integers.
pub struct FieldModel {
    pub width: int,
    pub height: int,
    pub length: int,
    pub threshold: int,
    pub samples: Seq<int>,
}

impl FieldModel {
    /// Position of the sample `(x, y, z)` in the flat sample sequence.
    pub open spec fn flat_index(self, x: int, y: int, z: int) -> int {
        (x * self.height + y) * self.length + z
    }

    /// Whether `(x, y, z)` is a grid point of this field.
    pub open spec fn in_bounds(self, x: int, y: int, z: int) -> bool {
        0 <= x < self.width && 0 <= y < self.height && 0 <= z < self.length
    }

    /// The density sample at grid point `(x, y, z)`.
    pub open spec fn sample(self, x: int, y: int, z: int) -> int {
        self.samples[self.flat_index(x, y, z)]
    }

    /// Well-formedness: positive bounded dimensions, sample storage of
    /// exactly `width * height * length` entries, and all scalars in range.
    pub open spec fn wf(self) -> bool {
        &&& 1 <= self.width <= MAX_DIM as int
        &&& 1 <= self.height <= MAX_DIM as int
        &&& 1 <= self.length <= MAX_DIM as int
        &&& self.width * self.height * self.length <= MAX_VOLUME as int
        &&& self.samples.len() == self.width * self.height * self.length
        &&& (forall|i: int|
            0 <= i < self.samples.len() ==> -DENSITY_BOUND <= #[trigger] self.samples[i]
                <= DENSITY_BOUND)
        &&& -DENSITY_BOUND < self.threshold < DENSITY_BOUND
    }
}

/// The flat index of an in-bounds grid point lies within the sample storage.
pub proof fn lemma_flat_index_bounds(m: FieldModel, x: int, y: int, z: int)
    by (nonlinear_arith)
    requires
        1 <= m.height,
        1 <= m.length,
        m.in_bounds(x, y, z),
    ensures
        0 <= m.flat_index(x, y, z) < m.width * m.height * m.length,
{
}

/// The intermediate products of the flat-index computation stay below the
/// volume bound of a well-formed field.
pub proof fn lemma_flat_index_fits(m: FieldModel, x: int, y: int, z: int)
    by (nonlinear_arith)
    requires
        1 <= m.width,
        1 <= m.height,
        1 <= m.length,
        m.width * m.height * m.length <= MAX_VOLUME as int,
        m.in_bounds(x, y, z),
    ensures
        x * m.height + y < m.width * m.height <= MAX_VOLUME as int,
        0 <= m.flat_index(x, y, z) < m.width * m.height * m.length,
{
}

/// Distinct in-bounds grid points have distinct flat indices.
pub proof fn lemma_flat_index_injective(m: FieldModel, x1: int, y1: int, z1: int, x2: int, y2: int, z2: int)
    by (nonlinear_arith)
    requires
        1 <= m.height,
        1 <= m.length,
        m.in_bounds(x1, y1, z1),
        m.in_bounds(x2, y2, z2),
        m.flat_index(x1, y1, z1) == m.flat_index(x2, y2, z2),
    ensures
        x1 == x2 && y1 == y2 && z1 == z2,
{
}

/// Why constructing a field can fail, with the offending argument class.
#[derive(Clone, Copy, Debug, PartialEq, Eq, Structural)]
pub enum FieldError {
    /// Some dimension is zero.
    ZeroDimension,
    /// Some dimension exceeds `MAX_DIM`.
    DimensionTooLarge,
    /// The total number of samples exceeds `MAX_VOLUME`.
    VolumeTooLarge,
    /// The threshold magnitude reaches `DENSITY_BOUND`.
    ThresholdOutOfRange,
}

/// The error that `VoxelField::new` reports for these arguments, or `None`
/// when construction succeeds.
pub open spec fn new_field_error(width: int, height: int, length: int, threshold: int) -> Option<
    FieldError,
> {
    if width == 0 || height == 0 || length == 0 {
        Some(FieldError::ZeroDimension)
    } else if width > MAX_DIM as int || height > MAX_DIM as int || length > MAX_DIM as int {
        Some(FieldError::DimensionTooLarge)
    } else if width * height * length > MAX_VOLUME as int {
        Some(FieldError::VolumeTooLarge)
    } else if threshold <= -DENSITY_BOUND || threshold >= DENSITY_BOUND {
        Some(FieldError::ThresholdOutOfRange)
    } else {
        None
    }
}

/// A dense 3D grid of density samples, indexed `(x, y, z)` with
/// `0 <= x < width`, `0 <= y < height`, `0 <= z < length`, never resized
/// after construction.
#[derive(Debug)]
pub struct VoxelField {
    width: usize,
    height: usize,
    length: usize,
    threshold: i64,
    samples: Vec<i64>,
}

impl View for VoxelField {
    type V = FieldModel;

    closed spec fn view(&self) -> FieldModel {
        FieldModel {
            width: self.width as int,
            height: self.height as int,
            length: self.length as int,
            threshold: self.threshold as int,
            samples: self.samples@.map_values(|s: i64| s as int),
        }
    }
}

impl VoxelField {
    /// Creates a field of the given dimensions with every sample zero,
    /// rejecting dimensions of zero, oversized grids, and an out-of-range
    /// threshold at construction time.
    pub fn new(width: usize, height: usize, length: usize, threshold: i64) -> (result: Result<
        VoxelField,
        FieldError,
    >)
        ensures
            match result {
                Ok(f) => {
                    &&& new_field_error(width as int, height as int, length as int, threshold as int)
                        is None
                    &&& f@.wf()
                    &&& f@.width == width as int
                    &&& f@.height == height as int
                    &&& f@.length == length as int
                    &&& f@.threshold == threshold as int
                    &&& forall|x: int, y: int, z: int|
                        f@.in_bounds(x, y, z) ==> #[trigger] f@.sample(x, y, z) == 0
                },
                Err(e) => Some(e) == new_field_error(
                    width as int,
                    height as int,
                    length as int,
                    threshold as int,
                ),
            },
    {
        if width == 0 || height == 0 || length == 0 {
            return Err(FieldError::ZeroDimension);
        }
        if width > MAX_DIM || height > MAX_DIM || length > MAX_DIM {
            return Err(FieldError::DimensionTooLarge);
        }
        proof {
            assert(width * height <= 1048576 && width * height * length <= 1073741824)
                by (nonlinear_arith)
                requires
                    width <= 1024,
                    height <= 1024,
                    length <= 1024,
            ;
        }
        let volume = width * height * length;
        if volume > MAX_VOLUME {
            return Err(FieldError::VolumeTooLarge);
        }
        if threshold <= -DENSITY_BOUND || threshold >= DENSITY_BOUND {
            return Err(FieldError::ThresholdOutOfRange);
        }
        let mut samples: Vec<i64> = Vec::new();
        while samples.len() < volume
            invariant
                samples@.len() <= volume,
                forall|i: int| 0 <= i < samples@.len() ==> samples@[i] == 0i64,
            decreases volume - samples@.len(),
        {
            samples.push(0);
        }
        let f = VoxelField { width, height, length, threshold, samples };
        proof {
            assert forall|x: int, y: int, z: int| f@.in_bounds(x, y, z) implies #[trigger] f@.sample(
                x,
                y,
                z,
            ) == 0 by {
                lemma_flat_index_bounds(f@, x, y, z);
            }
        }
        Ok(f)
    }

    /// The grid extent along x.
    pub fn width(&self) -> (w: usize)
        ensures
            w == self@.width,
    {
        self.width
    }

    /// The grid extent along y.
    pub fn height(&self) -> (h: usize)
        ensures
            h == self@.height,
    {
        self.height
    }

    /// The grid extent along z.
    pub fn length(&self) -> (l: usize)
        ensures
            l == self@.length,
    {
        self.length
    }

    /// The isosurface threshold.
    pub fn threshold(&self) -> (t: i64)
        ensures
            t == self@.threshold,
    {
        self.threshold
    }

    /// The density sample at `(x, y, z)`.
    pub fn get(&self, x: usize, y: usize, z: usize) -> (v: i64)
        requires
            self@.wf(),
            self@.in_bounds(x as int, y as int, z as int),
        ensures
            v as int == self@.sample(x as int, y as int, z as int),
            -DENSITY_BOUND <= v <= DENSITY_BOUND,
    {
        proof {
            lemma_flat_index_fits(self@, x as int, y as int, z as int);
        }
        self.samples[(x * self.height + y) * self.length + z]
    }

    /// Overwrites the density sample at `(x, y, z)`.
    pub fn set(&mut self, x: usize, y: usize, z: usize, value: i64)
        requires
            old(self)@.wf(),
            old(self)@.in_bounds(x as int, y as int, z as int),
            -DENSITY_BOUND <= value <= DENSITY_BOUND,
        ensures
            final(self)@.wf(),
            final(self)@.width == old(self)@.width,
            final(self)@.height == old(self)@.height,
            final(self)@.length == old(self)@.length,
            final(self)@.threshold == old(self)@.threshold,
            final(self)@.samples == old(self)@.samples.update(
                old(self)@.flat_index(x as int, y as int, z as int),
                value as int,
            ),
            final(self)@.sample(x as int, y as int, z as int) == value as int,
            forall|a: int, b: int, c: int|
                old(self)@.in_bounds(a, b, c) && !(a == x as int && b == y as int && c == z as int)
                    ==> #[trigger] final(self)@.sample(a, b, c) == old(self)@.sample(a, b, c),
    {
        proof {
            lemma_flat_index_fits(self@, x as int, y as int, z as int);
        }
        let ghost m0 = self@;
        let i = (x * self.height + y) * self.length + z;
        self.samples.set(i, value);
        proof {
            assert(self@.samples =~= m0.samples.update(
                m0.flat_index(x as int, y as int, z as int),
                value as int,
            ));
            assert forall|a: int, b: int, c: int|
                m0.in_bounds(a, b, c) && !(a == x as int && b == y as int && c
                    == z as int) implies #[trigger] self@.sample(a, b, c) == m0.sample(a, b, c) by {
                lemma_flat_index_bounds(m0, a, b, c);
                if m0.flat_index(a, b, c) == m0.flat_index(x as int, y as int, z as int) {
                    lemma_flat_index_injective(m0, a, b, c, x as int, y as int, z as int);
                }
            }
        }
    }

    /// The sample at `(x, y, z)`, or `None` when the point lies outside the
    /// grid: a checked boundary for callers that have not established
    /// bounds.
    pub fn try_get(&self, x: usize, y: usize, z: usize) -> (r: Option<i64>)
        requires
            self@.wf(),
        ensures
            match r {
                Some(v) => self@.in_bounds(x as int, y as int, z as int) && v as int == self@.sample(
                    x as int,
                    y as int,
                    z as int,
                ),
                None => !self@.in_bounds(x as int, y as int, z as int),
            },
    {
        if x < self.width && y < self.height && z < self.length {
            Some(self.get(x, y, z))
        } else {
            None
        }
    }

    /// Overwrites the sample at `(x, y, z)` after checking the bounds and
    /// the density range, reporting whether the write happened; on `false`
    /// the field is untouched.
    pub fn try_set(&mut self, x: usize, y: usize, z: usize, value: i64) -> (ok: bool)
        requires
            old(self)@.wf(),
        ensures
            ok == (old(self)@.in_bounds(x as int, y as int, z as int) && -DENSITY_BOUND <= value
                <= DENSITY_BOUND),
            final(self)@.wf(),
            ok ==> final(self)@ == (FieldModel {
                samples: old(self)@.samples.update(
                    old(self)@.flat_index(x as int, y as int, z as int),
                    value as int,
                ),
                ..old(self)@
            }),
            !ok ==> final(self)@ == old(self)@,
    {
        if x < self.width && y < self.height && z < self.length && -DENSITY_BOUND <= value
            && value <= DENSITY_BOUND {
            self.set(x, y, z, value);
            true
        } else {
            false
        }
    }

    /// The flat-plane density at height `y` for a plane lying at `plane_y`:
    /// one unit above the threshold strictly above the plane, one unit below
    /// it elsewhere.
    pub open spec fn plane_density(self, plane_y: int, y: int) -> int {
        if y > plane_y {
            self@.threshold + 1
        } else {
            self@.threshold - 1
        }
    }

    /// Fills the whole field with the flat-plane function of `y`: samples
    /// strictly above `plane_y` are set one unit above the threshold, all
    /// others one unit below it.
    pub fn fill_plane(&mut self, plane_y: usize)
        requires
            old(self)@.wf(),
        ensures
            final(self)@.wf(),
            final(self)@.width == old(self)@.width,
            final(self)@.height == old(self)@.height,
            final(self)@.length == old(self)@.length,
            final(self)@.threshold == old(self)@.threshold,
            forall|x: int, y: int, z: int|
                final(self)@.in_bounds(x, y, z) ==> #[trigger] final(self)@.sample(x, y, z)
                    == old(self).plane_density(plane_y as int, y),
    {
        let width = self.width;
        let height = self.height;
        let length = self.length;
        let threshold = self.threshold;
        let ghost m0 = self@;
        let mut x: usize = 0;
        while x < width
            invariant
                self@.wf(),
                x <= width,
                self@.width == m0.width,
                self@.height == m0.height,
                self@.length == m0.length,
                self@.threshold == m0.threshold,
                width == m0.width,
                height == m0.height,
                length == m0.length,
                threshold == m0.threshold,
                forall|a: int, b: int, c: int|
                    self@.in_bounds(a, b, c) && a < x ==> #[trigger] self@.sample(a, b, c)
                        == if b > plane_y as int {
                        m0.threshold + 1
                    } else {
                        m0.threshold - 1
                    },
            decreases width - x,
        {
            let mut y: usize = 0;
            while y < height
                invariant
                    self@.wf(),
                    x < width,
                    y <= height,
                    self@.width == m0.width,
                    self@.height == m0.height,
                    self@.length == m0.length,
                    self@.threshold == m0.threshold,
                    width == m0.width,
                    height == m0.height,
                    length == m0.length,
                    threshold == m0.threshold,
                    forall|a: int, b: int, c: int|
                        self@.in_bounds(a, b, c) && (a < x || (a == x && b < y))
                            ==> #[trigger] self@.sample(a, b, c) == if b > plane_y as int {
                            m0.threshold + 1
                        } else {
                            m0.threshold - 1
                        },
                decreases height - y,
            {
                let mut z: usize = 0;
                while z < length
                    invariant
                        self@.wf(),
                        x < width,
                        y < height,
                        z <= length,
                        self@.width == m0.width,
                        self@.height == m0.height,
                        self@.length == m0.length,
                        self@.threshold == m0.threshold,
                        width == m0.width,
                        height == m0.height,
                        length == m0.length,
                        threshold == m0.threshold,
                        forall|a: int, b: int, c: int|
                            self@.in_bounds(a, b, c) && (a < x || (a == x && b < y) || (a == x && b
                                == y && c < z)) ==> #[trigger] self@.sample(a, b, c) == if b
                                > plane_y as int {
                                m0.threshold + 1
                            } else {
                                m0.threshold - 1
                            },
                    decreases length - z,
                {
                    let v = if y > plane_y {
                        threshold + 1
                    } else {
                        threshold - 1
                    };
                    self.set(x, y, z, v);
                    z = z + 1;
                }
                y = y + 1;
            }
            x = x + 1;
        }
    }
}

} // verus!
