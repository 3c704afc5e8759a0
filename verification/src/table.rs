//! The marching-cubes triangulation table: for each of the 256 corner-sign
//! configurations of a cell, the ordered list of cell edges whose crossing
//! points form the isosurface triangles inside that cell, plus the fixed maps
//! from an edge index to the pair of corner indices it connects.
//!
//! Corner convention (a cell at integer origin `(x, y, z)`):
//! corners 0..=3 sit on the lower `y` face, 4..=7 directly above them, and
//! corner `i` has the offset `(corner_dx(i), corner_dy(i), corner_dz(i))`.
//! Edges 0..=3 ring the lower face, 4..=7 the upper face, and 8..=11 are the
//! vertical edges joining them.

use vstd::prelude::*;

verus! {

/// Offset of corner `i` along the x axis (0 or 1).
pub open spec fn corner_dx(i: int) -> int {
    if i == 1 || i == 2 || i == 5 || i == 6 {
        1
    } else {
        0
    }
}

/// Offset of corner `i` along the y axis (0 or 1).
pub open spec fn corner_dy(i: int) -> int {
    if i >= 4 {
        1
    } else {
        0
    }
}

/// Offset of corner `i` along the z axis (0 or 1).
pub open spec fn corner_dz(i: int) -> int {
    if i == 0 || i == 1 || i == 4 || i == 5 {
        1
    } else {
        0
    }
}

/// First corner joined by edge `e`.
pub open spec fn edge_corner_a(e: int) -> int {
    if e < 8 {
        e
    } else {
        e - 8
    }
}

/// Second corner joined by edge `e`.
pub open spec fn edge_corner_b(e: int) -> int {
    if e < 4 {
        (e + 1) % 4
    } else if e < 8 {
        4 + ((e + 1) % 4)
    } else {
        e - 4
    }
}

/// First corner joined by edge `e`, as executable code.
pub fn corner_index_a_from_edge(e: usize) -> (c: usize)
    requires
        e < 12,
    ensures
        c == edge_corner_a(e as int),
        c < 8,
{
    if e < 8 {
        e
    } else {
        e - 8
    }
}

/// Second corner joined by edge `e`, as executable code.
pub fn corner_index_b_from_edge(e: usize) -> (c: usize)
    requires
        e < 12,
    ensures
        c == edge_corner_b(e as int),
        c < 8,
{
    if e < 4 {
        (e + 1) % 4
    } else if e < 8 {
        4 + ((e + 1) % 4)
    } else {
        e - 4
    }
}

/// Bit `i` of a configuration code: 1 when corner `i` is above the threshold.
pub open spec fn config_bit(c: int, i: int) -> int {
    if i == 0 {
        c % 2
    } else if i == 1 {
        (c / 2) % 2
    } else if i == 2 {
        (c / 4) % 2
    } else if i == 3 {
        (c / 8) % 2
    } else if i == 4 {
        (c / 16) % 2
    } else if i == 5 {
        (c / 32) % 2
    } else if i == 6 {
        (c / 64) % 2
    } else {
        (c / 128) % 2
    }
}

/// A well-formed row for configuration `c`: whole triangles only (a multiple
/// of 3 entries, at most 5 triangles), every entry a valid edge index, and
/// every listed edge joining a corner above the threshold to a corner at or
/// below it (its two configuration bits differ).
pub open spec fn row_ok(c: int, r: Seq<u8>) -> bool {
    &&& r.len() % 3 == 0
    &&& r.len() <= 15
    &&& (forall|j: int| 0 <= j < r.len() ==> r[j] < 12)
    &&& (forall|j: int|
        0 <= j < r.len() ==> config_bit(c, edge_corner_a(#[trigger] r[j] as int)) != config_bit(
            c,
            edge_corner_b(r[j] as int),
        ))
}

/// The 256-row triangulation table.
pub struct TriangulationTable {
    rows: Vec<Vec<u8>>,
}

impl TriangulationTable {
    /// The row for configuration `c`: the edges crossed by the isosurface,
    /// three per triangle, in emission order.
    pub closed spec fn row(self, c: int) -> Seq<u8> {
        self.rows@[c]@
    }

    /// Well-formedness: 256 rows, each a whole number of triangles over valid
    /// edge indices that separate the corner signs of their configuration;
    /// the two trivial configurations are empty; each single-corner
    /// configuration is one triangle over the three edges incident to that
    /// corner.
    pub closed spec fn wf(self) -> bool {
        &&& self.rows@.len() == 256
        &&& (forall|c: int| 0 <= c < 256 ==> row_ok(c, #[trigger] self.row(c)))
        &&& self.row(0) == Seq::<u8>::empty()
        &&& self.row(255) == Seq::<u8>::empty()
        &&& self.row(1) == seq![0u8, 8u8, 3u8]
        &&& self.row(2) == seq![0u8, 1u8, 9u8]
        &&& self.row(4) == seq![1u8, 2u8, 10u8]
        &&& self.row(8) == seq![3u8, 11u8, 2u8]
        &&& self.row(16) == seq![4u8, 7u8, 8u8]
        &&& self.row(32) == seq![9u8, 5u8, 4u8]
        &&& self.row(64) == seq![10u8, 6u8, 5u8]
        &&& self.row(128) == seq![7u8, 6u8, 11u8]
    }

    /// Builds the standard table.
    pub fn new() -> (t: TriangulationTable)
        ensures
            t.wf(),
    {
        let mut rows = rows_000_031();
        let mut c1 = rows_032_063();
        rows.append(&mut c1);
        let mut c2 = rows_064_095();
        rows.append(&mut c2);
        let mut c3 = rows_096_127();
        rows.append(&mut c3);
        let mut c4 = rows_128_159();
        rows.append(&mut c4);
        let mut c5 = rows_160_191();
        rows.append(&mut c5);
        let mut c6 = rows_192_223();
        rows.append(&mut c6);
        let mut c7 = rows_224_255();
        rows.append(&mut c7);
        let t = TriangulationTable { rows };
        assert forall|c: int| 0 <= c < 256 implies row_ok(c, #[trigger] t.row(c)) by {
        }
        t
    }

    /// The row for configuration `config`, as executable code.
    pub fn row_at(&self, config: usize) -> (r: &Vec<u8>)
        requires
            self.wf(),
            config < 256,
        ensures
            r@ == self.row(config as int),
    {
        &self.rows[config]
    }
}

/// Every row of a well-formed table holds whole triangles: a multiple of 3
/// edge references, each a valid edge index; a trivial (all-in or all-out)
/// configuration has zero entries.
pub proof fn lemma_rows_hold_whole_triangles(t: TriangulationTable)
    requires
        t.wf(),
    ensures
        forall|c: int| 0 <= c < 256 ==> #[trigger] t.row(c).len() % 3 == 0,
        forall|c: int| 0 <= c < 256 ==> t.row(c).len() <= 15,
        forall|c: int, j: int|
            0 <= c < 256 && 0 <= j < t.row(c).len() ==> #[trigger] t.row(c)[j] < 12,
{
}

/// The all-out configuration 0 and the all-in configuration 255 yield no
/// triangles at all.
pub proof fn lemma_trivial_configurations_empty(t: TriangulationTable)
    requires
        t.wf(),
    ensures
        t.row(0).len() == 0,
        t.row(255).len() == 0,
{
}

/// Every edge a well-formed table lists is genuinely crossed: the two corners
/// it joins lie on opposite sides of the threshold in that configuration.
pub proof fn lemma_listed_edges_cross(t: TriangulationTable)
    requires
        t.wf(),
    ensures
        forall|c: int, j: int|
            0 <= c < 256 && 0 <= j < t.row(c).len() ==> config_bit(
                c,
                edge_corner_a(#[trigger] t.row(c)[j] as int),
            ) != config_bit(c, edge_corner_b(t.row(c)[j] as int)),
{
}

/// Every row of a well-formed table satisfies `row_ok` for its own
/// configuration.
pub proof fn lemma_wf_rows_ok(t: TriangulationTable)
    requires
        t.wf(),
    ensures
        forall|c: int| 0 <= c < 256 ==> row_ok(c, #[trigger] t.row(c)),
{
}

/// The exact rows of the eight single-corner configurations: one triangle
/// over the three edges incident to the corner above the threshold.
pub proof fn lemma_single_corner_rows(t: TriangulationTable)
    requires
        t.wf(),
    ensures
        t.row(1) == seq![0u8, 8u8, 3u8],
        t.row(2) == seq![0u8, 1u8, 9u8],
        t.row(4) == seq![1u8, 2u8, 10u8],
        t.row(8) == seq![3u8, 11u8, 2u8],
        t.row(16) == seq![4u8, 7u8, 8u8],
        t.row(32) == seq![9u8, 5u8, 4u8],
        t.row(64) == seq![10u8, 6u8, 5u8],
        t.row(128) == seq![7u8, 6u8, 11u8],
{
}

fn add_row(rows: &mut Vec<Vec<u8>>, r: Vec<u8>, Ghost(base): Ghost<int>)
    requires
        forall|i: int| 0 <= i < old(rows)@.len() ==> row_ok(base + i, old(rows)@[i]@),
        row_ok(base + old(rows)@.len(), r@),
    ensures
        final(rows)@.len() == old(rows)@.len() + 1,
        forall|i: int| 0 <= i < final(rows)@.len() ==> row_ok(base + i, final(rows)@[i]@),
        forall|i: int| 0 <= i < old(rows)@.len() ==> final(rows)@[i]@ == old(rows)@[i]@,
        final(rows)@[old(rows)@.len() as int]@ == r@,
{
    rows.push(r);
}


fn rows_000_031() -> (v: Vec<Vec<u8>>)
    ensures
        v@.len() == 32,
        forall|i: int| 0 <= i < 32 ==> row_ok(0 + i, v@[i]@),
        v@[0]@ == Seq::<u8>::empty(),
        v@[1]@ == seq![0u8, 8u8, 3u8],
        v@[2]@ == seq![0u8, 1u8, 9u8],
        v@[4]@ == seq![1u8, 2u8, 10u8],
        v@[8]@ == seq![3u8, 11u8, 2u8],
        v@[16]@ == seq![4u8, 7u8, 8u8],
{
    let mut v: Vec<Vec<u8>> = Vec::new();
    add_row(&mut v, Vec::new(), Ghost(0));
    add_row(&mut v, vec![0u8, 8u8, 3u8], Ghost(0));
    add_row(&mut v, vec![0u8, 1u8, 9u8], Ghost(0));
    add_row(&mut v, vec![1u8, 8u8, 3u8, 9u8, 8u8, 1u8], Ghost(0));
    add_row(&mut v, vec![1u8, 2u8, 10u8], Ghost(0));
    add_row(&mut v, vec![0u8, 8u8, 3u8, 1u8, 2u8, 10u8], Ghost(0));
    add_row(&mut v, vec![9u8, 2u8, 10u8, 0u8, 2u8, 9u8], Ghost(0));
    add_row(&mut v, vec![2u8, 8u8, 3u8, 2u8, 10u8, 8u8, 10u8, 9u8, 8u8], Ghost(0));
    add_row(&mut v, vec![3u8, 11u8, 2u8], Ghost(0));
    add_row(&mut v, vec![0u8, 11u8, 2u8, 8u8, 11u8, 0u8], Ghost(0));
    add_row(&mut v, vec![1u8, 9u8, 0u8, 2u8, 3u8, 11u8], Ghost(0));
    add_row(&mut v, vec![1u8, 11u8, 2u8, 1u8, 9u8, 11u8, 9u8, 8u8, 11u8], Ghost(0));
    add_row(&mut v, vec![3u8, 10u8, 1u8, 11u8, 10u8, 3u8], Ghost(0));
    add_row(&mut v, vec![0u8, 10u8, 1u8, 0u8, 8u8, 10u8, 8u8, 11u8, 10u8], Ghost(0));
    add_row(&mut v, vec![3u8, 9u8, 0u8, 3u8, 11u8, 9u8, 11u8, 10u8, 9u8], Ghost(0));
    add_row(&mut v, vec![9u8, 8u8, 10u8, 10u8, 8u8, 11u8], Ghost(0));
    add_row(&mut v, vec![4u8, 7u8, 8u8], Ghost(0));
    add_row(&mut v, vec![4u8, 3u8, 0u8, 7u8, 3u8, 4u8], Ghost(0));
    add_row(&mut v, vec![0u8, 1u8, 9u8, 8u8, 4u8, 7u8], Ghost(0));
    add_row(&mut v, vec![4u8, 1u8, 9u8, 4u8, 7u8, 1u8, 7u8, 3u8, 1u8], Ghost(0));
    add_row(&mut v, vec![1u8, 2u8, 10u8, 8u8, 4u8, 7u8], Ghost(0));
    add_row(&mut v, vec![3u8, 4u8, 7u8, 3u8, 0u8, 4u8, 1u8, 2u8, 10u8], Ghost(0));
    add_row(&mut v, vec![9u8, 2u8, 10u8, 9u8, 0u8, 2u8, 8u8, 4u8, 7u8], Ghost(0));
    add_row(&mut v, vec![2u8, 10u8, 9u8, 2u8, 9u8, 7u8, 2u8, 7u8, 3u8, 7u8, 9u8, 4u8], Ghost(0));
    add_row(&mut v, vec![8u8, 4u8, 7u8, 3u8, 11u8, 2u8], Ghost(0));
    add_row(&mut v, vec![11u8, 4u8, 7u8, 11u8, 2u8, 4u8, 2u8, 0u8, 4u8], Ghost(0));
    add_row(&mut v, vec![9u8, 0u8, 1u8, 8u8, 4u8, 7u8, 2u8, 3u8, 11u8], Ghost(0));
    add_row(&mut v, vec![4u8, 7u8, 11u8, 9u8, 4u8, 11u8, 9u8, 11u8, 2u8, 9u8, 2u8, 1u8], Ghost(0));
    add_row(&mut v, vec![3u8, 10u8, 1u8, 3u8, 11u8, 10u8, 7u8, 8u8, 4u8], Ghost(0));
    add_row(&mut v, vec![1u8, 11u8, 10u8, 1u8, 4u8, 11u8, 1u8, 0u8, 4u8, 7u8, 11u8, 4u8], Ghost(0));
    add_row(&mut v, vec![4u8, 7u8, 8u8, 9u8, 0u8, 11u8, 9u8, 11u8, 10u8, 11u8, 0u8, 3u8], Ghost(0));
    add_row(&mut v, vec![4u8, 7u8, 11u8, 4u8, 11u8, 9u8, 9u8, 11u8, 10u8], Ghost(0));
    assert(v@[0]@ =~= Seq::<u8>::empty());
    assert(v@[1]@ =~= seq![0u8, 8u8, 3u8]);
    assert(v@[2]@ =~= seq![0u8, 1u8, 9u8]);
    assert(v@[4]@ =~= seq![1u8, 2u8, 10u8]);
    assert(v@[8]@ =~= seq![3u8, 11u8, 2u8]);
    assert(v@[16]@ =~= seq![4u8, 7u8, 8u8]);
    v
}

fn rows_032_063() -> (v: Vec<Vec<u8>>)
    ensures
        v@.len() == 32,
        forall|i: int| 0 <= i < 32 ==> row_ok(32 + i, v@[i]@),
        v@[0]@ == seq![9u8, 5u8, 4u8],
{
    let mut v: Vec<Vec<u8>> = Vec::new();
    add_row(&mut v, vec![9u8, 5u8, 4u8], Ghost(32));
    add_row(&mut v, vec![9u8, 5u8, 4u8, 0u8, 8u8, 3u8], Ghost(32));
    add_row(&mut v, vec![0u8, 5u8, 4u8, 1u8, 5u8, 0u8], Ghost(32));
    add_row(&mut v, vec![8u8, 5u8, 4u8, 8u8, 3u8, 5u8, 3u8, 1u8, 5u8], Ghost(32));
    add_row(&mut v, vec![1u8, 2u8, 10u8, 9u8, 5u8, 4u8], Ghost(32));
    add_row(&mut v, vec![3u8, 0u8, 8u8, 1u8, 2u8, 10u8, 4u8, 9u8, 5u8], Ghost(32));
    add_row(&mut v, vec![5u8, 2u8, 10u8, 5u8, 4u8, 2u8, 4u8, 0u8, 2u8], Ghost(32));
    add_row(&mut v, vec![2u8, 10u8, 5u8, 3u8, 2u8, 5u8, 3u8, 5u8, 4u8, 3u8, 4u8, 8u8], Ghost(32));
    add_row(&mut v, vec![9u8, 5u8, 4u8, 2u8, 3u8, 11u8], Ghost(32));
    add_row(&mut v, vec![0u8, 11u8, 2u8, 0u8, 8u8, 11u8, 4u8, 9u8, 5u8], Ghost(32));
    add_row(&mut v, vec![0u8, 5u8, 4u8, 0u8, 1u8, 5u8, 2u8, 3u8, 11u8], Ghost(32));
    add_row(&mut v, vec![2u8, 1u8, 5u8, 2u8, 5u8, 8u8, 2u8, 8u8, 11u8, 4u8, 8u8, 5u8], Ghost(32));
    add_row(&mut v, vec![10u8, 3u8, 11u8, 10u8, 1u8, 3u8, 9u8, 5u8, 4u8], Ghost(32));
    add_row(&mut v, vec![4u8, 9u8, 5u8, 0u8, 8u8, 1u8, 8u8, 10u8, 1u8, 8u8, 11u8, 10u8], Ghost(32));
    add_row(&mut v, vec![5u8, 4u8, 0u8, 5u8, 0u8, 11u8, 5u8, 11u8, 10u8, 11u8, 0u8, 3u8], Ghost(32));
    add_row(&mut v, vec![5u8, 4u8, 8u8, 5u8, 8u8, 10u8, 10u8, 8u8, 11u8], Ghost(32));
    add_row(&mut v, vec![9u8, 7u8, 8u8, 5u8, 7u8, 9u8], Ghost(32));
    add_row(&mut v, vec![9u8, 3u8, 0u8, 9u8, 5u8, 3u8, 5u8, 7u8, 3u8], Ghost(32));
    add_row(&mut v, vec![0u8, 7u8, 8u8, 0u8, 1u8, 7u8, 1u8, 5u8, 7u8], Ghost(32));
    add_row(&mut v, vec![1u8, 5u8, 3u8, 3u8, 5u8, 7u8], Ghost(32));
    add_row(&mut v, vec![9u8, 7u8, 8u8, 9u8, 5u8, 7u8, 10u8, 1u8, 2u8], Ghost(32));
    add_row(&mut v, vec![10u8, 1u8, 2u8, 9u8, 5u8, 0u8, 5u8, 3u8, 0u8, 5u8, 7u8, 3u8], Ghost(32));
    add_row(&mut v, vec![8u8, 0u8, 2u8, 8u8, 2u8, 5u8, 8u8, 5u8, 7u8, 10u8, 5u8, 2u8], Ghost(32));
    add_row(&mut v, vec![2u8, 10u8, 5u8, 2u8, 5u8, 3u8, 3u8, 5u8, 7u8], Ghost(32));
    add_row(&mut v, vec![7u8, 9u8, 5u8, 7u8, 8u8, 9u8, 3u8, 11u8, 2u8], Ghost(32));
    add_row(&mut v, vec![9u8, 5u8, 7u8, 9u8, 7u8, 2u8, 9u8, 2u8, 0u8, 2u8, 7u8, 11u8], Ghost(32));
    add_row(&mut v, vec![2u8, 3u8, 11u8, 0u8, 1u8, 8u8, 1u8, 7u8, 8u8, 1u8, 5u8, 7u8], Ghost(32));
    add_row(&mut v, vec![11u8, 2u8, 1u8, 11u8, 1u8, 7u8, 7u8, 1u8, 5u8], Ghost(32));
    add_row(&mut v, vec![9u8, 5u8, 8u8, 8u8, 5u8, 7u8, 10u8, 1u8, 3u8, 10u8, 3u8, 11u8], Ghost(32));
    add_row(&mut v, vec![5u8, 7u8, 0u8, 5u8, 0u8, 9u8, 7u8, 11u8, 0u8, 1u8, 0u8, 10u8, 11u8, 10u8, 0u8], Ghost(32));
    add_row(&mut v, vec![11u8, 10u8, 0u8, 11u8, 0u8, 3u8, 10u8, 5u8, 0u8, 8u8, 0u8, 7u8, 5u8, 7u8, 0u8], Ghost(32));
    add_row(&mut v, vec![11u8, 10u8, 5u8, 7u8, 11u8, 5u8], Ghost(32));
    assert(v@[0]@ =~= seq![9u8, 5u8, 4u8]);
    v
}

fn rows_064_095() -> (v: Vec<Vec<u8>>)
    ensures
        v@.len() == 32,
        forall|i: int| 0 <= i < 32 ==> row_ok(64 + i, v@[i]@),
        v@[0]@ == seq![10u8, 6u8, 5u8],
{
    let mut v: Vec<Vec<u8>> = Vec::new();
    add_row(&mut v, vec![10u8, 6u8, 5u8], Ghost(64));
    add_row(&mut v, vec![0u8, 8u8, 3u8, 5u8, 10u8, 6u8], Ghost(64));
    add_row(&mut v, vec![9u8, 0u8, 1u8, 5u8, 10u8, 6u8], Ghost(64));
    add_row(&mut v, vec![1u8, 8u8, 3u8, 1u8, 9u8, 8u8, 5u8, 10u8, 6u8], Ghost(64));
    add_row(&mut v, vec![1u8, 6u8, 5u8, 2u8, 6u8, 1u8], Ghost(64));
    add_row(&mut v, vec![1u8, 6u8, 5u8, 1u8, 2u8, 6u8, 3u8, 0u8, 8u8], Ghost(64));
    add_row(&mut v, vec![9u8, 6u8, 5u8, 9u8, 0u8, 6u8, 0u8, 2u8, 6u8], Ghost(64));
    add_row(&mut v, vec![5u8, 9u8, 8u8, 5u8, 8u8, 2u8, 5u8, 2u8, 6u8, 3u8, 2u8, 8u8], Ghost(64));
    add_row(&mut v, vec![2u8, 3u8, 11u8, 10u8, 6u8, 5u8], Ghost(64));
    add_row(&mut v, vec![11u8, 0u8, 8u8, 11u8, 2u8, 0u8, 10u8, 6u8, 5u8], Ghost(64));
    add_row(&mut v, vec![0u8, 1u8, 9u8, 2u8, 3u8, 11u8, 5u8, 10u8, 6u8], Ghost(64));
    add_row(&mut v, vec![5u8, 10u8, 6u8, 1u8, 9u8, 2u8, 9u8, 11u8, 2u8, 9u8, 8u8, 11u8], Ghost(64));
    add_row(&mut v, vec![6u8, 3u8, 11u8, 6u8, 5u8, 3u8, 5u8, 1u8, 3u8], Ghost(64));
    add_row(&mut v, vec![0u8, 8u8, 11u8, 0u8, 11u8, 5u8, 0u8, 5u8, 1u8, 5u8, 11u8, 6u8], Ghost(64));
    add_row(&mut v, vec![3u8, 11u8, 6u8, 0u8, 3u8, 6u8, 0u8, 6u8, 5u8, 0u8, 5u8, 9u8], Ghost(64));
    add_row(&mut v, vec![6u8, 5u8, 9u8, 6u8, 9u8, 11u8, 11u8, 9u8, 8u8], Ghost(64));
    add_row(&mut v, vec![5u8, 10u8, 6u8, 4u8, 7u8, 8u8], Ghost(64));
    add_row(&mut v, vec![4u8, 3u8, 0u8, 4u8, 7u8, 3u8, 6u8, 5u8, 10u8], Ghost(64));
    add_row(&mut v, vec![1u8, 9u8, 0u8, 5u8, 10u8, 6u8, 8u8, 4u8, 7u8], Ghost(64));
    add_row(&mut v, vec![10u8, 6u8, 5u8, 1u8, 9u8, 7u8, 1u8, 7u8, 3u8, 7u8, 9u8, 4u8], Ghost(64));
    add_row(&mut v, vec![6u8, 1u8, 2u8, 6u8, 5u8, 1u8, 4u8, 7u8, 8u8], Ghost(64));
    add_row(&mut v, vec![1u8, 2u8, 5u8, 5u8, 2u8, 6u8, 3u8, 0u8, 4u8, 3u8, 4u8, 7u8], Ghost(64));
    add_row(&mut v, vec![8u8, 4u8, 7u8, 9u8, 0u8, 5u8, 0u8, 6u8, 5u8, 0u8, 2u8, 6u8], Ghost(64));
    add_row(&mut v, vec![7u8, 3u8, 9u8, 7u8, 9u8, 4u8, 3u8, 2u8, 9u8, 5u8, 9u8, 6u8, 2u8, 6u8, 9u8], Ghost(64));
    add_row(&mut v, vec![3u8, 11u8, 2u8, 7u8, 8u8, 4u8, 10u8, 6u8, 5u8], Ghost(64));
    add_row(&mut v, vec![5u8, 10u8, 6u8, 4u8, 7u8, 2u8, 4u8, 2u8, 0u8, 2u8, 7u8, 11u8], Ghost(64));
    add_row(&mut v, vec![0u8, 1u8, 9u8, 4u8, 7u8, 8u8, 2u8, 3u8, 11u8, 5u8, 10u8, 6u8], Ghost(64));
    add_row(&mut v, vec![9u8, 2u8, 1u8, 9u8, 11u8, 2u8, 9u8, 4u8, 11u8, 7u8, 11u8, 4u8, 5u8, 10u8, 6u8], Ghost(64));
    add_row(&mut v, vec![8u8, 4u8, 7u8, 3u8, 11u8, 5u8, 3u8, 5u8, 1u8, 5u8, 11u8, 6u8], Ghost(64));
    add_row(&mut v, vec![5u8, 1u8, 11u8, 5u8, 11u8, 6u8, 1u8, 0u8, 11u8, 7u8, 11u8, 4u8, 0u8, 4u8, 11u8], Ghost(64));
    add_row(&mut v, vec![0u8, 5u8, 9u8, 0u8, 6u8, 5u8, 0u8, 3u8, 6u8, 11u8, 6u8, 3u8, 8u8, 4u8, 7u8], Ghost(64));
    add_row(&mut v, vec![6u8, 5u8, 9u8, 6u8, 9u8, 11u8, 4u8, 7u8, 9u8, 7u8, 11u8, 9u8], Ghost(64));
    assert(v@[0]@ =~= seq![10u8, 6u8, 5u8]);
    v
}

fn rows_096_127() -> (v: Vec<Vec<u8>>)
    ensures
        v@.len() == 32,
        forall|i: int| 0 <= i < 32 ==> row_ok(96 + i, v@[i]@),
{
    let mut v: Vec<Vec<u8>> = Vec::new();
    add_row(&mut v, vec![10u8, 4u8, 9u8, 6u8, 4u8, 10u8], Ghost(96));
    add_row(&mut v, vec![4u8, 10u8, 6u8, 4u8, 9u8, 10u8, 0u8, 8u8, 3u8], Ghost(96));
    add_row(&mut v, vec![10u8, 0u8, 1u8, 10u8, 6u8, 0u8, 6u8, 4u8, 0u8], Ghost(96));
    add_row(&mut v, vec![8u8, 3u8, 1u8, 8u8, 1u8, 6u8, 8u8, 6u8, 4u8, 6u8, 1u8, 10u8], Ghost(96));
    add_row(&mut v, vec![1u8, 4u8, 9u8, 1u8, 2u8, 4u8, 2u8, 6u8, 4u8], Ghost(96));
    add_row(&mut v, vec![3u8, 0u8, 8u8, 1u8, 2u8, 9u8, 2u8, 4u8, 9u8, 2u8, 6u8, 4u8], Ghost(96));
    add_row(&mut v, vec![0u8, 2u8, 4u8, 4u8, 2u8, 6u8], Ghost(96));
    add_row(&mut v, vec![8u8, 3u8, 2u8, 8u8, 2u8, 4u8, 4u8, 2u8, 6u8], Ghost(96));
    add_row(&mut v, vec![10u8, 4u8, 9u8, 10u8, 6u8, 4u8, 11u8, 2u8, 3u8], Ghost(96));
    add_row(&mut v, vec![0u8, 8u8, 2u8, 2u8, 8u8, 11u8, 4u8, 9u8, 10u8, 4u8, 10u8, 6u8], Ghost(96));
    add_row(&mut v, vec![3u8, 11u8, 2u8, 0u8, 1u8, 6u8, 0u8, 6u8, 4u8, 6u8, 1u8, 10u8], Ghost(96));
    add_row(&mut v, vec![6u8, 4u8, 1u8, 6u8, 1u8, 10u8, 4u8, 8u8, 1u8, 2u8, 1u8, 11u8, 8u8, 11u8, 1u8], Ghost(96));
    add_row(&mut v, vec![9u8, 6u8, 4u8, 9u8, 3u8, 6u8, 9u8, 1u8, 3u8, 11u8, 6u8, 3u8], Ghost(96));
    add_row(&mut v, vec![8u8, 11u8, 1u8, 8u8, 1u8, 0u8, 11u8, 6u8, 1u8, 9u8, 1u8, 4u8, 6u8, 4u8, 1u8], Ghost(96));
    add_row(&mut v, vec![3u8, 11u8, 6u8, 3u8, 6u8, 0u8, 0u8, 6u8, 4u8], Ghost(96));
    add_row(&mut v, vec![6u8, 4u8, 8u8, 11u8, 6u8, 8u8], Ghost(96));
    add_row(&mut v, vec![7u8, 10u8, 6u8, 7u8, 8u8, 10u8, 8u8, 9u8, 10u8], Ghost(96));
    add_row(&mut v, vec![0u8, 7u8, 3u8, 0u8, 10u8, 7u8, 0u8, 9u8, 10u8, 6u8, 7u8, 10u8], Ghost(96));
    add_row(&mut v, vec![10u8, 6u8, 7u8, 1u8, 10u8, 7u8, 1u8, 7u8, 8u8, 1u8, 8u8, 0u8], Ghost(96));
    add_row(&mut v, vec![10u8, 6u8, 7u8, 10u8, 7u8, 1u8, 1u8, 7u8, 3u8], Ghost(96));
    add_row(&mut v, vec![1u8, 2u8, 6u8, 1u8, 6u8, 8u8, 1u8, 8u8, 9u8, 8u8, 6u8, 7u8], Ghost(96));
    add_row(&mut v, vec![2u8, 6u8, 9u8, 2u8, 9u8, 1u8, 6u8, 7u8, 9u8, 0u8, 9u8, 3u8, 7u8, 3u8, 9u8], Ghost(96));
    add_row(&mut v, vec![7u8, 8u8, 0u8, 7u8, 0u8, 6u8, 6u8, 0u8, 2u8], Ghost(96));
    add_row(&mut v, vec![7u8, 3u8, 2u8, 6u8, 7u8, 2u8], Ghost(96));
    add_row(&mut v, vec![2u8, 3u8, 11u8, 10u8, 6u8, 8u8, 10u8, 8u8, 9u8, 8u8, 6u8, 7u8], Ghost(96));
    add_row(&mut v, vec![2u8, 0u8, 7u8, 2u8, 7u8, 11u8, 0u8, 9u8, 7u8, 6u8, 7u8, 10u8, 9u8, 10u8, 7u8], Ghost(96));
    add_row(&mut v, vec![1u8, 8u8, 0u8, 1u8, 7u8, 8u8, 1u8, 10u8, 7u8, 6u8, 7u8, 10u8, 2u8, 3u8, 11u8], Ghost(96));
    add_row(&mut v, vec![11u8, 2u8, 1u8, 11u8, 1u8, 7u8, 10u8, 6u8, 1u8, 6u8, 7u8, 1u8], Ghost(96));
    add_row(&mut v, vec![8u8, 9u8, 6u8, 8u8, 6u8, 7u8, 9u8, 1u8, 6u8, 11u8, 6u8, 3u8, 1u8, 3u8, 6u8], Ghost(96));
    add_row(&mut v, vec![0u8, 9u8, 1u8, 11u8, 6u8, 7u8], Ghost(96));
    add_row(&mut v, vec![7u8, 8u8, 0u8, 7u8, 0u8, 6u8, 3u8, 11u8, 0u8, 11u8, 6u8, 0u8], Ghost(96));
    add_row(&mut v, vec![7u8, 11u8, 6u8], Ghost(96));
    v
}

fn rows_128_159() -> (v: Vec<Vec<u8>>)
    ensures
        v@.len() == 32,
        forall|i: int| 0 <= i < 32 ==> row_ok(128 + i, v@[i]@),
        v@[0]@ == seq![7u8, 6u8, 11u8],
{
    let mut v: Vec<Vec<u8>> = Vec::new();
    add_row(&mut v, vec![7u8, 6u8, 11u8], Ghost(128));
    add_row(&mut v, vec![3u8, 0u8, 8u8, 11u8, 7u8, 6u8], Ghost(128));
    add_row(&mut v, vec![0u8, 1u8, 9u8, 11u8, 7u8, 6u8], Ghost(128));
    add_row(&mut v, vec![8u8, 1u8, 9u8, 8u8, 3u8, 1u8, 11u8, 7u8, 6u8], Ghost(128));
    add_row(&mut v, vec![10u8, 1u8, 2u8, 6u8, 11u8, 7u8], Ghost(128));
    add_row(&mut v, vec![1u8, 2u8, 10u8, 3u8, 0u8, 8u8, 6u8, 11u8, 7u8], Ghost(128));
    add_row(&mut v, vec![2u8, 9u8, 0u8, 2u8, 10u8, 9u8, 6u8, 11u8, 7u8], Ghost(128));
    add_row(&mut v, vec![6u8, 11u8, 7u8, 2u8, 10u8, 3u8, 10u8, 8u8, 3u8, 10u8, 9u8, 8u8], Ghost(128));
    add_row(&mut v, vec![7u8, 2u8, 3u8, 6u8, 2u8, 7u8], Ghost(128));
    add_row(&mut v, vec![7u8, 0u8, 8u8, 7u8, 6u8, 0u8, 6u8, 2u8, 0u8], Ghost(128));
    add_row(&mut v, vec![2u8, 7u8, 6u8, 2u8, 3u8, 7u8, 0u8, 1u8, 9u8], Ghost(128));
    add_row(&mut v, vec![1u8, 6u8, 2u8, 1u8, 8u8, 6u8, 1u8, 9u8, 8u8, 8u8, 7u8, 6u8], Ghost(128));
    add_row(&mut v, vec![10u8, 7u8, 6u8, 10u8, 1u8, 7u8, 1u8, 3u8, 7u8], Ghost(128));
    add_row(&mut v, vec![10u8, 7u8, 6u8, 1u8, 7u8, 10u8, 1u8, 8u8, 7u8, 1u8, 0u8, 8u8], Ghost(128));
    add_row(&mut v, vec![0u8, 3u8, 7u8, 0u8, 7u8, 10u8, 0u8, 10u8, 9u8, 6u8, 10u8, 7u8], Ghost(128));
    add_row(&mut v, vec![7u8, 6u8, 10u8, 7u8, 10u8, 8u8, 8u8, 10u8, 9u8], Ghost(128));
    add_row(&mut v, vec![6u8, 8u8, 4u8, 11u8, 8u8, 6u8], Ghost(128));
    add_row(&mut v, vec![3u8, 6u8, 11u8, 3u8, 0u8, 6u8, 0u8, 4u8, 6u8], Ghost(128));
    add_row(&mut v, vec![8u8, 6u8, 11u8, 8u8, 4u8, 6u8, 9u8, 0u8, 1u8], Ghost(128));
    add_row(&mut v, vec![9u8, 4u8, 6u8, 9u8, 6u8, 3u8, 9u8, 3u8, 1u8, 11u8, 3u8, 6u8], Ghost(128));
    add_row(&mut v, vec![6u8, 8u8, 4u8, 6u8, 11u8, 8u8, 2u8, 10u8, 1u8], Ghost(128));
    add_row(&mut v, vec![1u8, 2u8, 10u8, 3u8, 0u8, 11u8, 0u8, 6u8, 11u8, 0u8, 4u8, 6u8], Ghost(128));
    add_row(&mut v, vec![4u8, 11u8, 8u8, 4u8, 6u8, 11u8, 0u8, 2u8, 9u8, 2u8, 10u8, 9u8], Ghost(128));
    add_row(&mut v, vec![10u8, 9u8, 3u8, 10u8, 3u8, 2u8, 9u8, 4u8, 3u8, 11u8, 3u8, 6u8, 4u8, 6u8, 3u8], Ghost(128));
    add_row(&mut v, vec![8u8, 2u8, 3u8, 8u8, 4u8, 2u8, 4u8, 6u8, 2u8], Ghost(128));
    add_row(&mut v, vec![0u8, 4u8, 2u8, 4u8, 6u8, 2u8], Ghost(128));
    add_row(&mut v, vec![1u8, 9u8, 0u8, 2u8, 3u8, 4u8, 2u8, 4u8, 6u8, 4u8, 3u8, 8u8], Ghost(128));
    add_row(&mut v, vec![1u8, 9u8, 4u8, 1u8, 4u8, 2u8, 2u8, 4u8, 6u8], Ghost(128));
    add_row(&mut v, vec![8u8, 1u8, 3u8, 8u8, 6u8, 1u8, 8u8, 4u8, 6u8, 6u8, 10u8, 1u8], Ghost(128));
    add_row(&mut v, vec![10u8, 1u8, 0u8, 10u8, 0u8, 6u8, 6u8, 0u8, 4u8], Ghost(128));
    add_row(&mut v, vec![4u8, 6u8, 3u8, 4u8, 3u8, 8u8, 6u8, 10u8, 3u8, 0u8, 3u8, 9u8, 10u8, 9u8, 3u8], Ghost(128));
    add_row(&mut v, vec![10u8, 9u8, 4u8, 6u8, 10u8, 4u8], Ghost(128));
    assert(v@[0]@ =~= seq![7u8, 6u8, 11u8]);
    v
}

fn rows_160_191() -> (v: Vec<Vec<u8>>)
    ensures
        v@.len() == 32,
        forall|i: int| 0 <= i < 32 ==> row_ok(160 + i, v@[i]@),
{
    let mut v: Vec<Vec<u8>> = Vec::new();
    add_row(&mut v, vec![4u8, 9u8, 5u8, 7u8, 6u8, 11u8], Ghost(160));
    add_row(&mut v, vec![0u8, 8u8, 3u8, 4u8, 9u8, 5u8, 11u8, 7u8, 6u8], Ghost(160));
    add_row(&mut v, vec![5u8, 0u8, 1u8, 5u8, 4u8, 0u8, 7u8, 6u8, 11u8], Ghost(160));
    add_row(&mut v, vec![11u8, 7u8, 6u8, 8u8, 3u8, 4u8, 3u8, 5u8, 4u8, 3u8, 1u8, 5u8], Ghost(160));
    add_row(&mut v, vec![9u8, 5u8, 4u8, 10u8, 1u8, 2u8, 7u8, 6u8, 11u8], Ghost(160));
    add_row(&mut v, vec![6u8, 11u8, 7u8, 1u8, 2u8, 10u8, 0u8, 8u8, 3u8, 4u8, 9u8, 5u8], Ghost(160));
    add_row(&mut v, vec![7u8, 6u8, 11u8, 5u8, 4u8, 10u8, 4u8, 2u8, 10u8, 4u8, 0u8, 2u8], Ghost(160));
    add_row(&mut v, vec![3u8, 4u8, 8u8, 3u8, 5u8, 4u8, 3u8, 2u8, 5u8, 10u8, 5u8, 2u8, 11u8, 7u8, 6u8], Ghost(160));
    add_row(&mut v, vec![7u8, 2u8, 3u8, 7u8, 6u8, 2u8, 5u8, 4u8, 9u8], Ghost(160));
    add_row(&mut v, vec![9u8, 5u8, 4u8, 0u8, 8u8, 6u8, 0u8, 6u8, 2u8, 6u8, 8u8, 7u8], Ghost(160));
    add_row(&mut v, vec![3u8, 6u8, 2u8, 3u8, 7u8, 6u8, 1u8, 5u8, 0u8, 5u8, 4u8, 0u8], Ghost(160));
    add_row(&mut v, vec![6u8, 2u8, 8u8, 6u8, 8u8, 7u8, 2u8, 1u8, 8u8, 4u8, 8u8, 5u8, 1u8, 5u8, 8u8], Ghost(160));
    add_row(&mut v, vec![9u8, 5u8, 4u8, 10u8, 1u8, 6u8, 1u8, 7u8, 6u8, 1u8, 3u8, 7u8], Ghost(160));
    add_row(&mut v, vec![1u8, 6u8, 10u8, 1u8, 7u8, 6u8, 1u8, 0u8, 7u8, 8u8, 7u8, 0u8, 9u8, 5u8, 4u8], Ghost(160));
    add_row(&mut v, vec![4u8, 0u8, 10u8, 4u8, 10u8, 5u8, 0u8, 3u8, 10u8, 6u8, 10u8, 7u8, 3u8, 7u8, 10u8], Ghost(160));
    add_row(&mut v, vec![7u8, 6u8, 10u8, 7u8, 10u8, 8u8, 5u8, 4u8, 10u8, 4u8, 8u8, 10u8], Ghost(160));
    add_row(&mut v, vec![6u8, 9u8, 5u8, 6u8, 11u8, 9u8, 11u8, 8u8, 9u8], Ghost(160));
    add_row(&mut v, vec![3u8, 6u8, 11u8, 0u8, 6u8, 3u8, 0u8, 5u8, 6u8, 0u8, 9u8, 5u8], Ghost(160));
    add_row(&mut v, vec![0u8, 11u8, 8u8, 0u8, 5u8, 11u8, 0u8, 1u8, 5u8, 5u8, 6u8, 11u8], Ghost(160));
    add_row(&mut v, vec![6u8, 11u8, 3u8, 6u8, 3u8, 5u8, 5u8, 3u8, 1u8], Ghost(160));
    add_row(&mut v, vec![1u8, 2u8, 10u8, 9u8, 5u8, 11u8, 9u8, 11u8, 8u8, 11u8, 5u8, 6u8], Ghost(160));
    add_row(&mut v, vec![0u8, 11u8, 3u8, 0u8, 6u8, 11u8, 0u8, 9u8, 6u8, 5u8, 6u8, 9u8, 1u8, 2u8, 10u8], Ghost(160));
    add_row(&mut v, vec![11u8, 8u8, 5u8, 11u8, 5u8, 6u8, 8u8, 0u8, 5u8, 10u8, 5u8, 2u8, 0u8, 2u8, 5u8], Ghost(160));
    add_row(&mut v, vec![6u8, 11u8, 3u8, 6u8, 3u8, 5u8, 2u8, 10u8, 3u8, 10u8, 5u8, 3u8], Ghost(160));
    add_row(&mut v, vec![5u8, 8u8, 9u8, 5u8, 2u8, 8u8, 5u8, 6u8, 2u8, 3u8, 8u8, 2u8], Ghost(160));
    add_row(&mut v, vec![9u8, 5u8, 6u8, 9u8, 6u8, 0u8, 0u8, 6u8, 2u8], Ghost(160));
    add_row(&mut v, vec![1u8, 5u8, 8u8, 1u8, 8u8, 0u8, 5u8, 6u8, 8u8, 3u8, 8u8, 2u8, 6u8, 2u8, 8u8], Ghost(160));
    add_row(&mut v, vec![1u8, 5u8, 6u8, 2u8, 1u8, 6u8], Ghost(160));
    add_row(&mut v, vec![1u8, 3u8, 6u8, 1u8, 6u8, 10u8, 3u8, 8u8, 6u8, 5u8, 6u8, 9u8, 8u8, 9u8, 6u8], Ghost(160));
    add_row(&mut v, vec![10u8, 1u8, 0u8, 10u8, 0u8, 6u8, 9u8, 5u8, 0u8, 5u8, 6u8, 0u8], Ghost(160));
    add_row(&mut v, vec![0u8, 3u8, 8u8, 5u8, 6u8, 10u8], Ghost(160));
    add_row(&mut v, vec![10u8, 5u8, 6u8], Ghost(160));
    v
}

fn rows_192_223() -> (v: Vec<Vec<u8>>)
    ensures
        v@.len() == 32,
        forall|i: int| 0 <= i < 32 ==> row_ok(192 + i, v@[i]@),
{
    let mut v: Vec<Vec<u8>> = Vec::new();
    add_row(&mut v, vec![11u8, 5u8, 10u8, 7u8, 5u8, 11u8], Ghost(192));
    add_row(&mut v, vec![11u8, 5u8, 10u8, 11u8, 7u8, 5u8, 8u8, 3u8, 0u8], Ghost(192));
    add_row(&mut v, vec![5u8, 11u8, 7u8, 5u8, 10u8, 11u8, 1u8, 9u8, 0u8], Ghost(192));
    add_row(&mut v, vec![10u8, 7u8, 5u8, 10u8, 11u8, 7u8, 9u8, 8u8, 1u8, 8u8, 3u8, 1u8], Ghost(192));
    add_row(&mut v, vec![11u8, 1u8, 2u8, 11u8, 7u8, 1u8, 7u8, 5u8, 1u8], Ghost(192));
    add_row(&mut v, vec![0u8, 8u8, 3u8, 1u8, 2u8, 7u8, 1u8, 7u8, 5u8, 7u8, 2u8, 11u8], Ghost(192));
    add_row(&mut v, vec![9u8, 7u8, 5u8, 9u8, 2u8, 7u8, 9u8, 0u8, 2u8, 2u8, 11u8, 7u8], Ghost(192));
    add_row(&mut v, vec![7u8, 5u8, 2u8, 7u8, 2u8, 11u8, 5u8, 9u8, 2u8, 3u8, 2u8, 8u8, 9u8, 8u8, 2u8], Ghost(192));
    add_row(&mut v, vec![2u8, 5u8, 10u8, 2u8, 3u8, 5u8, 3u8, 7u8, 5u8], Ghost(192));
    add_row(&mut v, vec![8u8, 2u8, 0u8, 8u8, 5u8, 2u8, 8u8, 7u8, 5u8, 10u8, 2u8, 5u8], Ghost(192));
    add_row(&mut v, vec![9u8, 0u8, 1u8, 5u8, 10u8, 3u8, 5u8, 3u8, 7u8, 3u8, 10u8, 2u8], Ghost(192));
    add_row(&mut v, vec![9u8, 8u8, 2u8, 9u8, 2u8, 1u8, 8u8, 7u8, 2u8, 10u8, 2u8, 5u8, 7u8, 5u8, 2u8], Ghost(192));
    add_row(&mut v, vec![1u8, 3u8, 5u8, 3u8, 7u8, 5u8], Ghost(192));
    add_row(&mut v, vec![0u8, 8u8, 7u8, 0u8, 7u8, 1u8, 1u8, 7u8, 5u8], Ghost(192));
    add_row(&mut v, vec![9u8, 0u8, 3u8, 9u8, 3u8, 5u8, 5u8, 3u8, 7u8], Ghost(192));
    add_row(&mut v, vec![9u8, 8u8, 7u8, 5u8, 9u8, 7u8], Ghost(192));
    add_row(&mut v, vec![5u8, 8u8, 4u8, 5u8, 10u8, 8u8, 10u8, 11u8, 8u8], Ghost(192));
    add_row(&mut v, vec![5u8, 0u8, 4u8, 5u8, 11u8, 0u8, 5u8, 10u8, 11u8, 11u8, 3u8, 0u8], Ghost(192));
    add_row(&mut v, vec![0u8, 1u8, 9u8, 8u8, 4u8, 10u8, 8u8, 10u8, 11u8, 10u8, 4u8, 5u8], Ghost(192));
    add_row(&mut v, vec![10u8, 11u8, 4u8, 10u8, 4u8, 5u8, 11u8, 3u8, 4u8, 9u8, 4u8, 1u8, 3u8, 1u8, 4u8], Ghost(192));
    add_row(&mut v, vec![2u8, 5u8, 1u8, 2u8, 8u8, 5u8, 2u8, 11u8, 8u8, 4u8, 5u8, 8u8], Ghost(192));
    add_row(&mut v, vec![0u8, 4u8, 11u8, 0u8, 11u8, 3u8, 4u8, 5u8, 11u8, 2u8, 11u8, 1u8, 5u8, 1u8, 11u8], Ghost(192));
    add_row(&mut v, vec![0u8, 2u8, 5u8, 0u8, 5u8, 9u8, 2u8, 11u8, 5u8, 4u8, 5u8, 8u8, 11u8, 8u8, 5u8], Ghost(192));
    add_row(&mut v, vec![9u8, 4u8, 5u8, 2u8, 11u8, 3u8], Ghost(192));
    add_row(&mut v, vec![2u8, 5u8, 10u8, 3u8, 5u8, 2u8, 3u8, 4u8, 5u8, 3u8, 8u8, 4u8], Ghost(192));
    add_row(&mut v, vec![5u8, 10u8, 2u8, 5u8, 2u8, 4u8, 4u8, 2u8, 0u8], Ghost(192));
    add_row(&mut v, vec![3u8, 10u8, 2u8, 3u8, 5u8, 10u8, 3u8, 8u8, 5u8, 4u8, 5u8, 8u8, 0u8, 1u8, 9u8], Ghost(192));
    add_row(&mut v, vec![5u8, 10u8, 2u8, 5u8, 2u8, 4u8, 1u8, 9u8, 2u8, 9u8, 4u8, 2u8], Ghost(192));
    add_row(&mut v, vec![8u8, 4u8, 5u8, 8u8, 5u8, 3u8, 3u8, 5u8, 1u8], Ghost(192));
    add_row(&mut v, vec![0u8, 4u8, 5u8, 1u8, 0u8, 5u8], Ghost(192));
    add_row(&mut v, vec![8u8, 4u8, 5u8, 8u8, 5u8, 3u8, 9u8, 0u8, 5u8, 0u8, 3u8, 5u8], Ghost(192));
    add_row(&mut v, vec![9u8, 4u8, 5u8], Ghost(192));
    v
}

fn rows_224_255() -> (v: Vec<Vec<u8>>)
    ensures
        v@.len() == 32,
        forall|i: int| 0 <= i < 32 ==> row_ok(224 + i, v@[i]@),
        v@[31]@ == Seq::<u8>::empty(),
{
    let mut v: Vec<Vec<u8>> = Vec::new();
    add_row(&mut v, vec![4u8, 11u8, 7u8, 4u8, 9u8, 11u8, 9u8, 10u8, 11u8], Ghost(224));
    add_row(&mut v, vec![0u8, 8u8, 3u8, 4u8, 9u8, 7u8, 9u8, 11u8, 7u8, 9u8, 10u8, 11u8], Ghost(224));
    add_row(&mut v, vec![1u8, 10u8, 11u8, 1u8, 11u8, 4u8, 1u8, 4u8, 0u8, 7u8, 4u8, 11u8], Ghost(224));
    add_row(&mut v, vec![3u8, 1u8, 4u8, 3u8, 4u8, 8u8, 1u8, 10u8, 4u8, 7u8, 4u8, 11u8, 10u8, 11u8, 4u8], Ghost(224));
    add_row(&mut v, vec![4u8, 11u8, 7u8, 9u8, 11u8, 4u8, 9u8, 2u8, 11u8, 9u8, 1u8, 2u8], Ghost(224));
    add_row(&mut v, vec![9u8, 7u8, 4u8, 9u8, 11u8, 7u8, 9u8, 1u8, 11u8, 2u8, 11u8, 1u8, 0u8, 8u8, 3u8], Ghost(224));
    add_row(&mut v, vec![11u8, 7u8, 4u8, 11u8, 4u8, 2u8, 2u8, 4u8, 0u8], Ghost(224));
    add_row(&mut v, vec![11u8, 7u8, 4u8, 11u8, 4u8, 2u8, 8u8, 3u8, 4u8, 3u8, 2u8, 4u8], Ghost(224));
    add_row(&mut v, vec![2u8, 9u8, 10u8, 2u8, 7u8, 9u8, 2u8, 3u8, 7u8, 7u8, 4u8, 9u8], Ghost(224));
    add_row(&mut v, vec![9u8, 10u8, 7u8, 9u8, 7u8, 4u8, 10u8, 2u8, 7u8, 8u8, 7u8, 0u8, 2u8, 0u8, 7u8], Ghost(224));
    add_row(&mut v, vec![3u8, 7u8, 10u8, 3u8, 10u8, 2u8, 7u8, 4u8, 10u8, 1u8, 10u8, 0u8, 4u8, 0u8, 10u8], Ghost(224));
    add_row(&mut v, vec![1u8, 10u8, 2u8, 8u8, 7u8, 4u8], Ghost(224));
    add_row(&mut v, vec![4u8, 9u8, 1u8, 4u8, 1u8, 7u8, 7u8, 1u8, 3u8], Ghost(224));
    add_row(&mut v, vec![4u8, 9u8, 1u8, 4u8, 1u8, 7u8, 0u8, 8u8, 1u8, 8u8, 7u8, 1u8], Ghost(224));
    add_row(&mut v, vec![4u8, 0u8, 3u8, 7u8, 4u8, 3u8], Ghost(224));
    add_row(&mut v, vec![4u8, 8u8, 7u8], Ghost(224));
    add_row(&mut v, vec![9u8, 10u8, 8u8, 10u8, 11u8, 8u8], Ghost(224));
    add_row(&mut v, vec![3u8, 0u8, 9u8, 3u8, 9u8, 11u8, 11u8, 9u8, 10u8], Ghost(224));
    add_row(&mut v, vec![0u8, 1u8, 10u8, 0u8, 10u8, 8u8, 8u8, 10u8, 11u8], Ghost(224));
    add_row(&mut v, vec![3u8, 1u8, 10u8, 11u8, 3u8, 10u8], Ghost(224));
    add_row(&mut v, vec![1u8, 2u8, 11u8, 1u8, 11u8, 9u8, 9u8, 11u8, 8u8], Ghost(224));
    add_row(&mut v, vec![3u8, 0u8, 9u8, 3u8, 9u8, 11u8, 1u8, 2u8, 9u8, 2u8, 11u8, 9u8], Ghost(224));
    add_row(&mut v, vec![0u8, 2u8, 11u8, 8u8, 0u8, 11u8], Ghost(224));
    add_row(&mut v, vec![3u8, 2u8, 11u8], Ghost(224));
    add_row(&mut v, vec![2u8, 3u8, 8u8, 2u8, 8u8, 10u8, 10u8, 8u8, 9u8], Ghost(224));
    add_row(&mut v, vec![9u8, 10u8, 2u8, 0u8, 9u8, 2u8], Ghost(224));
    add_row(&mut v, vec![2u8, 3u8, 8u8, 2u8, 8u8, 10u8, 0u8, 1u8, 8u8, 1u8, 10u8, 8u8], Ghost(224));
    add_row(&mut v, vec![1u8, 10u8, 2u8], Ghost(224));
    add_row(&mut v, vec![1u8, 3u8, 8u8, 9u8, 1u8, 8u8], Ghost(224));
    add_row(&mut v, vec![0u8, 9u8, 1u8], Ghost(224));
    add_row(&mut v, vec![0u8, 3u8, 8u8], Ghost(224));
    add_row(&mut v, Vec::new(), Ghost(224));
    assert(v@[31]@ =~= Seq::<u8>::empty());
    v
}

} // verus!
