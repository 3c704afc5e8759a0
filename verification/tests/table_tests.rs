use marching_cubes::table::TriangulationTable;
use marching_cubes::table::corner_index_a_from_edge;
use marching_cubes::table::corner_index_b_from_edge;

#[test]
fn edge_corner_maps_match_convention() {
    let expect_a = [0usize, 1, 2, 3, 4, 5, 6, 7, 0, 1, 2, 3];
    let expect_b = [1usize, 2, 3, 0, 5, 6, 7, 4, 4, 5, 6, 7];
    for e in 0..12 {
        assert_eq!(corner_index_a_from_edge(e), expect_a[e]);
        assert_eq!(corner_index_b_from_edge(e), expect_b[e]);
    }
}

#[test]
fn trivial_configurations_are_empty() {
    let t = TriangulationTable::new();
    assert!(t.row_at(0).is_empty());
    assert!(t.row_at(255).is_empty());
}

#[test]
fn single_corner_configurations_have_one_triangle() {
    let t = TriangulationTable::new();
    let expected: [(usize, [u8; 3]); 8] = [
        (1, [0, 8, 3]),
        (2, [0, 1, 9]),
        (4, [1, 2, 10]),
        (8, [3, 11, 2]),
        (16, [4, 7, 8]),
        (32, [9, 5, 4]),
        (64, [10, 6, 5]),
        (128, [7, 6, 11]),
    ];
    for (config, row) in expected.iter() {
        assert_eq!(t.row_at(*config).as_slice(), &row[..]);
    }
}

#[test]
fn every_row_holds_whole_triangles() {
    let t = TriangulationTable::new();
    for c in 0..256 {
        let row = t.row_at(c);
        assert_eq!(row.len() % 3, 0, "configuration {}", c);
        assert!(row.len() <= 15, "configuration {}", c);
        for &e in row.iter() {
            assert!(e < 12, "configuration {}", c);
        }
    }
}

#[test]
fn listed_edges_are_exactly_the_crossed_edges() {
    let t = TriangulationTable::new();
    for c in 0..256usize {
        let row = t.row_at(c);
        let mut listed = [false; 12];
        for &e in row.iter() {
            let a = corner_index_a_from_edge(e as usize);
            let b = corner_index_b_from_edge(e as usize);
            let bit_a = (c >> a) & 1;
            let bit_b = (c >> b) & 1;
            assert_ne!(bit_a, bit_b, "configuration {} lists uncrossed edge {}", c, e);
            listed[e as usize] = true;
        }
        for e in 0..12 {
            let a = corner_index_a_from_edge(e);
            let b = corner_index_b_from_edge(e);
            let crossed = ((c >> a) & 1) != ((c >> b) & 1);
            assert_eq!(
                listed[e], crossed,
                "configuration {} and edge {} disagree on crossing",
                c, e
            );
        }
    }
}

#[test]
fn triangles_have_three_distinct_edges() {
    let t = TriangulationTable::new();
    for c in 0..256 {
        let row = t.row_at(c);
        let mut k = 0;
        while k < row.len() {
            let (a, b, d) = (row[k], row[k + 1], row[k + 2]);
            assert!(a != b && b != d && a != d, "configuration {}", c);
            k += 3;
        }
    }
}
