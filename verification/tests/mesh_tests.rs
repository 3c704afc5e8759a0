use marching_cubes::SCALE;
use marching_cubes::field::VoxelField;
use marching_cubes::mesh::GeneratedMesh;
use marching_cubes::mesh::Point3;
use marching_cubes::mesh::generate_mesh;
use marching_cubes::mesh::triangle_list;
use marching_cubes::table::TriangulationTable;

fn single_corner_field(hot_value: i64, cold_value: i64) -> VoxelField {
    let mut f = VoxelField::new(2, 2, 2, 0).unwrap();
    for x in 0..2 {
        for y in 0..2 {
            for z in 0..2 {
                f.set(x, y, z, cold_value);
            }
        }
    }
    // grid point (0, 0, 0) is corner 3 of the only cell
    f.set(0, 0, 0, hot_value);
    f
}

fn assert_mesh_shape(mesh: &GeneratedMesh) {
    assert_eq!(mesh.positions.len(), mesh.normals.len());
    assert_eq!(mesh.positions.len(), mesh.scalars.len());
    assert_eq!(mesh.positions.len(), mesh.indices.len());
    assert_eq!(mesh.positions.len() % 3, 0);
    for (i, &idx) in mesh.indices.iter().enumerate() {
        assert_eq!(idx as usize, i);
    }
}

#[test]
fn uniform_field_yields_empty_mesh() {
    let table = TriangulationTable::new();
    let f = VoxelField::new(6, 6, 6, 10).unwrap();
    let mesh = generate_mesh(&f, &table);
    assert!(mesh.positions.is_empty());
    assert!(mesh.normals.is_empty());
    assert!(mesh.scalars.is_empty());
    assert!(mesh.indices.is_empty());
}

#[test]
fn single_corner_cell_emits_one_triangle_of_edge_midpoints() {
    let table = TriangulationTable::new();
    let f = single_corner_field(1, -1);
    let mesh = generate_mesh(&f, &table);
    assert_mesh_shape(&mesh);
    // configuration 8 triangulates edges [3, 11, 2]; densities +1/-1 put
    // every crossing at its edge midpoint
    let expected = [
        Point3 { x: 0, y: 0, z: SCALE / 2 },
        Point3 { x: 0, y: SCALE / 2, z: 0 },
        Point3 { x: SCALE / 2, y: 0, z: 0 },
    ];
    assert_eq!(mesh.positions.len(), 3);
    assert_eq!(mesh.positions.as_slice(), &expected[..]);
    assert_eq!(mesh.scalars.as_slice(), &[1, 1, 1][..]);
    assert_eq!(mesh.indices.as_slice(), &[0, 1, 2][..]);
    // flat normal: (v1 - v0) x (v2 - v0), repeated three times
    let h = SCALE / 2;
    let expected_normal = Point3 { x: -h * h, y: -h * h, z: -h * h };
    for n in mesh.normals.iter() {
        assert_eq!(*n, expected_normal);
    }
    // every vertex lies within the unit cell and on an edge at the hot corner
    for p in mesh.positions.iter() {
        assert!(0 <= p.x && p.x <= SCALE);
        assert!(0 <= p.y && p.y <= SCALE);
        assert!(0 <= p.z && p.z <= SCALE);
    }
}

#[test]
fn interpolation_pulls_crossing_toward_lower_density() {
    let table = TriangulationTable::new();
    // hot corner density 3, cold -1, threshold 0:
    // crossing parameter = SCALE * 3 / 4 of the way toward the cold corner
    let f = single_corner_field(3, -1);
    let mesh = generate_mesh(&f, &table);
    let q = 3 * SCALE / 4;
    let expected = [
        Point3 { x: 0, y: 0, z: q },
        Point3 { x: 0, y: q, z: 0 },
        Point3 { x: q, y: 0, z: 0 },
    ];
    assert_eq!(mesh.positions.as_slice(), &expected[..]);
    assert_eq!(mesh.scalars.as_slice(), &[3, 3, 3][..]);
}

#[test]
fn interpolation_is_monotone_in_the_swept_density() {
    let table = TriangulationTable::new();
    // sweep the hot corner's density down toward the threshold: the
    // crossing slides monotonically back toward the hot corner, with no
    // jump as the surface vanishes
    let mut last_z = SCALE;
    for hot in (1..=20).rev() {
        let f = single_corner_field(hot, -1);
        let mesh = generate_mesh(&f, &table);
        assert_eq!(mesh.positions.len(), 3);
        let zc = mesh.positions[0].z;
        assert!(zc <= last_z);
        last_z = zc;
    }
    let f = single_corner_field(1, -1);
    let mesh = generate_mesh(&f, &table);
    assert_eq!(mesh.positions[0].z, SCALE / 2);
}

#[test]
fn regenerating_unmodified_field_is_identical() {
    let table = TriangulationTable::new();
    let mut f = VoxelField::new(8, 8, 8, 0).unwrap();
    f.fill_plane(4);
    let m1 = generate_mesh(&f, &table);
    let m2 = generate_mesh(&f, &table);
    assert_eq!(m1.positions, m2.positions);
    assert_eq!(m1.normals, m2.normals);
    assert_eq!(m1.scalars, m2.scalars);
    assert_eq!(m1.indices, m2.indices);
}

#[test]
fn flat_plane_yields_horizontal_slab() {
    let table = TriangulationTable::new();
    let mut f = VoxelField::new(8, 8, 8, 0).unwrap();
    f.fill_plane(4);
    let mesh = generate_mesh(&f, &table);
    assert_mesh_shape(&mesh);
    assert!(mesh.positions.len() > 0);
    // the crossing band lies between the sample planes y = 4 and y = 5;
    // equal distances put every vertex exactly halfway
    let band_lo = 4 * SCALE + SCALE / 2;
    let band_hi = 4 * SCALE + SCALE / 2;
    for p in mesh.positions.iter() {
        assert!(band_lo <= p.y && p.y <= band_hi);
    }
    // flat horizontal slab: every normal points straight up or down
    for n in mesh.normals.iter() {
        assert_eq!(n.x, 0);
        assert_eq!(n.z, 0);
        assert_ne!(n.y, 0);
    }
}

#[test]
fn triangle_list_groups_indices_into_triples() {
    let table = TriangulationTable::new();
    let mut f = VoxelField::new(8, 8, 8, 0).unwrap();
    f.fill_plane(4);
    let mesh = generate_mesh(&f, &table);
    let tris = triangle_list(&mesh);
    assert_eq!(tris.len(), mesh.indices.len() / 3);
    for (i, tri) in tris.iter().enumerate() {
        assert_eq!(tri[0] as usize, 3 * i);
        assert_eq!(tri[1] as usize, 3 * i + 1);
        assert_eq!(tri[2] as usize, 3 * i + 2);
    }
}
