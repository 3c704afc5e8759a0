use marching_cubes::SCALE;
use marching_cubes::brush::BrushSign;
use marching_cubes::brush::inside_sphere;
use marching_cubes::field::VoxelField;

#[test]
fn inside_sphere_is_strict_at_the_boundary() {
    // squared distance equal to the squared radius is outside
    assert!(!inside_sphere(0, 0, 0, 256, 256, 0, 0));
    assert!(inside_sphere(0, 0, 0, 257, 256, 0, 0));
    assert!(inside_sphere(0, 0, 0, 1, 0, 0, 0));
    assert!(!inside_sphere(0, 0, 0, 0, 0, 0, 0));
    // 362^2 < 2 * 256^2 < 363^2
    assert!(!inside_sphere(0, 0, 0, 362, 256, 256, 0));
    assert!(inside_sphere(0, 0, 0, 363, 256, 256, 0));
}

#[test]
fn increase_brush_raises_exactly_the_samples_inside() {
    let mut f = VoxelField::new(5, 5, 5, 0).unwrap();
    let c = 2 * SCALE;
    let r = 3 * SCALE / 2;
    f.apply_brush(c, c, c, r, BrushSign::Increase, 10);
    for x in 0..5i64 {
        for y in 0..5i64 {
            for z in 0..5i64 {
                let dx = x * SCALE - c;
                let dy = y * SCALE - c;
                let dz = z * SCALE - c;
                let inside = dx * dx + dy * dy + dz * dz < r * r;
                let expected = if inside { 10 } else { 0 };
                assert_eq!(f.get(x as usize, y as usize, z as usize), expected);
            }
        }
    }
    // spot checks: the centre, a face neighbour and an edge-diagonal
    // neighbour are inside; a cube-diagonal neighbour and the far side are
    // not
    assert_eq!(f.get(2, 2, 2), 10);
    assert_eq!(f.get(1, 2, 2), 10);
    assert_eq!(f.get(1, 1, 2), 10);
    assert_eq!(f.get(1, 1, 1), 0);
    assert_eq!(f.get(0, 2, 2), 0);
}

#[test]
fn brush_reports_whether_any_sample_was_touched() {
    let mut f = VoxelField::new(4, 4, 4, 0).unwrap();
    // a stroke over the grid touches samples
    assert!(f.apply_brush(SCALE, SCALE, SCALE, SCALE / 2, BrushSign::Increase, 1));
    // a stroke far outside the grid touches nothing
    assert!(!f.apply_brush(100 * SCALE, 0, 0, SCALE / 2, BrushSign::Increase, 1));
    // a zero-radius stroke contains no point at all
    assert!(!f.apply_brush(SCALE, SCALE, SCALE, 0, BrushSign::Increase, 1));
}

#[test]
fn decrease_brush_subtracts_the_delta() {
    let mut f = VoxelField::new(3, 3, 3, 0).unwrap();
    let c = SCALE;
    f.apply_brush(c, c, c, SCALE / 2, BrushSign::Decrease, 4);
    assert_eq!(f.get(1, 1, 1), -4);
    assert_eq!(f.get(0, 1, 1), 0);
}

#[test]
fn exact_radius_excludes_the_boundary_sample() {
    let mut f = VoxelField::new(5, 5, 5, 0).unwrap();
    let c = 2 * SCALE;
    // radius exactly one cell: the six face neighbours sit at squared
    // distance equal to the squared radius and stay untouched
    f.apply_brush(c, c, c, SCALE, BrushSign::Increase, 7);
    assert_eq!(f.get(2, 2, 2), 7);
    assert_eq!(f.get(3, 2, 2), 0);
    assert_eq!(f.get(1, 2, 2), 0);
    assert_eq!(f.get(2, 3, 2), 0);
    assert_eq!(f.get(2, 2, 1), 0);
}

#[test]
fn overlapping_edits_accumulate_without_clamping() {
    let mut f = VoxelField::new(3, 3, 3, 0).unwrap();
    let c = SCALE;
    let delta = 1_000_000_000;
    for _ in 0..10 {
        f.apply_brush(c, c, c, SCALE / 2, BrushSign::Increase, delta);
    }
    assert_eq!(f.get(1, 1, 1), 10 * delta);
    f.apply_brush(c, c, c, SCALE / 2, BrushSign::Decrease, 3 * delta);
    assert_eq!(f.get(1, 1, 1), 7 * delta);
}
