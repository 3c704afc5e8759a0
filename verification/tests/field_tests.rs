use marching_cubes::DENSITY_BOUND;
use marching_cubes::field::FieldError;
use marching_cubes::field::VoxelField;

#[test]
fn new_field_is_zero_filled() {
    let f = VoxelField::new(3, 4, 5, 7).unwrap();
    assert_eq!(f.width(), 3);
    assert_eq!(f.height(), 4);
    assert_eq!(f.length(), 5);
    assert_eq!(f.threshold(), 7);
    for x in 0..3 {
        for y in 0..4 {
            for z in 0..5 {
                assert_eq!(f.get(x, y, z), 0);
            }
        }
    }
}

#[test]
fn zero_dimension_is_rejected() {
    assert_eq!(VoxelField::new(0, 4, 4, 0).unwrap_err(), FieldError::ZeroDimension);
    assert_eq!(VoxelField::new(4, 0, 4, 0).unwrap_err(), FieldError::ZeroDimension);
    assert_eq!(VoxelField::new(4, 4, 0, 0).unwrap_err(), FieldError::ZeroDimension);
}

#[test]
fn oversized_dimension_is_rejected() {
    assert_eq!(VoxelField::new(1025, 1, 1, 0).unwrap_err(), FieldError::DimensionTooLarge);
    assert_eq!(VoxelField::new(1, 2000, 1, 0).unwrap_err(), FieldError::DimensionTooLarge);
}

#[test]
fn oversized_volume_is_rejected() {
    assert_eq!(VoxelField::new(1024, 1024, 1024, 0).unwrap_err(), FieldError::VolumeTooLarge);
}

#[test]
fn out_of_range_threshold_is_rejected() {
    assert_eq!(VoxelField::new(4, 4, 4, DENSITY_BOUND).unwrap_err(), FieldError::ThresholdOutOfRange);
    assert_eq!(
        VoxelField::new(4, 4, 4, -DENSITY_BOUND).unwrap_err(),
        FieldError::ThresholdOutOfRange
    );
    assert!(VoxelField::new(4, 4, 4, DENSITY_BOUND - 1).is_ok());
}

#[test]
fn set_then_get_round_trips() {
    let mut f = VoxelField::new(4, 4, 4, 0).unwrap();
    f.set(1, 2, 3, -17);
    f.set(3, 0, 0, 42);
    assert_eq!(f.get(1, 2, 3), -17);
    assert_eq!(f.get(3, 0, 0), 42);
    assert_eq!(f.get(2, 2, 3), 0);
}

#[test]
fn fill_plane_splits_field_at_plane_height() {
    let mut f = VoxelField::new(4, 8, 4, 100).unwrap();
    f.fill_plane(4);
    for x in 0..4 {
        for y in 0..8 {
            for z in 0..4 {
                let expected = if y > 4 { 101 } else { 99 };
                assert_eq!(f.get(x, y, z), expected);
            }
        }
    }
}

#[test]
fn try_get_checks_the_bounds() {
    let mut f = VoxelField::new(3, 3, 3, 0).unwrap();
    f.set(2, 1, 0, 9);
    assert_eq!(f.try_get(2, 1, 0), Some(9));
    assert_eq!(f.try_get(0, 0, 0), Some(0));
    assert_eq!(f.try_get(3, 0, 0), None);
    assert_eq!(f.try_get(0, 5, 0), None);
}

#[test]
fn try_set_rejects_bad_writes_and_keeps_the_field() {
    let mut f = VoxelField::new(3, 3, 3, 0).unwrap();
    assert!(f.try_set(1, 1, 1, 33));
    assert_eq!(f.get(1, 1, 1), 33);
    assert!(!f.try_set(3, 1, 1, 5));
    assert!(!f.try_set(1, 1, 1, DENSITY_BOUND + 1));
    assert_eq!(f.get(1, 1, 1), 33);
}
