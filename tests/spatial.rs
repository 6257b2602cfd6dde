use gravity_direction::spatial::{GravityDirection, Vector};

fn v(x: f32, y: f32, z: f32) -> Vector {
    Vector { x: x.to_bits(), y: y.to_bits(), z: z.to_bits() }
}

#[test]
fn spatial_default_is_zero() {
    let g = GravityDirection::default();
    assert_eq!(*g.as_vector(), v(0.0, 0.0, 0.0));
    assert_eq!(Vector::default(), v(0.0, 0.0, 0.0));
}

#[test]
fn spatial_from_xyz_reads_back() {
    let g = GravityDirection::from_xyz(1.0f32.to_bits(), 2.0f32.to_bits(), 3.0f32.to_bits());
    assert_eq!(g.0, v(1.0, 2.0, 3.0));
}

#[test]
fn spatial_new_and_set_store_the_vector() {
    let mut g = GravityDirection::new(v(0.0, -1.0, 0.0));
    assert_eq!(g.0, v(0.0, -1.0, 0.0));
    g.set(v(2.0, f32::NEG_INFINITY, -0.0));
    assert_eq!(*g.as_vector(), v(2.0, f32::NEG_INFINITY, -0.0));
    assert_eq!(g.0.z, (-0.0f32).to_bits());
    assert_ne!(g.0.z, 0.0f32.to_bits());
}

#[test]
fn spatial_single_axis_setters_keep_the_others() {
    let mut g = GravityDirection::from_xyz(1.0f32.to_bits(), 2.0f32.to_bits(), 3.0f32.to_bits());
    g.set_x(7.0f32.to_bits());
    assert_eq!(g.0, v(7.0, 2.0, 3.0));
    g.set_y(8.0f32.to_bits());
    assert_eq!(g.0, v(7.0, 8.0, 3.0));
    g.set_z(9.0f32.to_bits());
    assert_eq!(g.0, v(7.0, 8.0, 9.0));
}

#[test]
fn spatial_set_xyz_overwrites_all_axes() {
    let mut g = GravityDirection::from_xyz(1.0f32.to_bits(), 2.0f32.to_bits(), 3.0f32.to_bits());
    g.set_xyz(4.0f32.to_bits(), 5.0f32.to_bits(), 6.0f32.to_bits());
    assert_eq!(g.0, v(4.0, 5.0, 6.0));
}

#[test]
fn spatial_last_write_wins() {
    let mut g = GravityDirection::default();
    g.set_z(1.0f32.to_bits());
    g.set_xyz(2.0f32.to_bits(), 3.0f32.to_bits(), 4.0f32.to_bits());
    g.set_y(5.0f32.to_bits());
    g.set_y(6.0f32.to_bits());
    assert_eq!(g.0, v(2.0, 6.0, 4.0));
}

#[test]
fn spatial_write_through_mutable_access() {
    let mut g = GravityDirection::default();
    g.as_vector_mut().z = 4.0f32.to_bits();
    assert_eq!(g.0, v(0.0, 0.0, 4.0));
}

#[test]
fn spatial_scenario_from_xyz_set_z() {
    let mut g = GravityDirection::from_xyz(0.0f32.to_bits(), (-9.8f32).to_bits(), 0.0f32.to_bits());
    assert_eq!(g.0, v(0.0, -9.8, 0.0));
    g.set_z(5.0f32.to_bits());
    assert_eq!(g.0, v(0.0, -9.8, 5.0));
    assert_eq!(f32::from_bits(g.0.y), -9.8);
    assert_eq!(f32::from_bits(g.0.z), 5.0);
}
