use voxel_editor::tile::Tile;

#[test]
fn new_tile_is_all_material_zero() {
    let t = Tile::new(2);
    assert_eq!(t.size, 2);
    assert_eq!(t.data, vec![Some(0); 8]);
    assert_eq!(t.get_voxel(1, 1, 1), Some(0));
}

#[test]
fn read_after_write() {
    let mut t = Tile::new(3);
    t.set_voxel(1, 2, 0, Some(9));
    assert_eq!(t.get_voxel(1, 2, 0), Some(9));
    assert_eq!(t.data[1 + 2 * 3], Some(9));
    t.set_voxel(2, 2, 2, None);
    assert_eq!(t.get_voxel(2, 2, 2), None);
    assert_eq!(t.get_voxel(0, 0, 0), Some(0));
}

#[test]
fn outside_the_cube() {
    let mut t = Tile::new(2);
    assert_eq!(t.get_voxel(2, 0, 0), None);
    t.set_voxel(0, 5, 0, Some(3));
    assert_eq!(t.data, vec![Some(0); 8]);
}

#[test]
fn resize_up_samples_old_voxels() {
    let mut t = Tile::new(2);
    t.set_voxel(1, 0, 0, Some(5));
    t.set_voxel(0, 1, 1, None);
    t.resize(4);
    assert_eq!(t.size, 4);
    assert_eq!(t.data.len(), 64);
    // new x in 2..4 samples old x 1
    assert_eq!(t.get_voxel(2, 0, 0), Some(5));
    assert_eq!(t.get_voxel(3, 1, 1), Some(5));
    assert_eq!(t.get_voxel(1, 1, 1), Some(0));
    assert_eq!(t.get_voxel(0, 2, 3), None);
    assert_eq!(t.get_voxel(1, 3, 2), None);
}

#[test]
fn resize_down_and_to_the_same_size() {
    let mut t = Tile::new(4);
    t.set_voxel(2, 2, 2, Some(7));
    t.set_voxel(3, 0, 0, Some(8));
    let before = t.data.clone();
    t.resize(4);
    assert_eq!(t.data, before);
    t.resize(2);
    assert_eq!(t.get_voxel(1, 1, 1), Some(7));
    assert_eq!(t.get_voxel(1, 0, 0), Some(0));
    t.resize(0);
    assert_eq!(t.size, 0);
    assert!(t.data.is_empty());
}

#[test]
fn resize_up_by_a_factor_and_back_restores() {
    let mut t = Tile::new(3);
    t.set_voxel(0, 1, 2, Some(4));
    t.set_voxel(2, 2, 2, None);
    t.set_voxel(1, 0, 1, Some(9));
    let before = t.data.clone();
    t.resize(6);
    assert_eq!(t.get_voxel(5, 5, 5), None);
    assert_eq!(t.get_voxel(1, 3, 5), Some(4));
    t.resize(3);
    assert_eq!(t.data, before);
}

#[test]
fn resize_to_the_same_size_keeps_every_voxel() {
    let mut t = Tile::new(3);
    t.set_voxel(0, 1, 2, Some(5));
    t.set_voxel(2, 2, 2, None);
    let before = t.data.clone();
    t.resize(3);
    assert_eq!(t.size, 3);
    assert_eq!(t.data, before);
    assert_eq!(t.get_voxel(0, 1, 2), Some(5));
    assert_eq!(t.get_voxel(2, 2, 2), None);
}
