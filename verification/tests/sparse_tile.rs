use voxel_editor::voxel::tile::{Tile, VoxelBox};

#[test]
fn new_tile_has_a_floor_of_200() {
    let t = Tile::new(3);
    assert_eq!(t.density, 3);
    for x in 0..3 {
        for z in 0..3 {
            assert_eq!(t.get((x, 0, z)), Some(200));
            assert_eq!(t.get((x, 1, z)), None);
        }
    }
    assert_eq!(t.get((3, 0, 0)), None);
    assert_eq!(t.bbox, VoxelBox { min: (0, 0, 0), max: (-1, -1, -1) });
    assert!(!t.is_empty());
}

#[test]
fn set_stores_any_material() {
    let mut t = Tile::new(1);
    t.set((0, 4, 0), 255);
    assert_eq!(t.get((0, 4, 0)), Some(255));
    t.set((0, 0, 0), 1);
    assert_eq!(t.get((0, 0, 0)), Some(1));
}

#[test]
fn update_bbox_covers_the_voxels() {
    let mut t = Tile::new(3);
    t.update_bbox();
    assert_eq!(t.bbox, VoxelBox { min: (0, 0, 0), max: (2, 0, 2) });
    t.set((-4, 7, 1), 3);
    t.update_bbox();
    assert_eq!(t.bbox, VoxelBox { min: (-4, 0, 0), max: (2, 7, 2) });
}

#[test]
fn update_bbox_of_an_empty_tile() {
    let mut t = Tile::new(0);
    assert!(t.is_empty());
    t.update_bbox();
    assert_eq!(
        t.bbox,
        VoxelBox { min: (i32::MAX, i32::MAX, i32::MAX), max: (i32::MIN, i32::MIN, i32::MIN) }
    );
}
