use voxel_editor::tile::Tile;
use voxel_editor::world::World;

#[test]
fn new_world_has_three_tiles_in_a_row() {
    let w = World::new();
    assert!(w.needs_update);
    for x in -1..=1 {
        let t = w.get_tile((x, 0, 0)).unwrap();
        assert_eq!(t.size, 9);
        assert_eq!(t.data, vec![Some(0); 729]);
    }
    assert!(w.get_tile((2, 0, 0)).is_none());
    assert!(w.get_tile((0, 1, 0)).is_none());
}

#[test]
fn get_after_set_gives_a_copy() {
    let mut w = World::new();
    let mut t = Tile::new(2);
    t.set_voxel(1, 1, 1, Some(4));
    w.set_tile((5, -2, 0), t.clone());
    let got = w.get_tile((5, -2, 0)).unwrap();
    assert_eq!(got, t);
    // the copy is independent of the stored tile
    let mut changed = got;
    changed.set_voxel(0, 0, 0, None);
    assert_eq!(w.get_tile((5, -2, 0)).unwrap(), t);
    // replacing a tile
    w.set_tile((0, 0, 0), Tile::new(1));
    assert_eq!(w.get_tile((0, 0, 0)).unwrap().size, 1);
    assert_eq!(w.get_tile((1, 0, 0)).unwrap().size, 9);
}
