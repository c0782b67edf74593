use voxel_editor::voxel::grid::VoxelGrid;

fn small() -> VoxelGrid {
    VoxelGrid::new([4, 3, 2], 8)
}

#[test]
fn new_grid_has_a_two_voxel_floor() {
    let g = small();
    assert_eq!(g.size(), [4, 3, 2]);
    assert_eq!(g.density, 8);
    for x in 0..4 {
        for z in 0..2 {
            assert_eq!(g.get(x, 0, z), Some(100));
            assert_eq!(g.get(x, 1, z), Some(100));
            assert_eq!(g.get(x, 2, z), None);
        }
    }
    assert_eq!(g.get(4, 0, 0), None);
    assert_eq!(g.get(0, 0, 2), None);
    assert_eq!(g.get(-1, 0, 0), None);
}

#[test]
fn default_grid_size_and_floor() {
    let g = VoxelGrid::default();
    assert_eq!(g.size(), [384, 128, 256]);
    assert_eq!(g.density, 64);
    assert_eq!(g.get(0, 0, 0), Some(100));
    assert_eq!(g.get(383, 1, 255), Some(100));
    assert_eq!(g.get(100, 2, 100), None);
    assert_eq!(g.get(384, 0, 0), None);
}

#[test]
fn split_uses_chunks_of_32() {
    assert_eq!(VoxelGrid::split((0, 0, 0)), ((0, 0, 0), (0, 0, 0)));
    assert_eq!(VoxelGrid::split((33, 64, 31)), ((1, 2, 0), (1, 0, 31)));
    assert_eq!(VoxelGrid::split((-1, -32, -33)), ((-1, -1, -2), (31, 0, 31)));
}

#[test]
fn read_after_set_gives_the_material_back() {
    let mut g = small();
    assert_eq!(g.set(1, 5, 1, 7), None);
    assert_eq!(g.get(1, 5, 1), Some(7));
    assert_eq!(g.set(1, 5, 1, 9), Some(7));
    assert_eq!(g.get(1, 5, 1), Some(9));
    assert_eq!(g.get(1, 4, 1), None);
}

#[test]
fn set_255_erases_and_remove_stores_zero() {
    let mut g = small();
    assert_eq!(g.set(0, 0, 0, 255), Some(100));
    assert_eq!(g.get(0, 0, 0), None);
    assert_eq!(g.remove(1, 0, 0), Some(100));
    assert_eq!(g.get(1, 0, 0), Some(0));
    assert_eq!(g.remove(3, 2, 1), None);
    assert_eq!(g.get(3, 2, 1), Some(0));
}

#[test]
fn negative_and_far_coordinates() {
    let mut g = small();
    g.set(-1, -40, -33, 9);
    g.set(1000, 2000, -3000, 8);
    assert_eq!(g.get(-1, -40, -33), Some(9));
    assert_eq!(g.get(1000, 2000, -3000), Some(8));
    assert_eq!(g.get(-1, -40, -32), None);
    g.set(-1, -40, -33, 255);
    assert_eq!(g.get(-1, -40, -33), None);
}

#[test]
fn preview_shows_over_committed_voxels() {
    let mut g = small();
    g.preview_add(2, 2, 0, 5);
    assert_eq!(g.get(2, 2, 0), Some(5));
    g.preview_remove(0, 0, 0);
    assert_eq!(g.get(0, 0, 0), None);
    // hiding an empty voxel does nothing
    g.preview_remove(0, 3, 0);
    assert_eq!(g.get(0, 3, 0), None);
    // adding over a hidden voxel shows it again
    g.preview_add(0, 0, 0, 6);
    assert_eq!(g.get(0, 0, 0), Some(6));
    g.clear_preview();
    assert_eq!(g.get(2, 2, 0), None);
    assert_eq!(g.get(0, 0, 0), Some(100));
    assert!(!g.undo());
}

#[test]
fn commit_keeps_reads_except_hidden_and_255() {
    let mut g = small();
    g.preview_add(2, 2, 0, 5);
    g.preview_add(3, 2, 0, 255);
    g.preview_remove(1, 1, 1);
    assert_eq!(g.get(3, 2, 0), Some(255));
    g.commit_preview();
    assert_eq!(g.get(2, 2, 0), Some(5));
    assert_eq!(g.get(3, 2, 0), None);
    // a hidden voxel is committed as material 0
    assert_eq!(g.get(1, 1, 1), Some(0));
}

#[test]
fn empty_commit_records_nothing() {
    let mut g = small();
    g.commit_preview();
    assert!(!g.undo());
    assert!(!g.redo());
    assert_eq!(g.get(0, 0, 0), Some(100));
}

#[test]
fn undo_after_commit_and_redo() {
    let mut g = small();
    g.preview_add(2, 2, 0, 5);
    g.preview_add(0, 0, 0, 7);
    g.preview_remove(1, 0, 0);
    g.commit_preview();
    assert_eq!(g.get(2, 2, 0), Some(5));
    assert_eq!(g.get(0, 0, 0), Some(7));
    assert_eq!(g.get(1, 0, 0), Some(0));

    assert!(g.undo());
    assert_eq!(g.get(0, 0, 0), Some(100));
    assert_eq!(g.get(1, 0, 0), Some(100));
    // the voxel that held nothing now holds material 0
    assert_eq!(g.get(2, 2, 0), Some(0));
    assert!(!g.undo());

    assert!(g.redo());
    assert_eq!(g.get(2, 2, 0), Some(5));
    assert_eq!(g.get(0, 0, 0), Some(7));
    assert_eq!(g.get(1, 0, 0), Some(0));
    assert!(!g.redo());

    // undo, redo, undo ends where the first undo ended
    assert!(g.undo());
    assert!(g.redo());
    assert!(g.undo());
    assert_eq!(g.get(0, 0, 0), Some(100));
    assert_eq!(g.get(2, 2, 0), Some(0));
}

#[test]
fn commit_empties_the_redo_stack() {
    let mut g = small();
    g.preview_add(0, 2, 0, 1);
    g.commit_preview();
    assert!(g.undo());
    g.preview_add(1, 2, 0, 2);
    g.commit_preview();
    assert!(!g.redo());
    assert!(g.undo());
    assert_eq!(g.get(1, 2, 0), Some(0));
    assert_eq!(g.get(0, 2, 0), Some(0));
}

#[test]
fn empty_grid_holds_nothing() {
    let mut g = VoxelGrid::new([0, 5, 0], 1);
    assert_eq!(g.get(0, 0, 0), None);
    assert!(!g.undo());
    g.preview_remove(0, 0, 0);
    g.commit_preview();
    assert!(!g.undo());
}

#[test]
fn sizes_past_i32_wrap_to_the_floor_extent() {
    // 2^32 + 2 taken as an i32 is 2; 2^31 taken as an i32 is negative
    let g = VoxelGrid::new([(1usize << 32) + 2, 4, 3], 8);
    assert_eq!(g.get(1, 1, 2), Some(100));
    assert_eq!(g.get(2, 0, 0), None);
    assert_eq!(g.get(0, 0, 3), None);
    let h = VoxelGrid::new([1usize << 31, 4, 3], 8);
    assert_eq!(h.get(0, 0, 0), None);
}
