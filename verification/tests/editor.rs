use voxel_editor::editor::toggle_key;

#[test]
fn toggle_adds_a_missing_key_at_the_end() {
    let mut keys = vec![(1, 2, 3)];
    toggle_key(&mut keys, (0, 0, 0));
    assert_eq!(keys, vec![(1, 2, 3), (0, 0, 0)]);
}

#[test]
fn toggle_removes_the_first_occurrence() {
    let mut keys = vec![(1, 2, 3), (4, 5, 6), (1, 2, 3)];
    toggle_key(&mut keys, (1, 2, 3));
    assert_eq!(keys, vec![(4, 5, 6), (1, 2, 3)]);
}

#[test]
fn toggling_twice_restores_the_selection() {
    let mut keys = vec![(1, 2, 3), (4, 5, 6)];
    toggle_key(&mut keys, (-7, 0, 7));
    toggle_key(&mut keys, (-7, 0, 7));
    assert_eq!(keys, vec![(1, 2, 3), (4, 5, 6)]);
}

#[test]
fn toggle_on_an_empty_selection() {
    let mut keys = vec![];
    toggle_key(&mut keys, (0, 0, 0));
    assert_eq!(keys, vec![(0, 0, 0)]);
    toggle_key(&mut keys, (0, 0, 0));
    assert!(keys.is_empty());
}
