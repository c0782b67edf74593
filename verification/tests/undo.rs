use voxel_editor::undo::character_undo::CharacterUndo;

#[test]
fn new_history_is_empty() {
    let u: CharacterUndo<u32> = CharacterUndo::new();
    assert!(u.is_empty());
    assert_eq!(u.index, -1);
    assert!(!u.has_undo());
    assert!(!u.has_redo());
}

#[test]
fn undo_and_redo_hand_out_positions() {
    let mut u = CharacterUndo::new();
    u.add('a');
    u.add('b');
    assert_eq!(u.index, 1);
    assert!(u.has_undo());
    assert!(!u.has_redo());
    assert_eq!(u.undo(), Some(1));
    assert_eq!(u.undo(), Some(0));
    assert_eq!(u.undo(), None);
    assert_eq!(u.index, -1);
    assert!(u.has_redo());
    assert_eq!(u.redo(), Some(0));
    assert_eq!(u.redo(), Some(1));
    assert_eq!(u.redo(), None);
    assert_eq!(u.stack, vec!['a', 'b']);
}

#[test]
fn undo_then_redo_restores() {
    let mut u = CharacterUndo::new();
    u.add(1);
    u.add(2);
    u.add(3);
    assert_eq!(u.undo(), Some(2));
    assert_eq!(u.redo(), Some(2));
    assert_eq!(u.index, 2);
    assert_eq!(u.stack, vec![1, 2, 3]);
}

#[test]
fn add_drops_the_undone_edits() {
    let mut u = CharacterUndo::new();
    u.add(1);
    u.add(2);
    u.add(3);
    u.undo();
    u.undo();
    u.add(9);
    assert_eq!(u.stack, vec![1, 9]);
    assert_eq!(u.index, 1);
    assert!(!u.has_redo());
    assert_eq!(u.undo(), Some(1));
}

#[test]
fn truncate_keeps_the_newest() {
    let mut u = CharacterUndo::new();
    for i in 0..5 {
        u.add(i);
    }
    u.truncate_to_limit(3);
    assert_eq!(u.stack, vec![2, 3, 4]);
    assert_eq!(u.index, 2);
    u.truncate_to_limit(10);
    assert_eq!(u.stack, vec![2, 3, 4]);
}

#[test]
fn truncate_clamps_the_position() {
    let mut u = CharacterUndo::new();
    for i in 0..5 {
        u.add(i);
    }
    u.undo();
    u.undo();
    u.undo();
    u.undo();
    assert_eq!(u.index, 0);
    u.truncate_to_limit(2);
    assert_eq!(u.stack, vec![3, 4]);
    assert_eq!(u.index, -1);
    u.truncate_to_limit(0);
    assert!(u.is_empty());
    assert_eq!(u.index, -1);
}

#[test]
fn clear_empties_the_history() {
    let mut u = CharacterUndo::new();
    u.add(1);
    u.clear();
    assert!(u.is_empty());
    assert_eq!(u.index, -1);
    let d: CharacterUndo<u8> = CharacterUndo::default();
    assert!(d.is_empty());
}
