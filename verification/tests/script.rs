use voxel_editor::script::{ScriptValue, ScriptValueType, ScriptVec3i};

#[test]
fn constructors() {
    assert_eq!(ScriptVec3i::zeros().v, (0, 0, 0));
    assert_eq!(ScriptVec3i::new_x(4).v, (4, 4, 4));
    assert_eq!(ScriptVec3i::new(1, -2, 3).v, (1, -2, 3));
    assert_eq!(ScriptVec3i::from_vec3i((7, 8, 9)).v, (7, 8, 9));
    let a = ScriptVec3i::new(1, 2, 3);
    assert_eq!(ScriptVec3i::from(a), a);
}

#[test]
fn getters_and_setters() {
    let mut a = ScriptVec3i::new(1, 2, 3);
    assert_eq!((a.get_x(), a.get_y(), a.get_z()), (1, 2, 3));
    a.set_x(-1);
    a.set_y(-2);
    a.set_z(-3);
    assert_eq!(a.v, (-1, -2, -3));
}

#[test]
fn arithmetic() {
    let a = ScriptVec3i::new(7, -7, 9);
    let b = ScriptVec3i::new(2, 2, -3);
    assert_eq!(ScriptVec3i::sum(a, b).v, (9, -5, 6));
    assert_eq!(ScriptVec3i::difference(a, b).v, (5, -9, 12));
    assert_eq!(ScriptVec3i::product(a, b).v, (14, -14, -27));
    assert_eq!(ScriptVec3i::scaled(a, -2).v, (-14, 14, -18));
    // division rounds toward zero
    assert_eq!(ScriptVec3i::quotient(a, b).v, (3, -3, -3));
    assert_eq!(ScriptVec3i::quotient(ScriptVec3i::new(-7, 7, -1), ScriptVec3i::new(-2, -2, 5)).v, (3, -3, 0));
}

#[test]
fn color_values_keep_the_low_byte() {
    let v = ScriptValue::color("Front".to_string(), 300);
    assert_eq!(v.index, 44);
    assert_eq!(v.name, "Front");
    assert_eq!(v.value_type, ScriptValueType::Color);
    assert_eq!(ScriptValue::color(String::new(), -1).index, 255);
    assert_eq!(ScriptValue::color(String::new(), 7).index, 7);
}
