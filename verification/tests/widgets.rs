use voxel_editor::ui::context::Command;
use voxel_editor::ui::rect::Rect;
use voxel_editor::ui::widgets::browser::Browser;
use voxel_editor::ui::widgets::int_slider::IntSlider;
use voxel_editor::ui::widgets::palettebar::{PaletteBar, PaletteMode};
use voxel_editor::ui::widgets::shape_selector::ShapeSelector;
use voxel_editor::ui::widgets::switch_button::SwitchButton;
use voxel_editor::ui::widgets::text_button::TextButton;
use voxel_editor::ui::widgets::WidgetValue;

#[test]
fn rect_inside_excludes_right_and_bottom_edges() {
    let r = Rect::new(10, 20, 5, 4);
    assert!(r.is_inside((10, 20)));
    assert!(r.is_inside((14, 23)));
    assert!(!r.is_inside((15, 20)));
    assert!(!r.is_inside((10, 24)));
    assert!(!r.is_inside((9, 21)));
    assert_eq!(r.to_usize(), (10, 20, 5, 4));
    assert_eq!(Rect::new_with_size(3, 4), Rect::new(0, 0, 3, 4));
    assert!(!Rect::empty().is_inside((0, 0)));
}

#[test]
fn push_button_press_and_release() {
    let mut b = TextButton::new();
    b.set_rect(Rect::new(0, 0, 10, 10));
    b.set_text("OK".to_string());
    b.set_cmd(Command::EditStateSwitched);
    let mut cmd = None;
    assert!(!b.touch_down(20, 5, &mut cmd));
    assert_eq!(cmd, None);
    assert!(!b.is_highlighted());
    assert!(b.touch_down(5, 5, &mut cmd));
    assert_eq!(cmd, Some(Command::EditStateSwitched));
    assert!(b.is_highlighted());
    assert!(!b.get_state());
    assert!(b.touch_up());
    assert!(!b.is_highlighted());
    assert!(!b.touch_up());
}

#[test]
fn toggle_button_flips_its_state() {
    let mut b = TextButton::new();
    b.set_rect(Rect::new(0, 0, 10, 10));
    b.set_has_state(false);
    let mut cmd = Some(Command::NoOp);
    assert!(b.touch_down(1, 1, &mut cmd));
    // a button without a command sends none
    assert_eq!(cmd, None);
    assert!(b.get_state());
    assert!(!b.touch_up());
    assert!(b.touch_down(1, 1, &mut cmd));
    assert!(!b.get_state());
    assert!(b.contains(9, 9));
    assert!(!b.contains(10, 9));
}

#[test]
fn switch_button_sides() {
    let mut s = SwitchButton::new();
    s.set_rect(Rect::new(100, 0, 40, 10));
    s.set_text_list(vec!["OFF".to_string(), "ON".to_string()]);
    s.set_cmd(Command::EditStateSwitched);
    let mut cmd = None;
    assert!(!s.get_state());
    // the left half keeps it off
    assert!(!s.touch_down(110, 5, &mut cmd));
    assert_eq!(cmd, Some(Command::EditStateSwitched));
    // the middle itself counts as the left half
    assert!(!s.touch_down(120, 5, &mut cmd));
    assert!(s.touch_down(121, 5, &mut cmd));
    assert!(s.get_state());
    assert!(!s.touch_down(139, 5, &mut cmd));
    assert!(s.touch_down(100, 0, &mut cmd));
    assert!(!s.get_state());
    let mut other = Some(Command::NoOp);
    assert!(!s.touch_down(99, 5, &mut other));
    assert_eq!(other, Some(Command::NoOp));
    assert!(!s.touch_up());
    s.set_has_state(true);
    assert!(s.get_state());
}

#[test]
fn int_slider_interaction() {
    let mut s = IntSlider::new();
    s.set_rect(Rect::new(0, 0, 100, 20));
    s.set_text("Length".to_string());
    s.set_range(1, 200);
    s.set_value(10);
    assert_eq!(s.get_value(), 10);
    assert!(!s.touch_down(100, 5, 50));
    assert_eq!(s.get_value(), 10);
    assert!(!s.touch_dragged(Some(70), false));
    assert_eq!(s.get_value(), 10);
    assert!(s.touch_down(40, 5, 80));
    assert_eq!(s.get_value(), 80);
    assert!(s.touch_dragged(Some(90), false));
    assert_eq!(s.get_value(), 90);
    assert!(s.touch_dragged(None, false));
    assert_eq!(s.get_value(), 90);
    // values outside the range are kept within it
    assert!(s.touch_dragged(Some(500), false));
    assert_eq!(s.get_value(), 200);
    assert!(s.touch_dragged(Some(-3), false));
    assert_eq!(s.get_value(), 1);
    // past the right end the value is the maximum
    assert!(s.touch_dragged(Some(7), true));
    assert_eq!(s.get_value(), 200);
    assert!(s.touch_up());
    assert!(!s.touch_up());
    assert!(s.touch_down(0, 0, 0));
    assert_eq!(s.get_value(), 1);
    assert!(s.touch_down(99, 0, 1000));
    assert_eq!(s.get_value(), 200);
    assert!(s.contains(0, 19));
}

#[test]
fn shape_selector_rows_of_40() {
    let mut s = ShapeSelector::new((vec![0u8; 16], Rect::new(0, 0, 2, 2)));
    s.set_rect(Rect::new(0, 100, 40, 200));
    assert_eq!(s.highlight(), None);
    assert_eq!(s.touch_down(100, 3), Some(0));
    assert_eq!(s.highlight(), Some((0, 100, 40, 40)));
    assert_eq!(s.touch_down(185, 3), Some(2));
    assert_eq!(s.highlight(), Some((0, 180, 40, 40)));
    assert_eq!(s.touch_down(220, 3), None);
    assert_eq!(s.highlight(), Some((0, 180, 40, 40)));
    assert!(s.touch_up());
    assert!(!s.touch_up());
    assert!(s.contains(39, 299));
}

#[test]
fn palette_bar_layout_and_picking() {
    let mut b = PaletteBar::new();
    b.set_rect(Rect::new(0, 0, 160, 400));
    b.layout(25);
    assert_eq!(b.cell_rect(0), (0, 2, 16, 16));
    assert_eq!(b.cell_rect(13), (48, 18, 16, 16));
    let mut cmd = None;
    // cell 13: column 3, row 1
    assert!(b.touch_down(50, 20, &mut cmd));
    assert_eq!(cmd, Some(Command::ColorIndexChanged(13)));
    // the grid has 25 / 10 + 1 = 3 rows, the switch starts at 2 + 48 + 2
    assert!(b.touch_down(159, 49, &mut cmd));
    assert_eq!(cmd, Some(Command::ColorIndexChanged(29)));
    // the right half of the switch picks materials
    let mut none = None;
    assert!(b.touch_down(100, 60, &mut none));
    assert_eq!(none, None);
    assert_eq!(b.mode(), PaletteMode::Material);
    assert!(!b.touch_down(100, 60, &mut none));
    assert!(b.touch_dragged(17, 3, &mut cmd));
    assert_eq!(cmd, Some(Command::MaterialIndexChanged(1)));
    assert!(!b.touch_dragged(17, 60, &mut cmd));
    assert!(b.touch_down(10, 60, &mut none));
    assert_eq!(b.mode(), PaletteMode::Color);
}

#[test]
fn palette_bar_index_is_capped_at_255() {
    let mut b = PaletteBar::new();
    b.set_rect(Rect::new(0, 0, 160, 1000));
    b.layout(300);
    let mut cmd = None;
    assert!(b.touch_down(159, 16 * 29, &mut cmd));
    assert_eq!(cmd, Some(Command::ColorIndexChanged(255)));
}

#[test]
fn widget_values_compare_by_name_and_index() {
    let a = WidgetValue::Color("Color".to_string(), 3);
    assert_eq!(a.clone(), WidgetValue::Color("Color".to_string(), 3));
    assert_ne!(a, WidgetValue::Material("Color".to_string(), 3));
}

#[test]
fn browser_header_buttons() {
    let mut b = Browser::new();
    b.set_rect(Rect::new(100, 200, 500, 150));
    b.layout();
    let mut cmd = Some(Command::NoOp);
    assert_eq!(b.touch_down(110, 202, &mut cmd), Some(0));
    assert_eq!(b.touch_down(230, 225, &mut cmd), Some(1));
    assert_eq!(b.touch_down(330, 210, &mut cmd), Some(2));
    assert_eq!(b.touch_down(460, 210, &mut cmd), Some(3));
    assert_eq!(b.touch_down(589, 210, &mut cmd), Some(3));
    assert_eq!(b.touch_down(590, 210, &mut cmd), None);
    // between the buttons, below the header and outside the panel
    assert_eq!(b.touch_down(215, 210, &mut cmd), None);
    assert_eq!(b.touch_down(110, 300, &mut cmd), None);
    assert_eq!(b.touch_down(99, 210, &mut cmd), None);
    // the buttons send no command
    assert_eq!(cmd, None);
    assert!(b.contains(599, 349));
    assert!(!b.contains(600, 349));
}
