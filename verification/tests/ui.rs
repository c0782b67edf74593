use voxel_editor::ui::context::Command;
use voxel_editor::ui::rect::Rect;
use voxel_editor::ui::UI;

#[test]
fn default_panel_sizes() {
    let ui = UI::new();
    assert_eq!(ui.toolbar_height, 90);
    assert_eq!(ui.palettebar_width, 162);
    assert_eq!(ui.settings_width, 300);
    assert_eq!(ui.browser_height, 180);
    assert!(ui.get_edit_state());
    assert!(ui.get_iso_state());
}

#[test]
fn layout_of_a_1200_by_700_window() {
    let mut ui = UI::new();
    let p = ui.layout(1200, 700);
    assert_eq!(p.toolbar, Rect::new(0, 0, 1200, 90));
    assert_eq!(p.settings, Rect::new(900, 90, 300, 610));
    assert_eq!(p.modebar, Rect::new(0, 90, 162, 610));
    assert_eq!(p.browser, Rect::new(162, 520, 738, 180));
    assert!(ui.contains(5, 5));
    assert!(ui.contains(100, 600));
    assert!(ui.contains(500, 600));
    assert!(!ui.contains(500, 300));
    assert_eq!(ui.browser.rect(), Rect::new(162, 520, 738, 180));
}

#[test]
fn browser_buttons_take_presses() {
    let mut ui = UI::new();
    ui.layout(1200, 700);
    ui.take_toolbar_dirty();
    let mut cmd = None;
    // the build button: a toggle button at (172, 522, 100, 24)
    assert!(ui.touch_down(180, 530, &mut cmd));
    assert_eq!(ui.browser_hit, Some(0));
    assert_eq!(cmd, None);
    assert!(!ui.take_toolbar_dirty());
    // the apply button at the right end of the header
    assert!(ui.touch_down(800, 530, &mut cmd));
    assert_eq!(ui.browser_hit, Some(3));
    // the browser below its header takes nothing
    assert!(!ui.touch_down(300, 600, &mut cmd));
    assert_eq!(ui.browser_hit, None);
    // a press on the toolbar clears the record
    assert!(ui.touch_down(150, 60, &mut cmd));
    assert_eq!(ui.browser_hit, None);
}

#[test]
fn toolbar_presses() {
    let mut ui = UI::new();
    ui.layout(1200, 700);
    assert!(ui.take_toolbar_dirty());
    assert!(!ui.take_toolbar_dirty());
    let mut cmd = None;
    // the right half of the edit switch turns it on, which turns editing off
    assert!(ui.touch_down(150, 60, &mut cmd));
    assert_eq!(cmd, Some(Command::EditStateSwitched));
    assert!(!ui.get_edit_state());
    assert!(ui.take_toolbar_dirty());
    // pressing the same half again changes nothing, but sends the command
    let mut again = None;
    assert!(!ui.touch_down(150, 60, &mut again));
    assert_eq!(again, Some(Command::EditStateSwitched));
    // the iso button toggles
    let mut none = None;
    assert!(ui.touch_down(1100, 60, &mut none));
    assert_eq!(none, None);
    assert!(!ui.get_iso_state());
    assert!(ui.take_toolbar_dirty());
}

#[test]
fn palette_presses_go_to_the_palette_bar() {
    let mut ui = UI::new();
    ui.layout(1200, 700);
    ui.palette_bar.layout(32);
    let mut cmd = None;
    // the grid starts at y 92; cell 12 is column 2 of row 1
    assert!(ui.touch_down(40, 110, &mut cmd));
    assert_eq!(cmd, Some(Command::ColorIndexChanged(12)));
    // the first layout marked the toolbar; the press did not
    assert!(ui.take_toolbar_dirty());
    assert!(!ui.take_toolbar_dirty());
    let mut drag = None;
    assert!(ui.touch_dragged(20, 93, &mut drag));
    assert_eq!(drag, Some(Command::ColorIndexChanged(1)));
    assert!(!ui.touch_dragged(500, 300, &mut drag));
}

#[test]
fn layout_of_a_narrow_window() {
    let mut ui = UI::new();
    let p = ui.layout(500, 400);
    assert_eq!(p.settings, Rect::new(200, 90, 300, 310));
    assert_eq!(p.modebar, Rect::new(0, 90, 162, 310));
    assert_eq!(p.browser, Rect::new(162, 220, 38, 180));
    // the last header button keeps its place 140 pixels left of the browser's right edge
    assert_eq!(ui.browser.button(3).rect(), Rect::new(60, 222, 130, 24));
    assert_eq!(ui.browser.button(0).rect(), Rect::new(172, 222, 100, 24));
    assert_eq!(ui.iso_button.rect(), Rect::new(375, 52, 120, 32));
}

#[test]
fn drags_leave_everything_but_the_palette_command_alone() {
    let mut ui = UI::new();
    ui.layout(1200, 700);
    let mut cmd = None;
    assert!(ui.touch_down(800, 530, &mut cmd));
    assert_eq!(ui.browser_hit, Some(3));
    let dirty = ui.toolbar_dirty;
    let toolbar = ui.toolbar_rect;
    let browser = ui.browser.rect();
    assert!(!ui.touch_dragged(800, 530, &mut cmd));
    assert_eq!(ui.browser_hit, Some(3));
    assert_eq!(ui.toolbar_dirty, dirty);
    assert_eq!(ui.toolbar_rect, toolbar);
    assert_eq!(ui.browser.rect(), browser);
    assert_eq!(ui.palette_bar.rect(), Rect::new(0, 90, 162, 610));
}
