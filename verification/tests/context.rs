use voxel_editor::tool::Tool;
use voxel_editor::ui::context::{asset_kind, icon_name, replace, AssetKind, Command, Context};

#[test]
fn new_context_defaults() {
    let c = Context::new(None);
    assert_eq!((c.width, c.height), (0, 0));
    assert_eq!(c.color_button, [53, 53, 53, 255]);
    assert_eq!(c.color_selected, [135, 135, 135, 255]);
    assert_eq!(c.color_white, [255, 255, 255, 255]);
    assert_eq!(c.color_black, [0, 0, 0, 255]);
    assert_eq!(c.curr_tile.size, 9);
    assert_eq!(c.curr_tile.data.len(), 729);
    assert_eq!(c.curr_key, None);
    assert_eq!(c.cmd, None);
    assert!(c.palette.colors.is_empty());
    assert!(c.edit_state);
    assert_eq!(c.curr_color_index, 0);
    assert_eq!(c.curr_material_index, 0);
    assert!(c.curr_tools.is_empty());
}

#[test]
fn new_context_reads_the_palette() {
    let c = Context::new(Some(";palette\nFF000000\nFFFFFFFF\n".to_string()));
    assert_eq!(c.palette.colors, vec![[0, 0, 0, 255], [255, 255, 255, 255]]);
}

#[test]
fn color_index_command() {
    let mut c = Context::new(None);
    c.cmd = Some(Command::ColorIndexChanged(7));
    assert!(!c.process_cmd(false));
    assert_eq!(c.curr_color_index, 7);
    assert!(c.edit_state);
    assert_eq!(c.cmd, None);
}

#[test]
fn edit_state_command_asks_for_an_update() {
    let mut c = Context::new(None);
    c.cmd = Some(Command::EditStateSwitched);
    assert!(c.process_cmd(false));
    assert!(!c.edit_state);
    assert_eq!(c.cmd, None);
}

#[test]
fn other_commands_only_clear() {
    let mut c = Context::new(None);
    c.cmd = Some(Command::MaterialIndexChanged(3));
    assert!(!c.process_cmd(false));
    assert_eq!(c.curr_material_index, 0);
    assert_eq!(c.curr_color_index, 0);
    assert!(c.edit_state);
    assert!(!c.process_cmd(false));
    c.cmd = Some(Command::NoOp);
    assert!(!c.process_cmd(false));
    assert_eq!(c.cmd, None);
}

#[test]
fn the_add_tool_becomes_current() {
    let mut c = Context::new(None);
    let mut add = Tool::new("script".to_string());
    add.widget_values.push(voxel_editor::ui::widgets::WidgetValue::Color("C".to_string(), 1));
    c.register_tool("Move".to_string(), Tool::new(String::new()));
    assert!(c.curr_tool.widget_values.is_empty());
    c.register_tool("Add".to_string(), add.clone());
    assert_eq!(c.curr_tool, add);
    c.register_tool("Addition".to_string(), Tool::new(String::new()));
    assert_eq!(c.curr_tool, add);
    assert_eq!(c.curr_tools, vec!["Move".to_string(), "Add".to_string(), "Addition".to_string()]);
}

#[test]
fn asset_kinds_by_name() {
    assert_eq!(asset_kind("fonts/Roboto.ttf"), AssetKind::Font);
    assert_eq!(asset_kind("icons/move.png"), AssetKind::Icon);
    assert_eq!(asset_kind("tools/add.rhai"), AssetKind::ToolScript);
    assert_eq!(asset_kind("aurora.txt"), AssetKind::Palette);
    assert_eq!(asset_kind("aurora.txt.bak"), AssetKind::Other);
    assert_eq!(asset_kind("fonts"), AssetKind::Other);
    assert_eq!(asset_kind("x/fonts/a"), AssetKind::Other);
    assert_eq!(asset_kind(""), AssetKind::Other);
}

#[test]
fn replace_agrees_with_str_replace() {
    let cases = [
        ("aXbXc", "X", "--"),
        ("aaa", "aa", "b"),
        ("abc", "abcd", "z"),
        ("", "x", "y"),
        ("xxxx", "x", ""),
        ("ünïcödé", "ï", "i"),
        ("icons/icons/a", "icons/", ""),
    ];
    for (text, pat, rep) in cases {
        assert_eq!(replace(text, pat, rep), text.replace(pat, rep), "{text} {pat} {rep}");
    }
}

#[test]
fn icon_names_drop_folder_and_extension() {
    assert_eq!(icon_name("icons/move.png"), "move");
    assert_eq!(icon_name("icons/logo_toolbar.png"), "logo_toolbar");
    assert_eq!(icon_name("icons/a.png.png"), "a");
    assert_eq!(icon_name("other"), "other");
}
