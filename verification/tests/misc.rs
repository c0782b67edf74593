use voxel_editor::codeeditor::CodeEditor;
use voxel_editor::context::{Context, ToolMode};
use voxel_editor::object::{Object, Tool, ToolType};
use voxel_editor::pattern::voronoi::Voronoi;
use voxel_editor::pattern::PatternType;
use voxel_editor::shape::Shape;
use voxel_editor::tilemapeditor::{AddMode, TilemapEditor};
use voxel_editor::voxel::face::Face;

#[test]
fn object_starts_without_tools() {
    let mut o = Object::new();
    assert!(o.tools.is_empty());
    o.tools.push(Tool::new(ToolType::WallBuilder));
    assert_eq!(o.tools[0].tool_type, ToolType::WallBuilder);
    assert!(o.tools[0].widget_values.is_empty());
}

#[test]
fn wall_builder_name() {
    let t = Tool::new(ToolType::WallBuilder);
    assert_eq!(t.name(), "Wall Builder");
}

#[test]
fn scripted_tool_starts_without_values() {
    let t = voxel_editor::tool::Tool::new("fn main() {}".to_string());
    assert!(t.widget_values.is_empty());
}

#[test]
fn voronoi_identity() {
    let a = Voronoi::new();
    let b = Voronoi::new();
    assert_eq!(a.name(), "Voronoi");
    assert_eq!(a.id(), a.id());
    assert_ne!(a.id(), b.id());
    assert_eq!(a.id().get_version_num(), 4);
}

#[test]
fn tilemap_editor_modes() {
    let mut e = TilemapEditor::new();
    assert_eq!(e.add_mode(), AddMode::Single);
    e.set_add_mode_index(1);
    assert_eq!(e.add_mode(), AddMode::Anim);
    e.set_add_mode_index(2);
    assert_eq!(e.add_mode(), AddMode::Multi);
    e.set_add_mode_index(-5);
    assert_eq!(e.add_mode(), AddMode::Multi);
    e.set_add_mode_index(0);
    assert_eq!(e.add_mode(), AddMode::Single);
    let other = TilemapEditor::new();
    assert_ne!(e.curr_tilemap_id(), other.curr_tilemap_id());
    e.set_curr_tilemap_id(other.curr_tilemap_id());
    assert_eq!(e.curr_tilemap_id(), other.curr_tilemap_id());
}

#[test]
fn shape_slots() {
    let mut s = Shape::new("circle");
    assert_eq!(s.sdf, vec![Some("circle"), None, None, None, None]);
    assert_eq!(s.size, 10);
    s.set_sdf(3, Some("box"));
    s.set_sdf(0, None);
    assert_eq!(s.sdf, vec![None, None, None, Some("box"), None]);
}

#[test]
fn small_types() {
    assert_eq!(CodeEditor::new(), CodeEditor {});
    assert_eq!(Context::new().mode, ToolMode::Palette);
    assert_eq!(Context::default().mode, ToolMode::Palette);
    assert_ne!(PatternType::Solid, PatternType::Noise);
    assert_ne!(Face::PX, Face::NX);
}
