use voxel_editor::pattern::voronoi::Voronoi;
use voxel_editor::tilemapeditor::{multi_tile_region, TilemapEditor};
use voxel_editor::ui::context::Context;
use voxel_editor::ui::icon::{load_icon, IconTable};

fn png_bytes(width: u32, height: u32, data: &[u8]) -> Vec<u8> {
    let mut out = Vec::new();
    {
        let mut enc = png::Encoder::new(&mut out, width, height);
        enc.set_color(png::ColorType::Rgba);
        enc.set_depth(png::BitDepth::Eight);
        let mut writer = enc.write_header().unwrap();
        writer.write_image_data(data).unwrap();
    }
    out
}

#[test]
fn icon_files_decode_to_their_pixels_under_their_short_name() {
    let pixels = [1u8, 2, 3, 255, 4, 5, 6, 128];
    let bytes = png_bytes(2, 1, &pixels);
    let (name, (data, w, h)) = load_icon("icons/logo_toolbar.png", &bytes).unwrap();
    assert_eq!(name, "logo_toolbar");
    assert_eq!(data, pixels.to_vec());
    assert_eq!((w, h), (2, 1));
}

#[test]
fn bytes_that_are_no_png_give_no_icon() {
    assert!(load_icon("icons/broken.png", b"not a png").is_none());
    assert!(load_icon("icons/empty.png", &[]).is_none());
}

#[test]
fn icon_table_keeps_the_last_image_per_name() {
    let mut t = IconTable::new();
    let a = png_bytes(1, 1, &[9, 9, 9, 255]);
    let b = png_bytes(1, 2, &[1, 1, 1, 255, 2, 2, 2, 255]);
    assert!(t.add_icon("icons/a.png", &a));
    assert!(t.add_icon("icons/b.png", &a));
    assert!(!t.add_icon("icons/c.png", b"junk"));
    assert!(t.get("c").is_none());
    assert_eq!(t.get("a").unwrap(), &(vec![9, 9, 9, 255], 1, 1));
    assert!(t.add_icon("icons/a.png", &b));
    assert_eq!(t.get("a").unwrap(), &(vec![1, 1, 1, 255, 2, 2, 2, 255], 1, 2));
    assert_eq!(t.get("b").unwrap(), &(vec![9, 9, 9, 255], 1, 1));
    assert!(t.get("icons/a.png").is_none());
}

#[test]
fn a_new_context_has_no_icons() {
    let c = Context::new(None);
    assert!(c.icons.get("logo_toolbar").is_none());
}

#[test]
fn fresh_identifiers_are_random_version_4() {
    let v = Voronoi::new();
    assert_eq!(v.id().get_version_num(), 4);
    assert_eq!(v.id().get_variant(), uuid::Variant::RFC4122);
    assert_eq!(v.id().as_u128() & 0xF000_C000_0000_0000_0000, 0x4000_8000_0000_0000_0000);
    let e = TilemapEditor::new();
    assert_eq!(e.curr_tilemap_id().get_version_num(), 4);
    assert_ne!(Voronoi::new().id(), Voronoi::new().id());
}

#[test]
fn multi_tiles_scale_the_selection_by_the_grid() {
    assert_eq!(multi_tile_region((2, 3, 4, 1), Some(24)), (48, 72, 96, 24));
    assert_eq!(multi_tile_region((2, 3, 4, 1), None), (32, 48, 64, 16));
    assert_eq!(multi_tile_region((0, 0, 0, 0), Some(7)), (0, 0, 0, 0));
}
