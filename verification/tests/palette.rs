use voxel_editor::palette::Palette;

fn load(txt: &str) -> Vec<[u8; 4]> {
    let mut p = Palette::new();
    p.load_from_txt(txt.to_string());
    p.colors
}

#[test]
fn reads_colors_and_skips_comments() {
    let colors = load(";paint.net Palette File\n;Colors: 3\nFFFF0000\r\nFF00ff00\nFF0000FF");
    assert_eq!(colors, vec![[255, 0, 0, 255], [0, 255, 0, 255], [0, 0, 255, 255]]);
}

#[test]
fn alpha_is_ignored_and_colors_are_opaque() {
    let colors = load("00102030\n7F405060\n");
    assert_eq!(colors, vec![[0x10, 0x20, 0x30, 255], [0x40, 0x50, 0x60, 255]]);
}

#[test]
fn a_line_with_a_bad_field_is_skipped() {
    let colors = load("FFzz0000\nFF10203g\nFF112233");
    assert_eq!(colors, vec![[0x11, 0x22, 0x33, 255]]);
}

#[test]
fn a_short_line_ends_the_reading() {
    assert_eq!(load("FF102030\nF\nFF405060"), vec![[0x10, 0x20, 0x30, 255]]);
    assert_eq!(load("FF102030\n\nFF405060"), vec![[0x10, 0x20, 0x30, 255]]);
    assert_eq!(load("FF102030\r\n\r\nFF405060"), vec![[0x10, 0x20, 0x30, 255]]);
}

#[test]
fn short_and_long_fields() {
    // a missing green field skips the line
    assert_eq!(load("FF1"), Vec::<[u8; 4]>::new());
    assert_eq!(load("FF123"), Vec::<[u8; 4]>::new());
    // a one digit blue field still reads
    assert_eq!(load("FF12345"), vec![[0x12, 0x34, 0x05, 255]]);
    // characters after the blue field are ignored
    assert_eq!(load("FF1234567890"), vec![[0x12, 0x34, 0x56, 255]]);
}

#[test]
fn a_plus_sign_is_accepted_as_for_from_str_radix() {
    assert_eq!(load("FF+1+2+3"), vec![[1, 2, 3, 255]]);
    assert_eq!(load("FF-1+2+3"), Vec::<[u8; 4]>::new());
}

#[test]
fn fields_are_counted_in_characters() {
    assert_eq!(load("ÄB112233"), vec![[0x11, 0x22, 0x33, 255]]);
}

#[test]
fn loading_appends_to_the_palette() {
    let mut p = Palette::new();
    p.load_from_txt("FF010203".to_string());
    p.load_from_txt(";only a comment\n".to_string());
    p.load_from_txt("FF040506\n".to_string());
    assert_eq!(p.colors, vec![[1, 2, 3, 255], [4, 5, 6, 255]]);
    assert_eq!(p.at(1), [4, 5, 6, 255]);
    assert_eq!(p.at(0), [1, 2, 3, 255]);
}

#[test]
fn empty_text_adds_nothing() {
    assert_eq!(load(""), Vec::<[u8; 4]>::new());
    assert_eq!(load("\n"), Vec::<[u8; 4]>::new());
}
