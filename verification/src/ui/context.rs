//! The state that the editor's widgets share, and the commands they send.

use vstd::prelude::*;

use crate::fxmaps::Coord;
use crate::palette::{chars_of, lines_of, read_lines, Palette};
use crate::tile::{cube, Tile};
use crate::tool::Tool;
use crate::ui::icon::IconTable;

verus! {

/// A command sent by a widget, handled by the editor.
#[derive(Clone, Copy, Debug, PartialEq, Eq, Structural)]
pub enum Command {
    /// No command.
    NoOp,
    ColorIndexChanged(u8),
    MaterialIndexChanged(u8),
    EditStateSwitched,
}

/// What an embedded file holds, by its name.
#[derive(Clone, Copy, Debug, PartialEq, Eq, Structural)]
pub enum AssetKind {
    Font,
    Icon,
    ToolScript,
    Palette,
    Other,
}

/// Whether `s` begins with `p`.
pub open spec fn has_prefix(s: Seq<char>, p: Seq<char>) -> bool {
    p.len() <= s.len() && s.take(p.len() as int) == p
}

/// The kind of the embedded file `name`: fonts, icons and tool scripts by
/// their folder, the palette by its file name.
pub open spec fn kind_of(name: Seq<char>) -> AssetKind {
    if has_prefix(name, "fonts/"@) {
        AssetKind::Font
    } else if has_prefix(name, "icons/"@) {
        AssetKind::Icon
    } else if has_prefix(name, "tools/"@) {
        AssetKind::ToolScript
    } else if name == "aurora.txt"@ {
        AssetKind::Palette
    } else {
        AssetKind::Other
    }
}

/// `s` with every occurrence of `p` replaced by `r`, the occurrences taken
/// from the left without overlap (as `str::replace` finds them).
pub open spec fn replace_all(s: Seq<char>, p: Seq<char>, r: Seq<char>) -> Seq<char>
    decreases s.len(),
{
    if p.len() == 0 || s.len() < p.len() {
        s
    } else if s.take(p.len() as int) == p {
        r + replace_all(s.skip(p.len() as int), p, r)
    } else {
        seq![s[0]] + replace_all(s.drop_first(), p, r)
    }
}

/// The name under which an icon file is known: its path without the
/// `icons/` folder and without the `.png` extension.
pub open spec fn icon_name_of(name: Seq<char>) -> Seq<char> {
    replace_all(replace_all(name, "icons/"@, Seq::empty()), ".png"@, Seq::empty())
}

/// Whether `s` begins with `p`.
fn starts_with(s: &Vec<char>, p: &Vec<char>) -> (b: bool)
    ensures
        b == has_prefix(s@, p@),
{
    if p.len() > s.len() {
        return false;
    }
    let n = p.len();
    let mut i: usize = 0;
    while i < n
        invariant
            n == p@.len(),
            n <= s@.len(),
            i <= n,
            forall|j: int| 0 <= j < i ==> s@[j] == p@[j],
        decreases n - i,
    {
        if s[i] != p[i] {
            assert(s@.take(n as int)[i as int] != p@[i as int]);
            return false;
        }
        i = i + 1;
    }
    assert(s@.take(n as int) =~= p@);
    true
}

/// Whether `s` and `t` hold the same characters.
pub(crate) fn same_chars(s: &Vec<char>, t: &Vec<char>) -> (b: bool)
    ensures
        b == (s@ == t@),
{
    if s.len() != t.len() {
        return false;
    }
    let r = starts_with(s, t);
    assert(s@ =~= s@.take(t@.len() as int));
    r
}

/// Whether `s` holds `p` at position `at`.
fn matches_at(s: &Vec<char>, p: &Vec<char>, at: usize) -> (b: bool)
    requires
        at <= s@.len(),
    ensures
        b == has_prefix(s@.skip(at as int), p@),
{
    let sl = s.len();
    if p.len() > sl - at {
        return false;
    }
    let n = p.len();
    let mut i: usize = 0;
    while i < n
        invariant
            n == p@.len(),
            sl == s@.len(),
            at <= s@.len(),
            n <= s@.len() - at,
            i <= n,
            forall|j: int| 0 <= j < i ==> s@[at + j] == p@[j],
        decreases n - i,
    {
        if s[at + i] != p[i] {
            assert(s@.skip(at as int).take(n as int)[i as int] != p@[i as int]);
            return false;
        }
        i = i + 1;
    }
    assert(s@.skip(at as int).take(n as int) =~= p@);
    true
}

/// `text` with every occurrence of `pat` replaced by `rep`, as `str::replace` does.
pub fn replace(text: &str, pat: &str, rep: &str) -> (out: String)
    requires
        pat@.len() > 0,
    ensures
        out@ == replace_all(text@, pat@, rep@),
{
    let s = chars_of(text);
    let p = chars_of(pat);
    let n = s.len();
    let mut out = String::new();
    let mut i: usize = 0;
    assert(s@.skip(0) =~= s@);
    while i < n
        invariant
            n == s@.len(),
            s@ == text@,
            p@ == pat@,
            p@.len() > 0,
            i <= n,
            out@ + replace_all(s@.skip(i as int), p@, rep@) == replace_all(s@, p@, rep@),
        decreases n - i,
    {
        let ghost rest = s@.skip(i as int);
        if matches_at(&s, &p, i) {
            assert(rest.skip(p@.len() as int) =~= s@.skip(i + p@.len()));
            assert(out@ + rep@ + replace_all(rest.skip(p@.len() as int), p@, rep@) =~= out@ + replace_all(rest, p@, rep@));
            out.append(rep);
            i = i + p.len();
        } else {
            assert(rest.drop_first() =~= s@.skip(i + 1));
            let one = text.substring_char(i, i + 1);
            assert(one@ =~= seq![rest[0]]);
            assert(out@ + one@ + replace_all(rest.drop_first(), p@, rep@) =~= out@ + replace_all(rest, p@, rep@));
            out.append(one);
            i = i + 1;
        }
    }
    assert(s@.skip(n as int) =~= Seq::<char>::empty());
    assert(out@ =~= out@ + replace_all(Seq::<char>::empty(), p@, rep@));
    out
}

/// The name under which the icon file `name` is known.
pub fn icon_name(name: &str) -> (n: String)
    ensures
        n@ == icon_name_of(name@),
{
    proof {
        reveal_strlit("icons/");
        reveal_strlit(".png");
        reveal_strlit("");
    }
    assert(""@ =~= Seq::<char>::empty());
    let cut = replace(name, "icons/", "");
    let cut_str = cut.as_str();
    assert(cut_str@ == cut@);
    replace(cut_str, ".png", "")
}

/// The kind of the embedded file `name`.
pub fn asset_kind(name: &str) -> (k: AssetKind)
    ensures
        k == kind_of(name@),
{
    let n = chars_of(name);
    if starts_with(&n, &chars_of("fonts/")) {
        AssetKind::Font
    } else if starts_with(&n, &chars_of("icons/")) {
        AssetKind::Icon
    } else if starts_with(&n, &chars_of("tools/")) {
        AssetKind::ToolScript
    } else if same_chars(&n, &chars_of("aurora.txt")) {
        AssetKind::Palette
    } else {
        AssetKind::Other
    }
}

/// The state shared by the editor's widgets: the window size, the theme
/// colors, the current tile, tool and selection, the pending command, the
/// palette, the icons and the current color and material.
pub struct Context {
    pub width: usize,
    pub height: usize,
    pub color_button: [u8; 4],
    pub color_widget: [u8; 4],
    pub color_toolbar: [u8; 4],
    pub color_selected: [u8; 4],
    pub color_text: [u8; 4],
    pub color_orange: [u8; 4],
    pub color_green: [u8; 4],
    pub color_red: [u8; 4],
    pub color_blue: [u8; 4],
    pub color_white: [u8; 4],
    pub color_black: [u8; 4],
    pub curr_tile: Tile,
    pub curr_key: Option<Coord>,
    pub curr_tool: Tool,
    pub curr_tools: Vec<String>,
    pub cmd: Option<Command>,
    pub palette: Palette,
    pub icons: IconTable,
    pub edit_state: bool,
    pub curr_color_index: u8,
    pub curr_material_index: u8,
}

impl Context {
    /// The window size, theme colors and current tile and key of `self` and `other` agree.
    pub open spec fn same_layout(&self, other: &Context) -> bool {
        &&& self.width == other.width
        &&& self.height == other.height
        &&& self.color_button == other.color_button
        &&& self.color_widget == other.color_widget
        &&& self.color_toolbar == other.color_toolbar
        &&& self.color_selected == other.color_selected
        &&& self.color_text == other.color_text
        &&& self.color_orange == other.color_orange
        &&& self.color_green == other.color_green
        &&& self.color_red == other.color_red
        &&& self.color_blue == other.color_blue
        &&& self.color_white == other.color_white
        &&& self.color_black == other.color_black
        &&& self.curr_tile == other.curr_tile
        &&& self.curr_key == other.curr_key
    }

    /// The initial state: no size yet, the theme colors, a current tile of
    /// side 9, an empty tool, no selection and no command, the palette read
    /// from `palette_txt` when there is one, no icons yet, edit mode on and
    /// color and material 0.
    pub fn new(palette_txt: Option<String>) -> (c: Self)
        ensures
            c.width == 0 && c.height == 0,
            c.color_button == [53u8, 53, 53, 255],
            c.color_selected == [135u8, 135, 135, 255],
            c.color_widget == [24u8, 24, 24, 255],
            c.color_toolbar == [29u8, 29, 29, 255],
            c.color_text == [244u8, 244, 244, 255],
            c.color_orange == [188u8, 68, 34, 255],
            c.color_green == [10u8, 93, 80, 255],
            c.color_red == [207u8, 55, 54, 255],
            c.color_blue == [27u8, 79, 136, 255],
            c.color_white == [255u8, 255, 255, 255],
            c.color_black == [0u8, 0, 0, 255],
            c.curr_tile.wf(),
            c.curr_tile.size == 9,
            forall|i: int| 0 <= i < c.curr_tile.data@.len() ==> c.curr_tile.data@[i] == Some(0u8),
            c.curr_key is None,
            c.curr_tool.widget_values@.len() == 0,
            c.curr_tools@.len() == 0,
            c.cmd is None,
            c.palette.colors@ == (match palette_txt {
                Some(t) => read_lines(Seq::empty(), lines_of(t@)),
                None => Seq::<[u8; 4]>::empty(),
            }),
            c.icons.wf(),
            c.icons@ == Map::<Seq<char>, (Seq<u8>, u32, u32)>::empty(),
            c.edit_state,
            c.curr_color_index == 0,
            c.curr_material_index == 0,
    {
        let mut palette = Palette::new();
        if let Some(txt) = palette_txt {
            palette.load_from_txt(txt);
        }
        assert(cube(9) == 729);
        Self {
            width: 0,
            height: 0,
            color_button: [53, 53, 53, 255],
            color_selected: [135, 135, 135, 255],
            color_widget: [24, 24, 24, 255],
            color_toolbar: [29, 29, 29, 255],
            color_text: [244, 244, 244, 255],
            color_orange: [188, 68, 34, 255],
            color_green: [10, 93, 80, 255],
            color_red: [207, 55, 54, 255],
            color_blue: [27, 79, 136, 255],
            color_white: [255, 255, 255, 255],
            color_black: [0, 0, 0, 255],
            curr_tile: Tile::new(9),
            curr_key: None,
            curr_tool: Tool::new(String::new()),
            curr_tools: Vec::new(),
            cmd: None,
            palette,
            icons: IconTable::new(),
            edit_state: true,
            curr_color_index: 0,
            curr_material_index: 0,
        }
    }

    /// Records a tool loaded from the scripts: its name goes to the list of
    /// tools, and the tool named `Add` becomes the current tool.
    pub fn register_tool(&mut self, name: String, tool: Tool)
        ensures
            final(self).curr_tools@ == old(self).curr_tools@.push(name),
            name@ == "Add"@ ==> final(self).curr_tool == tool,
            name@ != "Add"@ ==> final(self).curr_tool == old(self).curr_tool,
            final(self).cmd == old(self).cmd,
            final(self).palette == old(self).palette,
            final(self).icons == old(self).icons,
            final(self).edit_state == old(self).edit_state,
            final(self).curr_color_index == old(self).curr_color_index,
            final(self).curr_material_index == old(self).curr_material_index,
            final(self).same_layout(old(self)),
    {
        let n = chars_of(name.as_str());
        if same_chars(&n, &chars_of("Add")) {
            self.curr_tool = tool;
        }
        self.curr_tools.push(name);
    }

    /// Handles the pending command and clears it: a new color index is
    /// taken over, a switch of the edit state takes `ui_edit_state`. True
    /// when the world has to be redrawn.
    pub fn process_cmd(&mut self, ui_edit_state: bool) -> (needs_update: bool)
        ensures
            final(self).cmd is None,
            needs_update == (old(self).cmd == Some(Command::EditStateSwitched)),
            final(self).curr_color_index == (match old(self).cmd {
                Some(Command::ColorIndexChanged(i)) => i,
                _ => old(self).curr_color_index,
            }),
            final(self).edit_state == (if needs_update {
                ui_edit_state
            } else {
                old(self).edit_state
            }),
            final(self).curr_material_index == old(self).curr_material_index,
            final(self).palette == old(self).palette,
            final(self).icons == old(self).icons,
            final(self).curr_tool == old(self).curr_tool,
            final(self).curr_tools == old(self).curr_tools,
            final(self).same_layout(old(self)),
    {
        let mut needs_update = false;
        match self.cmd {
            Some(Command::ColorIndexChanged(index)) => {
                self.curr_color_index = index;
            },
            Some(Command::EditStateSwitched) => {
                self.edit_state = ui_edit_state;
                needs_update = true;
            },
            _ => {},
        }
        self.cmd = None;
        needs_update
    }
}

} // verus!
