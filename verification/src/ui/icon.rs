//! Icons: PNG files decoded to the bytes of their first frame, kept by name.

use vstd::prelude::*;

use crate::palette::chars_of;
use crate::ui::context::{icon_name, icon_name_of, same_chars};

verus! {

/// An image: its bytes, its width and its height.
pub type Image = (Vec<u8>, u32, u32);

/// An image by its values.
pub open spec fn image_view(i: Image) -> (Seq<u8>, u32, u32) {
    (i.0@, i.1, i.2)
}

/// What `png` decodes from `bytes`: the bytes of the first frame in the
/// image's own color type and bit depth, with its width and height; `None`
/// when the header or the first frame does not decode.
pub uninterp spec fn png_frame(bytes: Seq<u8>) -> Option<(Seq<u8>, u32, u32)>;

/// Decodes `bytes` with `png::Decoder` (`read_info`, then `next_frame` into
/// a buffer of `output_buffer_size` bytes, kept up to the frame's
/// `buffer_size`). The contract claims that the result is `png_frame` of
/// the bytes; a stream whose header reads but whose first frame fails also
/// gives `None`. The buffer has the size the header gives; `read_info`
/// refuses a header whose frame size overflows.
#[verifier::external_body]
pub(crate) fn decode_png(bytes: &[u8]) -> (r: Option<Image>)
    ensures
        match r {
            Some(t) => png_frame(bytes@) == Some(image_view(t)),
            None => png_frame(bytes@) is None,
        },
{
    let decoder = png::Decoder::new(std::io::Cursor::new(bytes));
    let mut reader = decoder.read_info().ok()?;
    let mut buf = vec![0; reader.output_buffer_size()];
    let info = reader.next_frame(&mut buf).ok()?;
    buf.truncate(info.buffer_size());
    Some((buf, info.width, info.height))
}

/// The icon file `name` with contents `bytes`: the name it is known by
/// and its decoded image, when the bytes decode.
pub fn load_icon(name: &str, bytes: &[u8]) -> (r: Option<(String, Image)>)
    ensures
        r is Some <==> png_frame(bytes@) is Some,
        r matches Some(e) ==> e.0@ == icon_name_of(name@) && png_frame(bytes@) == Some(image_view(e.1)),
{
    match decode_png(bytes) {
        Some(img) => Some((icon_name(name), img)),
        None => None,
    }
}

/// Entry `i` of `s` is named `n`.
pub open spec fn has_name(s: Seq<(String, Image)>, n: Seq<char>, i: int) -> bool {
    0 <= i < s.len() && s[i].0@ == n
}

/// No two entries share a name.
pub open spec fn names_distinct(s: Seq<(String, Image)>) -> bool {
    forall|i: int, j: int| 0 <= i < j < s.len() ==> #[trigger] s[i].0@ != #[trigger] s[j].0@
}

/// The entry named `n`.
pub open spec fn entry_index(s: Seq<(String, Image)>, n: Seq<char>) -> int {
    choose|i: int| has_name(s, n, i)
}

/// The images of the entries by name.
pub open spec fn table_of(s: Seq<(String, Image)>) -> Map<Seq<char>, (Seq<u8>, u32, u32)> {
    Map::new(
        |n: Seq<char>| exists|i: int| has_name(s, n, i),
        |n: Seq<char>| image_view(s[entry_index(s, n)].1),
    )
}

/// With distinct names, the entry named `n` is the one found.
proof fn lemma_entry_index(s: Seq<(String, Image)>, n: Seq<char>, i: int)
    requires
        names_distinct(s),
        has_name(s, n, i),
    ensures
        entry_index(s, n) == i,
{
    let k = entry_index(s, n);
    assert(has_name(s, n, k));
    if k < i {
        assert(s[k].0@ != s[i].0@);
    } else if i < k {
        assert(s[i].0@ != s[k].0@);
    }
}

/// Icon images by name.
pub struct IconTable {
    entries: Vec<(String, Image)>,
}

impl View for IconTable {
    type V = Map<Seq<char>, (Seq<u8>, u32, u32)>;

    closed spec fn view(&self) -> Map<Seq<char>, (Seq<u8>, u32, u32)> {
        table_of(self.entries@)
    }
}

impl IconTable {
    /// No two entries share a name.
    pub closed spec fn wf(&self) -> bool {
        names_distinct(self.entries@)
    }

    /// An empty table.
    pub fn new() -> (t: Self)
        ensures
            t.wf(),
            t@ == Map::<Seq<char>, (Seq<u8>, u32, u32)>::empty(),
    {
        let t = Self { entries: Vec::new() };
        assert(t@ =~= Map::<Seq<char>, (Seq<u8>, u32, u32)>::empty());
        t
    }

    /// The position of the entry named `n`, if there is one.
    fn find(&self, n: &Vec<char>) -> (r: Option<usize>)
        requires
            self.wf(),
        ensures
            match r {
                Some(i) => has_name(self.entries@, n@, i as int),
                None => !exists|i: int| has_name(self.entries@, n@, i),
            },
    {
        let len = self.entries.len();
        let mut i: usize = 0;
        while i < len
            invariant
                len == self.entries@.len(),
                i <= len,
                forall|j: int| 0 <= j < i ==> !has_name(self.entries@, n@, j),
            decreases len - i,
        {
            let e = &self.entries[i];
            let en = chars_of(e.0.as_str());
            if same_chars(&en, n) {
                return Some(i);
            }
            i = i + 1;
        }
        None
    }

    /// The image named `name`, if there is one.
    pub fn get(&self, name: &str) -> (r: Option<&Image>)
        requires
            self.wf(),
        ensures
            match r {
                Some(img) => self@.dom().contains(name@) && image_view(*img) == self@[name@],
                None => !self@.dom().contains(name@),
            },
    {
        let n = chars_of(name);
        match self.find(&n) {
            Some(i) => {
                proof {
                    lemma_entry_index(self.entries@, name@, i as int);
                }
                Some(&self.entries[i].1)
            },
            None => None,
        }
    }

    /// Stores `img` under `name`, replacing the image stored under it.
    pub fn insert(&mut self, name: String, img: Image)
        requires
            old(self).wf(),
        ensures
            final(self).wf(),
            final(self)@ == old(self)@.insert(name@, image_view(img)),
    {
        let ghost s = self.entries@;
        let ghost n = name@;
        let ghost v = image_view(img);
        let found = self.find(&chars_of(name.as_str()));
        let ghost at: int = match found {
            Some(i) => i as int,
            None => s.len() as int,
        };
        match found {
            Some(i) => {
                self.entries.set(i, (name, img));
            },
            None => {
                self.entries.push((name, img));
            },
        }
        let ghost t = self.entries@;
        proof {
            assert(t.len() == s.len() || t.len() == s.len() + 1);
            assert(forall|j: int| 0 <= j < t.len() && j != at ==> #[trigger] t[j] == s[j]);
            assert(t[at].0@ == n && image_view(t[at].1) == v);
            assert forall|i: int, j: int| 0 <= i < j < t.len() implies #[trigger] t[i].0@ != #[trigger] t[j].0@ by {
                if i != at && j != at {
                    assert(s[i].0@ != s[j].0@);
                } else if i == at {
                    assert(!has_name(s, n, j));
                } else {
                    assert(!has_name(s, n, i));
                }
            }
            assert(names_distinct(t));
            assert forall|k: Seq<char>| #[trigger] table_of(t).dom().contains(k) <==> table_of(
                s,
            ).insert(n, v).dom().contains(k) by {
                if k != n {
                    if exists|j: int| has_name(s, k, j) {
                        let j = choose|j: int| has_name(s, k, j);
                        assert(has_name(t, k, j));
                    }
                    if exists|j: int| has_name(t, k, j) {
                        let j = choose|j: int| has_name(t, k, j);
                        assert(has_name(s, k, j));
                    }
                } else {
                    assert(has_name(t, n, at));
                }
            }
            assert forall|k: Seq<char>| #[trigger] table_of(t).dom().contains(k) implies table_of(t)[k]
                == table_of(s).insert(n, v)[k] by {
                if k == n {
                    lemma_entry_index(t, n, at);
                } else {
                    let j = choose|j: int| has_name(t, k, j);
                    assert(has_name(s, k, j));
                    lemma_entry_index(t, k, j);
                    lemma_entry_index(s, k, j);
                }
            }
            assert(table_of(t) =~= table_of(s).insert(n, v));
        }
    }

    /// Decodes the icon file `name` with contents `bytes` and stores it
    /// under its icon name; true when the bytes decode. Nothing changes
    /// when they do not.
    pub fn add_icon(&mut self, name: &str, bytes: &[u8]) -> (added: bool)
        requires
            old(self).wf(),
        ensures
            final(self).wf(),
            added == png_frame(bytes@) is Some,
            final(self)@ == (match png_frame(bytes@) {
                Some(f) => old(self)@.insert(icon_name_of(name@), f),
                None => old(self)@,
            }),
    {
        match load_icon(name, bytes) {
            Some((n, img)) => {
                self.insert(n, img);
                true
            },
            None => false,
        }
    }
}

} // verus!
