//! A color palette read from the text format of Paint.NET: one color per
//! line as eight hex digits `AARRGGBB`, lines starting with `;` are comments.

use vstd::prelude::*;

verus! {

broadcast use vstd::string::axiom_spec_iter;

// ---------------------------------------------------------------------------
// Lines
// ---------------------------------------------------------------------------

/// `l` without a trailing carriage return.
pub open spec fn strip_cr(l: Seq<char>) -> Seq<char> {
    if l.len() > 0 && l.last() == '\r' {
        l.drop_last()
    } else {
        l
    }
}

/// The lines ended so far in `s` and the characters of the line not yet
/// ended: a line ends at each `'\n'`, which is dropped together with one
/// carriage return before it.
pub open spec fn scan_lines(s: Seq<char>) -> (Seq<Seq<char>>, Seq<char>)
    decreases s.len(),
{
    if s.len() == 0 {
        (Seq::empty(), Seq::empty())
    } else {
        let (done, cur) = scan_lines(s.drop_last());
        if s.last() == '\n' {
            (done.push(strip_cr(cur)), Seq::empty())
        } else {
            (done, cur.push(s.last()))
        }
    }
}

/// The lines of `s` as `str::lines` yields them: the text after the last
/// `'\n'` is a line of its own when it is not empty.
pub open spec fn lines_of(s: Seq<char>) -> Seq<Seq<char>> {
    let (done, cur) = scan_lines(s);
    if cur.len() > 0 {
        done.push(cur)
    } else {
        done
    }
}

/// No line holds a line feed, and a text without a line feed is one line
/// (when it is not empty).
pub proof fn lemma_lines_hold_no_newline(s: Seq<char>)
    ensures
        forall|i: int| 0 <= i < lines_of(s).len() ==> !(#[trigger] lines_of(s)[i]).contains('\n'),
        !s.contains('\n') && s.len() > 0 ==> lines_of(s) == seq![s],
{
    lemma_scan_lines(s);
    if !s.contains('\n') && s.len() > 0 {
        assert(lines_of(s) =~= seq![s]);
    }
}

/// A line ended by a line feed is one line, without the feed and without
/// one carriage return just before it.
pub proof fn lemma_line_ended_by_feed(x: Seq<char>)
    requires
        !x.contains('\n'),
    ensures
        x.len() > 0 && x.last() == '\r' ==> lines_of(x.push('\n')) == seq![x.drop_last()],
        !(x.len() > 0 && x.last() == '\r') ==> lines_of(x.push('\n')) == seq![x],
{
    lemma_scan_lines(x);
    let s = x.push('\n');
    assert(s.drop_last() =~= x);
    assert(s.last() == '\n');
    assert(Seq::<Seq<char>>::empty().push(strip_cr(x)) =~= seq![strip_cr(x)]);
}

/// What `scan_lines` keeps: no line and no pending text holds a line feed,
/// and without a line feed everything is pending.
proof fn lemma_scan_lines(s: Seq<char>)
    ensures
        forall|i: int| 0 <= i < scan_lines(s).0.len() ==> !(#[trigger] scan_lines(s).0[i]).contains('\n'),
        !scan_lines(s).1.contains('\n'),
        !s.contains('\n') ==> scan_lines(s).0.len() == 0 && scan_lines(s).1 == s,
    decreases s.len(),
{
    if s.len() > 0 {
        let p = s.drop_last();
        lemma_scan_lines(p);
        let (done, cur) = scan_lines(p);
        if s.last() == '\n' {
            let l = strip_cr(cur);
            assert(!l.contains('\n')) by {
                if l.contains('\n') {
                    let k = choose|k: int| 0 <= k < l.len() && l[k] == '\n';
                    assert(cur[k] == '\n');
                }
            }
            assert forall|i: int| 0 <= i < done.push(l).len() implies !(#[trigger] done.push(l)[i]).contains('\n') by {
                if i < done.len() {
                    assert(done.push(l)[i] == done[i]);
                }
            }
            assert(s.contains('\n')) by {
                assert(s[s.len() - 1] == '\n');
            }
        } else {
            assert(!cur.push(s.last()).contains('\n')) by {
                if cur.push(s.last()).contains('\n') {
                    let k = choose|k: int| 0 <= k < cur.push(s.last()).len() && cur.push(s.last())[k] == '\n';
                    if k < cur.len() {
                        assert(cur[k] == '\n');
                    }
                }
            }
            if !s.contains('\n') {
                assert(!p.contains('\n')) by {
                    if p.contains('\n') {
                        let k = choose|k: int| 0 <= k < p.len() && p[k] == '\n';
                        assert(s[k] == '\n');
                    }
                }
                assert(cur.push(s.last()) =~= s);
            }
        }
    } else {
        assert(scan_lines(s).1 =~= Seq::<char>::empty());
    }
}

// ---------------------------------------------------------------------------
// Colors
// ---------------------------------------------------------------------------

/// The value of a hex digit.
pub open spec fn hex_value(c: char) -> Option<u8> {
    if '0' <= c <= '9' {
        Some((c as int - '0' as int) as u8)
    } else if 'a' <= c <= 'f' {
        Some((c as int - 'a' as int + 10) as u8)
    } else if 'A' <= c <= 'F' {
        Some((c as int - 'A' as int + 10) as u8)
    } else {
        None
    }
}

/// The hexadecimal digits in the order of their values, in lower case.
pub open spec fn lower_hex_digits() -> Seq<char> {
    seq!['0', '1', '2', '3', '4', '5', '6', '7', '8', '9', 'a', 'b', 'c', 'd', 'e', 'f']
}

/// The hexadecimal digits in the order of their values, in upper case.
pub open spec fn upper_hex_digits() -> Seq<char> {
    seq!['0', '1', '2', '3', '4', '5', '6', '7', '8', '9', 'A', 'B', 'C', 'D', 'E', 'F']
}

/// Whether `c` is the hexadecimal digit of value `d`, in either case.
pub open spec fn is_hex_digit_of(c: char, d: int) -> bool {
    0 <= d < 16 && (lower_hex_digits()[d] == c || upper_hex_digits()[d] == c)
}

/// A digit's value is its place among the sixteen hexadecimal digits:
/// `c` reads as `d` exactly when `c` is the digit of value `d` in lower or
/// upper case, and any other character does not read as a digit.
pub proof fn lemma_hex_value_is_digit_place(c: char)
    ensures
        forall|d: int| #[trigger] is_hex_digit_of(c, d) ==> hex_value(c) == Some(d as u8),
        hex_value(c) is Some ==> is_hex_digit_of(c, hex_value(c)->0 as int),
        hex_value(c) is None <==> forall|d: int| !#[trigger] is_hex_digit_of(c, d),
{
    assert forall|d: int| #[trigger] is_hex_digit_of(c, d) implies hex_value(c) == Some(d as u8) by {
        assert(0 <= d < 16);
        if d == 0 { } else if d == 1 { } else if d == 2 { } else if d == 3 { }
        else if d == 4 { } else if d == 5 { } else if d == 6 { } else if d == 7 { }
        else if d == 8 { } else if d == 9 { } else if d == 10 { } else if d == 11 { }
        else if d == 12 { } else if d == 13 { } else if d == 14 { } else { }
    }
    if hex_value(c) is Some {
        let d = hex_value(c)->0 as int;
        if c <= '9' || c >= 'a' {
            assert(lower_hex_digits()[d] == c);
        } else {
            assert(upper_hex_digits()[d] == c);
        }
        assert(is_hex_digit_of(c, d));
    }
}

/// Two hexadecimal digits read as a field give the number they write in
/// base 16: the first digit's value times 16 plus the second's.
pub proof fn lemma_hex_field_of_two_digits(x: char, y: char, a: int, b: int)
    requires
        is_hex_digit_of(x, a),
        is_hex_digit_of(y, b),
    ensures
        hex_field(seq![x, y]) == Some((16 * a + b) as u8),
        0 <= 16 * a + b < 256,
{
    lemma_hex_value_is_digit_place(x);
    lemma_hex_value_is_digit_place(y);
    assert(seq![x, y][0] == x && seq![x, y][1] == y);
    assert(x != '+');
}

/// A field reads as base 16 does: one digit gives its value, a `+` sign
/// and one digit give that digit's value, and a field with a character
/// that is no digit in any other place, an empty field, a lone sign and a
/// field of more than two characters give nothing.
pub proof fn lemma_hex_field_cases(x: char, y: char, a: int, b: int)
    ensures
        is_hex_digit_of(x, a) ==> hex_field(seq![x]) == Some(a as u8),
        is_hex_digit_of(y, b) ==> hex_field(seq!['+', y]) == Some(b as u8),
        (forall|d: int| !#[trigger] is_hex_digit_of(x, d)) ==> hex_field(seq![x]) is None,
        (forall|d: int| !#[trigger] is_hex_digit_of(y, d)) ==> hex_field(seq![x, y]) is None,
        (forall|d: int| !#[trigger] is_hex_digit_of(x, d)) && x != '+' ==> hex_field(seq![x, y]) is None,
        hex_field(Seq::<char>::empty()) is None,
        hex_field(seq!['+']) is None,
        forall|s: Seq<char>| s.len() > 2 ==> #[trigger] hex_field(s) is None,
{
    lemma_hex_value_is_digit_place(x);
    lemma_hex_value_is_digit_place(y);
    lemma_hex_value_is_digit_place('+');
    assert(!is_hex_digit_of('+', hex_value('+')->0 as int));
    assert(seq![x][0] == x);
    assert(seq!['+', y][0] == '+' && seq!['+', y][1] == y);
    assert(seq![x, y][0] == x && seq![x, y][1] == y);
    assert(seq!['+'][0] == '+');
}

/// A palette line `AARRGGBB`: whatever its first two characters, when the
/// next six are hexadecimal digits the line's color is the opaque color
/// whose red, green and blue are the base-16 numbers those pairs write.
pub proof fn lemma_line_color_of_hex_line(l: Seq<char>, r1: int, r2: int, g1: int, g2: int, b1: int, b2: int)
    requires
        l.len() >= 8,
        is_hex_digit_of(l[2], r1),
        is_hex_digit_of(l[3], r2),
        is_hex_digit_of(l[4], g1),
        is_hex_digit_of(l[5], g2),
        is_hex_digit_of(l[6], b1),
        is_hex_digit_of(l[7], b2),
    ensures
        line_color(l) == Some([(16 * r1 + r2) as u8, (16 * g1 + g2) as u8, (16 * b1 + b2) as u8, 255u8]),
{
    lemma_hex_field_of_two_digits(l[2], l[3], r1, r2);
    lemma_hex_field_of_two_digits(l[4], l[5], g1, g2);
    lemma_hex_field_of_two_digits(l[6], l[7], b1, b2);
    assert(field(l, 2, 4) =~= seq![l[2], l[3]]);
    assert(field(l, 4, 6) =~= seq![l[4], l[5]]);
    assert(field(l, 6, 8) =~= seq![l[6], l[7]]);
}

/// The value of a field of at most two characters read as a hexadecimal
/// `u8` (as `u8::from_str_radix(s, 16)` reads it): one or two hex digits,
/// the first of two characters may also be a `+` sign.
pub open spec fn hex_field(s: Seq<char>) -> Option<u8> {
    if s.len() == 1 {
        hex_value(s[0])
    } else if s.len() == 2 {
        if s[0] == '+' {
            hex_value(s[1])
        } else {
            match (hex_value(s[0]), hex_value(s[1])) {
                (Some(a), Some(b)) => Some((a * 16 + b) as u8),
                _ => None,
            }
        }
    } else {
        None
    }
}

/// The characters of `l` from `from` to `to`, both cut to the length of `l`.
pub open spec fn field(l: Seq<char>, from: int, to: int) -> Seq<char> {
    let len = l.len() as int;
    l.subrange(if from < len { from } else { len }, if to < len { to } else { len })
}

/// The color of a line: after two characters of alpha, two each of red,
/// green and blue; `None` when one of the three is missing or not hex.
pub open spec fn line_color(l: Seq<char>) -> Option<[u8; 4]> {
    match (hex_field(field(l, 2, 4)), hex_field(field(l, 4, 6)), hex_field(field(l, 6, 8))) {
        (Some(r), Some(g), Some(b)) => Some([r, g, b, 255u8]),
        _ => None,
    }
}

/// The colors after reading `lines` on top of `colors`: comments are
/// skipped, a line of fewer than two characters ends the reading, and each
/// other line adds its color when it has one.
pub open spec fn read_lines(colors: Seq<[u8; 4]>, lines: Seq<Seq<char>>) -> Seq<[u8; 4]>
    decreases lines.len(),
{
    if lines.len() == 0 {
        colors
    } else {
        let l = lines[0];
        if l.len() > 0 && l[0] == ';' {
            read_lines(colors, lines.drop_first())
        } else if l.len() < 2 {
            colors
        } else {
            match line_color(l) {
                Some(c) => read_lines(colors.push(c), lines.drop_first()),
                None => read_lines(colors, lines.drop_first()),
            }
        }
    }
}

/// Loading a text of one line `AARRGGBB` (no line feed, not a comment)
/// whose last six characters are hexadecimal digits adds exactly one color
/// after the ones already there: the opaque color whose red, green and blue
/// are the base-16 numbers the three pairs write.
pub proof fn lemma_load_one_hex_line(
    colors: Seq<[u8; 4]>,
    t: Seq<char>,
    r1: int,
    r2: int,
    g1: int,
    g2: int,
    b1: int,
    b2: int,
)
    requires
        t.len() == 8,
        !t.contains('\n'),
        t[0] != ';',
        is_hex_digit_of(t[2], r1),
        is_hex_digit_of(t[3], r2),
        is_hex_digit_of(t[4], g1),
        is_hex_digit_of(t[5], g2),
        is_hex_digit_of(t[6], b1),
        is_hex_digit_of(t[7], b2),
    ensures
        read_lines(colors, lines_of(t)) == colors.push(
            [(16 * r1 + r2) as u8, (16 * g1 + g2) as u8, (16 * b1 + b2) as u8, 255u8],
        ),
{
    lemma_lines_hold_no_newline(t);
    lemma_line_color_of_hex_line(t, r1, r2, g1, g2, b1, b2);
    let lines = seq![t];
    assert(lines_of(t) == lines);
    assert(lines[0] == t);
    assert(lines.drop_first() =~= Seq::<Seq<char>>::empty());
    let c = [(16 * r1 + r2) as u8, (16 * g1 + g2) as u8, (16 * b1 + b2) as u8, 255u8];
    assert(read_lines(colors.push(c), lines.drop_first()) == colors.push(c));
}

/// How each line is read: a comment is passed over, a line of fewer than
/// two characters ends the reading with nothing more added, a line with a
/// color adds it and reading goes on, and a line without one is passed over.
pub proof fn lemma_read_line_steps(colors: Seq<[u8; 4]>, l: Seq<char>, rest: Seq<Seq<char>>)
    ensures
        l.len() > 0 && l[0] == ';' ==> read_lines(colors, seq![l] + rest) == read_lines(colors, rest),
        !(l.len() > 0 && l[0] == ';') && l.len() < 2 ==> read_lines(colors, seq![l] + rest) == colors,
        !(l.len() > 0 && l[0] == ';') && l.len() >= 2 && line_color(l) is Some ==> read_lines(
            colors,
            seq![l] + rest,
        ) == read_lines(colors.push(line_color(l)->0), rest),
        !(l.len() > 0 && l[0] == ';') && l.len() >= 2 && line_color(l) is None ==> read_lines(
            colors,
            seq![l] + rest,
        ) == read_lines(colors, rest),
{
    let ls = seq![l] + rest;
    assert(ls[0] == l);
    assert(ls.drop_first() =~= rest);
}

/// Reading lines keeps the colors already in the palette, in front, and
/// every color it adds is opaque.
pub proof fn lemma_read_lines_appends(colors: Seq<[u8; 4]>, lines: Seq<Seq<char>>)
    ensures
        read_lines(colors, lines).len() >= colors.len(),
        read_lines(colors, lines).take(colors.len() as int) == colors,
        forall|i: int|
            colors.len() <= i < read_lines(colors, lines).len() ==> (#[trigger] read_lines(
                colors,
                lines,
            )[i])[3] == 255,
    decreases lines.len(),
{
    if lines.len() > 0 {
        let l = lines[0];
        let rest = lines.drop_first();
        if l.len() > 0 && l[0] == ';' {
            lemma_read_lines_appends(colors, rest);
        } else if l.len() >= 2 {
            match line_color(l) {
                Some(c) => {
                    lemma_read_lines_appends(colors.push(c), rest);
                    let r = read_lines(colors.push(c), rest);
                    assert(r.take(colors.len() as int) =~= r.take(colors.len() + 1int).take(
                        colors.len() as int,
                    ));
                    assert(colors.push(c).take(colors.len() as int) =~= colors);
                    assert(r[colors.len() as int] == colors.push(c)[colors.len() as int]);
                },
                None => {
                    lemma_read_lines_appends(colors, rest);
                },
            }
        }
    }
    assert(colors.take(colors.len() as int) =~= colors);
}

/// What reading adds does not depend on the colors already in the palette:
/// reading onto `colors` gives `colors` followed by what reading onto an
/// empty palette gives.
pub proof fn lemma_read_lines_adds_the_same(colors: Seq<[u8; 4]>, lines: Seq<Seq<char>>)
    ensures
        read_lines(colors, lines) == colors + read_lines(Seq::empty(), lines),
    decreases lines.len(),
{
    let e = Seq::<[u8; 4]>::empty();
    if lines.len() == 0 {
        assert(colors + e =~= colors);
    } else {
        let l = lines[0];
        let rest = lines.drop_first();
        if l.len() > 0 && l[0] == ';' {
            lemma_read_lines_adds_the_same(colors, rest);
        } else if l.len() < 2 {
            assert(colors + e =~= colors);
        } else {
            match line_color(l) {
                Some(c) => {
                    lemma_read_lines_adds_the_same(colors.push(c), rest);
                    lemma_read_lines_adds_the_same(e.push(c), rest);
                    let r = read_lines(e, rest);
                    assert(colors.push(c) + r =~= colors + (e.push(c) + r));
                },
                None => {
                    lemma_read_lines_adds_the_same(colors, rest);
                },
            }
        }
    }
}

/// Reading a text that holds only comment lines adds nothing.
pub proof fn lemma_comments_add_nothing(colors: Seq<[u8; 4]>, lines: Seq<Seq<char>>)
    requires
        forall|i: int| 0 <= i < lines.len() ==> (#[trigger] lines[i]).len() > 0 && lines[i][0] == ';',
    ensures
        read_lines(colors, lines) == colors,
    decreases lines.len(),
{
    if lines.len() > 0 {
        assert(lines[0].len() > 0 && lines[0][0] == ';');
        let rest = lines.drop_first();
        assert forall|i: int| 0 <= i < rest.len() implies (#[trigger] rest[i]).len() > 0 && rest[i][0]
            == ';' by {
            assert(rest[i] == lines[i + 1]);
        }
        lemma_comments_add_nothing(colors, rest);
    }
}

// ---------------------------------------------------------------------------
// Executable parts
// ---------------------------------------------------------------------------

/// The characters of `s`.
pub(crate) fn chars_of(s: &str) -> (v: Vec<char>)
    ensures
        v@ == s@,
{
    let mut v: Vec<char> = Vec::new();
    for c in it: s.chars()
        invariant
            v@ == it.seq().take(it.index()),
            it.seq() == s@,
    {
        v.push(c);
    }
    v
}

/// The lines of `chars`, each as its characters.
fn split_lines(chars: &Vec<char>) -> (lines: Vec<Vec<char>>)
    ensures
        lines@.map_values(|l: Vec<char>| l@) == lines_of(chars@),
{
    let mut done: Vec<Vec<char>> = Vec::new();
    let mut cur: Vec<char> = Vec::new();
    let n = chars.len();
    let mut i: usize = 0;
    while i < n
        invariant
            n == chars@.len(),
            i <= n,
            (done@.map_values(|l: Vec<char>| l@), cur@) == scan_lines(chars@.take(i as int)),
        decreases n - i,
    {
        let c = chars[i];
        assert(chars@.take(i + 1).drop_last() =~= chars@.take(i as int));
        if c == '\n' {
            let len = cur.len();
            if len > 0 && cur[len - 1] == '\r' {
                cur.pop();
            }
            let line = cur;
            done.push(line);
            cur = Vec::new();
            assert(done@.map_values(|l: Vec<char>| l@) =~= scan_lines(chars@.take(i + 1)).0);
        } else {
            cur.push(c);
        }
        i = i + 1;
    }
    assert(chars@.take(n as int) =~= chars@);
    if cur.len() > 0 {
        done.push(cur);
    }
    assert(done@.map_values(|l: Vec<char>| l@) =~= lines_of(chars@));
    done
}

/// The value of the hex digit `c`, if it is one.
fn hex_digit(c: char) -> (r: Option<u8>)
    ensures
        r == hex_value(c),
{
    if '0' <= c && c <= '9' {
        Some(((c as u32) - ('0' as u32)) as u8)
    } else if 'a' <= c && c <= 'f' {
        Some(((c as u32) - ('a' as u32) + 10) as u8)
    } else if 'A' <= c && c <= 'F' {
        Some(((c as u32) - ('A' as u32) + 10) as u8)
    } else {
        None
    }
}

/// The field of `l` from `from` to `to` (both cut to the length of `l`)
/// read as a hexadecimal `u8`.
fn parse_field(l: &Vec<char>, from: usize, to: usize) -> (r: Option<u8>)
    requires
        from <= to,
        to - from <= 2,
    ensures
        r == hex_field(field(l@, from as int, to as int)),
{
    let len = l.len();
    let a = if from < len {
        from
    } else {
        len
    };
    let b = if to < len {
        to
    } else {
        len
    };
    let ghost f = field(l@, from as int, to as int);
    assert(f =~= l@.subrange(a as int, b as int));
    if b - a == 1 {
        hex_digit(l[a])
    } else if b - a == 2 {
        if l[a] == '+' {
            hex_digit(l[a + 1])
        } else {
            match (hex_digit(l[a]), hex_digit(l[a + 1])) {
                (Some(hi), Some(lo)) => Some(hi * 16 + lo),
                _ => None,
            }
        }
    } else {
        None
    }
}

/// The color of line `l`, if it has one.
fn parse_color(l: &Vec<char>) -> (r: Option<[u8; 4]>)
    ensures
        r == line_color(l@),
{
    let r = parse_field(l, 2, 4);
    let g = parse_field(l, 4, 6);
    let b = parse_field(l, 6, 8);
    match (r, g, b) {
        (Some(r), Some(g), Some(b)) => Some([r, g, b, 255u8]),
        _ => None,
    }
}

/// A list of RGBA colors.
#[derive(PartialEq, Debug, Clone)]
pub struct Palette {
    pub colors: Vec<[u8; 4]>,
}

impl Palette {
    /// An empty palette.
    pub fn new() -> (p: Self)
        ensures
            p.colors@ == Seq::<[u8; 4]>::empty(),
    {
        Self { colors: Vec::new() }
    }

    /// Reads the colors of a Paint.NET palette text and adds them to the
    /// palette, in the order of the lines. Comment lines (starting with `;`)
    /// are skipped, lines whose red, green or blue field is not hex are
    /// skipped too, and the first line of fewer than two characters ends the
    /// reading. Every color is opaque.
    pub fn load_from_txt(&mut self, txt: String)
        ensures
            final(self).colors@ == read_lines(old(self).colors@, lines_of(txt@)),
    {
        let chars = chars_of(txt.as_str());
        let lines = split_lines(&chars);
        let ghost all = lines@.map_values(|l: Vec<char>| l@);
        let n = lines.len();
        let mut i: usize = 0;
        assert(all.skip(0) =~= all);
        while i < n
            invariant
                n == lines@.len(),
                i <= n,
                all == lines@.map_values(|l: Vec<char>| l@),
                all == lines_of(txt@),
                read_lines(self.colors@, all.skip(i as int)) == read_lines(
                    old(self).colors@,
                    all,
                ),
            decreases n - i,
        {
            let line = &lines[i];
            let ghost rest = all.skip(i as int);
            assert(rest[0] == line@);
            assert(rest.drop_first() =~= all.skip(i + 1));
            let len = line.len();
            if len > 0 && line[0] == ';' {
                i = i + 1;
                continue;
            }
            if len < 2 {
                return;
            }
            match parse_color(line) {
                Some(c) => {
                    self.colors.push(c);
                },
                None => {},
            }
            i = i + 1;
        }
        assert(all.skip(n as int) =~= Seq::<Seq<char>>::empty());
    }

    /// The color at `index`.
    pub fn at(&self, index: u8) -> (c: [u8; 4])
        requires
            (index as int) < self.colors@.len(),
        ensures
            c == self.colors@[index as int],
    {
        self.colors[index as usize]
    }
}

} // verus!
