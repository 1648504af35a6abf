use vstd::prelude::*;
use crate::text::{lower_of, lowercase};
use crate::lines::{
    chars_of, find_in_range, parse_line, parse_line_range, split_lines, str_eq, string_of,
    trim_range, trimmed,
};

verus! {

/// A color of the interface, as the theme file names it.
#[derive(Clone, Copy, Debug, PartialEq, Eq, Structural)]
pub enum ThemeColor {
    Reset,
    Black,
    White,
    Red,
    Green,
    Blue,
    Yellow,
    Magenta,
    Cyan,
    Gray,
    DarkGray,
    Rgb(u8, u8, u8),
}

/// A line of the theme file that holds a setting: not blank, not a comment.
pub open spec fn theme_entry(line: Seq<char>) -> Option<(Seq<char>, Seq<char>)> {
    let t = trimmed(line);
    if t.len() == 0 || t[0] == '#' {
        None
    } else {
        parse_line(line)
    }
}

/// The settings of `lines`, in order.
pub open spec fn theme_entries(lines: Seq<Seq<char>>) -> Seq<(Seq<char>, Seq<char>)>
    decreases lines.len(),
{
    if lines.len() == 0 {
        Seq::empty()
    } else {
        match theme_entry(lines[0]) {
            Some(e) => seq![e] + theme_entries(lines.drop_first()),
            None => theme_entries(lines.drop_first()),
        }
    }
}

/// The characters of each key and value.
pub open spec fn pairs_view(p: Seq<(String, String)>) -> Seq<(Seq<char>, Seq<char>)> {
    p.map_values(|e: (String, String)| (e.0@, e.1@))
}

/// Reads `key = "value"` lines, skipping blank lines and `#` comments, into
/// the pairs in file order; a later pair overrides an earlier one of the same key.
pub fn parse_toml_like(content: &str) -> (r: Vec<(String, String)>)
    ensures
        pairs_view(r@) == theme_entries(split_lines(content@)),
{
    let v = chars_of(content);
    let n = v.len();
    let mut out: Vec<(String, String)> = Vec::new();
    let mut pos: usize = 0;
    assert(v@.subrange(0, n as int) =~= content@);
    loop
        invariant
            n == v@.len(),
            v@ == content@,
            pos <= n,
            theme_entries(split_lines(content@)) == pairs_view(out@) + theme_entries(
                split_lines(v@.subrange(pos as int, n as int)),
            ),
        decreases n - pos,
    {
        let ghost rest = v@.subrange(pos as int, n as int);
        let ghost out0 = out@;
        let found = find_in_range(&v, pos, n, '\n');
        let end = match found {
            Some(e) => e,
            None => n,
        };
        let ghost line = v@.subrange(pos as int, end as int);
        let (a, b) = trim_range(&v, pos, end, false);
        if a < b && v[a] != '#' {
            match parse_line_range(&v, pos, end) {
                Some((klo, khi, value)) => {
                    let key = string_of(&v, klo, khi);
                    out.push((key, value));
                },
                None => {},
            }
        }
        proof {
            assert(trimmed(line) == v@.subrange(a as int, b as int));
            assert(pairs_view(out@) == pairs_view(out0) + match theme_entry(line) {
                Some(e) => seq![e],
                None => Seq::<(Seq<char>, Seq<char>)>::empty(),
            }) by {
                assert(pairs_view(out0 + seq![out@.last()]) =~= pairs_view(out0) + seq![
                    (out@.last().0@, out@.last().1@),
                ]);
                if out@.len() == out0.len() {
                    assert(out@ =~= out0);
                } else {
                    assert(out@ =~= out0 + seq![out@.last()]);
                }
            }
        }
        match found {
            Some(e) => {
                proof {
                    assert(rest.take(e - pos) =~= line);
                    assert(rest.skip(e - pos + 1) =~= v@.subrange(e + 1, n as int));
                    let ls = split_lines(rest);
                    assert(ls == seq![line] + split_lines(rest.skip(e - pos + 1)));
                    assert(ls[0] == line);
                    assert(ls.drop_first() =~= split_lines(rest.skip(e - pos + 1)));
                    assert(pairs_view(out@) + theme_entries(split_lines(v@.subrange(e + 1, n as int)))
                        =~= pairs_view(out0) + theme_entries(ls));
                }
                pos = e + 1;
            },
            None => {
                proof {
                    assert(line =~= rest);
                    let ls = split_lines(rest);
                    assert(ls == seq![rest]);
                    assert(ls.drop_first() =~= Seq::<Seq<char>>::empty());
                    assert(theme_entries(ls.drop_first()) =~= Seq::<(Seq<char>, Seq<char>)>::empty());
                    assert(pairs_view(out@) =~= pairs_view(out0) + theme_entries(ls));
                }
                return out;
            },
        }
    }
}


/// The value of a hexadecimal digit.
pub open spec fn hex_digit(c: char) -> Option<nat> {
    if '0' <= c && c <= '9' {
        Some((c as u32 - '0' as u32) as nat)
    } else if 'a' <= c && c <= 'f' {
        Some((c as u32 - 'a' as u32 + 10) as nat)
    } else if 'A' <= c && c <= 'F' {
        Some((c as u32 - 'A' as u32 + 10) as nat)
    } else {
        None
    }
}

/// The number that the hexadecimal digits `s` spell.
pub open spec fn hex_digits(s: Seq<char>) -> Option<nat>
    decreases s.len(),
{
    if s.len() == 0 {
        Some(0)
    } else {
        match (hex_digits(s.drop_last()), hex_digit(s.last())) {
            (Some(h), Some(d)) => Some(h * 16 + d),
            _ => None,
        }
    }
}

/// Base-16 reading of `s` as `u32::from_str_radix` does it for inputs of at
/// most seven characters: an optional `+`, then at least one digit.
pub open spec fn hex_number(s: Seq<char>) -> Option<nat> {
    if s.len() == 0 || (s.len() == 1 && s[0] == '+') {
        None
    } else if s[0] == '+' {
        hex_digits(s.drop_first())
    } else {
        hex_digits(s)
    }
}

/// `s` without its leading `#` characters.
pub open spec fn strip_hashes(s: Seq<char>) -> Seq<char>
    decreases s.len(),
{
    if s.len() > 0 && s[0] == '#' {
        strip_hashes(s.drop_first())
    } else {
        s
    }
}

/// The color a lower-case, trimmed setting names: `#rrggbb` or one of the
/// color names; anything else resets to the terminal's color.
pub open spec fn color_of(s: Seq<char>) -> ThemeColor {
    let hex = strip_hashes(s);
    if s.len() > 0 && s[0] == '#' && hex.len() == 6 && hex_number(hex) is Some {
        let value = hex_number(hex)->0;
        ThemeColor::Rgb((value / 65536 % 256) as u8, (value / 256 % 256) as u8, (value % 256) as u8)
    } else {
        named_color(s)
    }
}

/// The color that the name `s` stands for.
pub open spec fn named_color(s: Seq<char>) -> ThemeColor {
    if s == "black"@ {
        ThemeColor::Black
    } else if s == "white"@ {
        ThemeColor::White
    } else if s == "red"@ {
        ThemeColor::Red
    } else if s == "green"@ {
        ThemeColor::Green
    } else if s == "blue"@ {
        ThemeColor::Blue
    } else if s == "yellow"@ {
        ThemeColor::Yellow
    } else if s == "magenta"@ {
        ThemeColor::Magenta
    } else if s == "cyan"@ {
        ThemeColor::Cyan
    } else if s == "gray"@ {
        ThemeColor::Gray
    } else if s == "darkgray"@ {
        ThemeColor::DarkGray
    } else {
        ThemeColor::Reset
    }
}

fn hex_digit_of(c: char) -> (r: Option<u32>)
    ensures
        r matches Some(d) ==> hex_digit(c) == Some(d as nat) && d < 16,
        r is None ==> hex_digit(c) is None,
{
    if '0' <= c && c <= '9' {
        Some(c as u32 - '0' as u32)
    } else if 'a' <= c && c <= 'f' {
        Some(c as u32 - 'a' as u32 + 10)
    } else if 'A' <= c && c <= 'F' {
        Some(c as u32 - 'A' as u32 + 10)
    } else {
        None
    }
}

proof fn lemma_hex_digits_bound(s: Seq<char>)
    ensures
        hex_digits(s) matches Some(h) ==> h < pow16(s.len()),
    decreases s.len(),
{
    if s.len() > 0 {
        lemma_hex_digits_bound(s.drop_last());
        if let (Some(h), Some(d)) = (hex_digits(s.drop_last()), hex_digit(s.last())) {
            assert(h * 16 + d < pow16(s.len())) by (nonlinear_arith)
                requires
                    h < pow16((s.len() - 1) as nat),
                    d < 16,
                    pow16(s.len()) == 16 * pow16((s.len() - 1) as nat),
            ;
        }
    }
}

/// Sixteen to the power `n`.
pub open spec fn pow16(n: nat) -> nat
    decreases n,
{
    if n == 0 {
        1
    } else {
        16 * pow16((n - 1) as nat)
    }
}

/// Reads `v[lo..hi]`, at most seven characters, as `hex_digits` says.
fn read_hex_digits(v: &Vec<char>, lo: usize, hi: usize) -> (r: Option<u32>)
    requires
        lo <= hi <= v@.len(),
        hi - lo <= 7,
    ensures
        r matches Some(h) ==> hex_digits(v@.subrange(lo as int, hi as int)) == Some(h as nat),
        r is None ==> hex_digits(v@.subrange(lo as int, hi as int)) is None,
{
    let mut value: u32 = 0;
    let mut i = lo;
    assert(v@.subrange(lo as int, lo as int) =~= Seq::<char>::empty());
    while i < hi
        invariant
            lo <= i <= hi <= v@.len(),
            hi - lo <= 7,
            hex_digits(v@.subrange(lo as int, i as int)) == Some(value as nat),
            value < pow16((i - lo) as nat),
        decreases hi - i,
    {
        let ghost prefix = v@.subrange(lo as int, i as int + 1);
        assert(prefix.drop_last() =~= v@.subrange(lo as int, i as int));
        assert(prefix.last() == v@[i as int]);
        match hex_digit_of(v[i]) {
            Some(d) => {
                assert(pow16((i - lo) as nat) <= pow16(6)) by {
                    lemma_pow16_mono((i - lo) as nat, 6);
                }
                assert(value * 16 + d < pow16((i + 1 - lo) as nat)) by (nonlinear_arith)
                    requires
                        value < pow16((i - lo) as nat),
                        d < 16,
                        pow16((i + 1 - lo) as nat) == 16 * pow16((i - lo) as nat),
                ;
                proof {
                    lemma_pow16_values();
                }
                value = value * 16 + d;
                i = i + 1;
            },
            None => {
                proof {
                    let full = v@.subrange(lo as int, hi as int);
                    assert(prefix =~= full.take(prefix.len() as int));
                    lemma_hex_none_extends(prefix, full);
                }
                return None;
            },
        }
    }
    Some(value)
}

proof fn lemma_pow16_values()
    ensures
        pow16(5) == 1048576,
        pow16(6) == 16777216,
{
    assert(pow16(0) == 1);
    assert(pow16(1) == 16);
    assert(pow16(2) == 256);
    assert(pow16(3) == 4096);
    assert(pow16(4) == 65536);
    assert(pow16(5) == 1048576);
    assert(pow16(6) == 16777216);
}

proof fn lemma_pow16_mono(a: nat, b: nat)
    requires
        a <= b,
    ensures
        pow16(a) <= pow16(b),
    decreases b,
{
    if a < b {
        lemma_pow16_mono(a, (b - 1) as nat);
    }
}

proof fn lemma_hex_none_extends(p: Seq<char>, s: Seq<char>)
    requires
        hex_digits(p) is None,
        p.len() <= s.len(),
        p == s.take(p.len() as int),
    ensures
        hex_digits(s) is None,
    decreases s.len() - p.len(),
{
    if p.len() < s.len() {
        let q = s.take(p.len() as int + 1);
        assert(q.drop_last() =~= p);
        lemma_hex_none_extends(q, s);
    } else {
        assert(s =~= p);
    }
}

/// The color that the already lower-cased and trimmed setting `s` names.
pub fn parse_lowered_color(s: &str) -> (r: ThemeColor)
    ensures
        r == color_of(s@),
{
    let v = chars_of(s);
    let n = v.len();
    let mut h: usize = 0;
    assert(v@.subrange(0, n as int) =~= s@);
    while h < n && v[h] == '#'
        invariant
            h <= n == v@.len(),
            v@ == s@,
            strip_hashes(s@) == strip_hashes(v@.subrange(h as int, n as int)),
        decreases n - h,
    {
        assert(v@.subrange(h as int, n as int).drop_first() =~= v@.subrange(h + 1, n as int));
        h = h + 1;
    }
    let ghost hex = v@.subrange(h as int, n as int);
    assert(strip_hashes(hex) == hex);
    if n > 0 && v[0] == '#' && n - h == 6 {
        let digits = if v[h] == '+' {
            assert(hex.drop_first() =~= v@.subrange(h + 1, n as int));
            read_hex_digits(&v, h + 1, n)
        } else {
            assert(hex =~= v@.subrange(h as int, n as int));
            read_hex_digits(&v, h, n)
        };
        match digits {
            Some(value) => {
                proof {
                    if v[h as int] == '+' {
                        lemma_hex_digits_bound(hex.drop_first());
                        lemma_pow16_values();
                    } else {
                        lemma_hex_digits_bound(hex);
                        lemma_pow16_values();
                    }
                }
                return ThemeColor::Rgb(
                    (value / 65536 % 256) as u8,
                    (value / 256 % 256) as u8,
                    (value % 256) as u8,
                );
            },
            None => {},
        }
    }
    named_color_of(s)
}

fn named_color_of(s: &str) -> (r: ThemeColor)
    ensures
        r == named_color(s@),
{
    if str_eq(s, "black") {
        ThemeColor::Black
    } else if str_eq(s, "white") {
        ThemeColor::White
    } else if str_eq(s, "red") {
        ThemeColor::Red
    } else if str_eq(s, "green") {
        ThemeColor::Green
    } else if str_eq(s, "blue") {
        ThemeColor::Blue
    } else if str_eq(s, "yellow") {
        ThemeColor::Yellow
    } else if str_eq(s, "magenta") {
        ThemeColor::Magenta
    } else if str_eq(s, "cyan") {
        ThemeColor::Cyan
    } else if str_eq(s, "gray") {
        ThemeColor::Gray
    } else if str_eq(s, "darkgray") {
        ThemeColor::DarkGray
    } else {
        ThemeColor::Reset
    }
}

/// The color a theme setting names: it is trimmed and lower-cased first.
pub fn parse_color(input: &str) -> (r: ThemeColor)
    ensures
        r == color_of(lower_of(trimmed(input@))),
{
    let v = chars_of(input);
    let (a, b) = trim_range(&v, 0, v.len(), false);
    assert(v@.subrange(0, v@.len() as int) =~= input@);
    let t = string_of(&v, a, b);
    let lowered = lowercase(t.as_str());
    parse_lowered_color(lowered.as_str())
}


/// The colors of the interface.
pub struct Theme {
    pub background: ThemeColor,
    pub foreground: ThemeColor,
    pub border: ThemeColor,
    pub focus_border: ThemeColor,
    pub directory: ThemeColor,
    pub status_bg: ThemeColor,
    pub status_fg: ThemeColor,
    pub muted: ThemeColor,
}

impl Default for Theme {
    fn default() -> (r: Theme)
        ensures
            r.background == ThemeColor::Black,
            r.foreground == ThemeColor::White,
            r.border == ThemeColor::Gray,
            r.focus_border == ThemeColor::Yellow,
            r.directory == ThemeColor::Blue,
            r.status_bg == ThemeColor::DarkGray,
            r.status_fg == ThemeColor::White,
            r.muted == ThemeColor::Blue,
    {
        Theme {
            background: ThemeColor::Black,
            foreground: ThemeColor::White,
            border: ThemeColor::Gray,
            focus_border: ThemeColor::Yellow,
            directory: ThemeColor::Blue,
            status_bg: ThemeColor::DarkGray,
            status_fg: ThemeColor::White,
            muted: ThemeColor::Blue,
        }
    }
}

/// The value of the last setting of `key` among `entries`.
pub open spec fn lookup(entries: Seq<(Seq<char>, Seq<char>)>, key: Seq<char>) -> Option<Seq<char>>
    decreases entries.len(),
{
    if entries.len() == 0 {
        None
    } else if entries.last().0 == key {
        Some(entries.last().1)
    } else {
        lookup(entries.drop_last(), key)
    }
}

/// The color that `entries` set for `key`, or `default` when they do not.
pub open spec fn setting(entries: Seq<(Seq<char>, Seq<char>)>, key: Seq<char>, default: ThemeColor) -> ThemeColor {
    match lookup(entries, key) {
        Some(v) => color_of(lower_of(trimmed(v))),
        None => default,
    }
}

fn color_setting(entries: &Vec<(String, String)>, key: &str, default: ThemeColor) -> (r: ThemeColor)
    ensures
        r == setting(pairs_view(entries@), key@, default),
{
    let mut i = entries.len();
    assert(entries@.take(i as int) =~= entries@);
    while i > 0
        invariant
            i <= entries@.len(),
            lookup(pairs_view(entries@), key@) == lookup(pairs_view(entries@.take(i as int)), key@),
        decreases i,
    {
        let ghost front = pairs_view(entries@.take(i as int));
        assert(front.drop_last() =~= pairs_view(entries@.take(i - 1)));
        assert(front.last() == (entries@[i - 1].0@, entries@[i - 1].1@));
        if str_eq(entries[i - 1].0.as_str(), key) {
            return parse_color(entries[i - 1].1.as_str());
        }
        i = i - 1;
    }
    assert(pairs_view(entries@.take(0)) =~= Seq::<(Seq<char>, Seq<char>)>::empty());
    default
}

impl Theme {
    /// The theme that the file `content` describes over the defaults.
    pub fn from_text(content: &str) -> (r: Theme)
        ensures
            ({
                let e = theme_entries(split_lines(content@));
                &&& r.background == setting(e, "background"@, ThemeColor::Black)
                &&& r.foreground == setting(e, "foreground"@, ThemeColor::White)
                &&& r.border == setting(e, "border"@, ThemeColor::Gray)
                &&& r.focus_border == setting(e, "focus_border"@, ThemeColor::Yellow)
                &&& r.directory == setting(e, "directory"@, ThemeColor::Blue)
                &&& r.status_bg == setting(e, "status_bg"@, ThemeColor::DarkGray)
                &&& r.status_fg == setting(e, "status_fg"@, ThemeColor::White)
                &&& r.muted == setting(e, "muted"@, ThemeColor::Blue)
            }),
    {
        let entries = parse_toml_like(content);
        proof {
            assert(entries@.take(entries@.len() as int) =~= entries@);
        }
        Theme {
            background: color_setting(&entries, "background", ThemeColor::Black),
            foreground: color_setting(&entries, "foreground", ThemeColor::White),
            border: color_setting(&entries, "border", ThemeColor::Gray),
            focus_border: color_setting(&entries, "focus_border", ThemeColor::Yellow),
            directory: color_setting(&entries, "directory", ThemeColor::Blue),
            status_bg: color_setting(&entries, "status_bg", ThemeColor::DarkGray),
            status_fg: color_setting(&entries, "status_fg", ThemeColor::White),
            muted: color_setting(&entries, "muted", ThemeColor::Blue),
        }
    }
}

} // verus!
