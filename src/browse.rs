use vstd::prelude::*;
use crate::lines::{chars_of, range_eq, str_eq};
use crate::modes::IconMode;
use crate::text::{decimal, lower_of, lowercase, push_char, push_decimal, push_str};

verus! {

/// Whether `t` occurs in `s`.
pub open spec fn contains_seq(s: Seq<char>, t: Seq<char>) -> bool {
    exists|i: int| 0 <= i && i + t.len() <= s.len() && #[trigger] s.subrange(i, i + t.len()) == t
}

/// The icon mode from lower-cased inputs: an explicit choice wins; else plain
/// terminals (`dumb`, `linux`) and kitty get ASCII, and the rest emoji.
pub open spec fn icon_mode_of(choice: Option<Seq<char>>, term: Seq<char>, program: Seq<char>) -> IconMode {
    match choice {
        Some(m) => if m == "ascii"@ {
            IconMode::Ascii
        } else if m == "nerd"@ {
            IconMode::Nerd
        } else {
            IconMode::Emoji
        },
        None => if term == "dumb"@ || term == "linux"@ {
            IconMode::Ascii
        } else if contains_seq(term, "kitty"@) || contains_seq(program, "kitty"@) {
            IconMode::Ascii
        } else {
            IconMode::Emoji
        },
    }
}

fn contains_str(s: &str, t: &str) -> (r: bool)
    ensures
        r == contains_seq(s@, t@),
{
    let v = chars_of(s);
    let w = chars_of(t);
    let n = v.len();
    let k = w.len();
    if k > n {
        return false;
    }
    if k == 0 {
        assert(s@.subrange(0, 0 + t@.len() as int) =~= t@);
        return true;
    }
    let mut i: usize = 0;
    while i <= n - k
        invariant
            i <= n - k + 1,
            1 <= k,
            v@ == s@,
            w@ == t@,
            n == v@.len(),
            k == w@.len(),
            k <= n,
            forall|j: int| 0 <= j < i && j + k <= n ==> #[trigger] v@.subrange(j, j + k) != w@,
        decreases n - k + 1 - i,
    {
        if range_eq(&v, i, i + k, t) {
            return true;
        }
        i = i + 1;
    }
    false
}

/// The icon mode from lower-cased inputs, as `icon_mode_of` says.
pub fn icon_mode_from_lowered(choice: Option<&str>, term: &str, program: &str) -> (r: IconMode)
    ensures
        r == icon_mode_of(
            match choice {
                Some(m) => Some(m@),
                None => None,
            },
            term@,
            program@,
        ),
{
    match choice {
        Some(m) => {
            if str_eq(m, "ascii") {
                IconMode::Ascii
            } else if str_eq(m, "nerd") {
                IconMode::Nerd
            } else {
                IconMode::Emoji
            }
        },
        None => {
            if str_eq(term, "dumb") || str_eq(term, "linux") {
                IconMode::Ascii
            } else if contains_str(term, "kitty") || contains_str(program, "kitty") {
                IconMode::Ascii
            } else {
                IconMode::Emoji
            }
        },
    }
}

/// Picks the icon mode from the user's explicit choice, if any, and the
/// terminal's `TERM` and `TERM_PROGRAM` (empty when unset); all are compared
/// lower-cased.
pub fn detect_icon_mode(choice: Option<&str>, term: &str, program: &str) -> (r: IconMode)
    ensures
        r == icon_mode_of(
            match choice {
                Some(m) => Some(lower_of(m@)),
                None => None,
            },
            lower_of(term@),
            lower_of(program@),
        ),
{
    let term = lowercase(term);
    let program = lowercase(program);
    match choice {
        Some(m) => {
            let m = lowercase(m);
            icon_mode_from_lowered(Some(m.as_str()), term.as_str(), program.as_str())
        },
        None => icon_mode_from_lowered(None, term.as_str(), program.as_str()),
    }
}

/// Images the preview pane renders itself.
#[derive(Clone, Copy, Debug, PartialEq, Eq, Structural)]
pub enum ImageKind {
    Raster,
    Pdf,
}

/// `c` with ASCII upper case mapped to lower case.
pub open spec fn ascii_lower(c: char) -> char {
    if 'A' <= c && c <= 'Z' {
        (((c as u32) + 32) as u8) as char
    } else {
        c
    }
}

/// The image kind of a file by its extension, ignoring ASCII case.
pub open spec fn image_kind_of(ext: Seq<char>) -> Option<ImageKind> {
    let e = ext.map_values(|c: char| ascii_lower(c));
    if e == "png"@ || e == "jpg"@ || e == "jpeg"@ || e == "webp"@ || e == "gif"@ {
        Some(ImageKind::Raster)
    } else if e == "pdf"@ {
        Some(ImageKind::Pdf)
    } else {
        None
    }
}

/// Whether a file with extension `ext` gets an image preview, and of which kind.
pub fn image_kind(ext: &str) -> (r: Option<ImageKind>)
    ensures
        r == image_kind_of(ext@),
{
    let v = chars_of(ext);
    let n = v.len();
    let mut low: Vec<char> = Vec::new();
    let mut i: usize = 0;
    while i < n
        invariant
            n == v@.len(),
            i <= n,
            low@ == v@.take(i as int).map_values(|c: char| ascii_lower(c)),
        decreases n - i,
    {
        let c = v[i];
        let l = if 'A' <= c && c <= 'Z' {
            ((c as u8) + 32) as char
        } else {
            c
        };
        low.push(l);
        i = i + 1;
        assert(low@ =~= v@.take(i as int).map_values(|c: char| ascii_lower(c)));
    }
    assert(v@.take(n as int) =~= ext@);
    assert(low@.subrange(0, n as int) =~= low@);
    if range_eq(&low, 0, n, "png") || range_eq(&low, 0, n, "jpg") || range_eq(&low, 0, n, "jpeg")
        || range_eq(&low, 0, n, "webp") || range_eq(&low, 0, n, "gif") {
        Some(ImageKind::Raster)
    } else if range_eq(&low, 0, n, "pdf") {
        Some(ImageKind::Pdf)
    } else {
        None
    }
}

/// Where the cursor lands in a listing of `len` entries: the remembered
/// position, kept within the listing, or the top.
pub fn restore_cursor(remembered: Option<usize>, len: usize) -> (r: usize)
    ensures
        remembered is None ==> r == 0,
        remembered matches Some(p) ==> r == if len == 0 {
            0
        } else if p < len {
            p
        } else {
            (len - 1) as usize
        },
{
    match remembered {
        Some(p) => {
            let last = if len == 0 {
                0
            } else {
                len - 1
            };
            if p < last {
                p
            } else {
                last
            }
        },
        None => 0,
    }
}

/// The name tried for a trashed file whose plain name is taken: the name,
/// an underscore and the attempt number.
pub fn trash_candidate(name: &str, counter: u64) -> (r: String)
    ensures
        r@ == name@ + seq!['_'] + decimal(counter as nat),
{
    let mut s = String::new();
    push_str(&mut s, name);
    push_char(&mut s, '_');
    push_decimal(&mut s, counter);
    proof {
        assert(Seq::<char>::empty() + name@ =~= name@);
    }
    s
}

/// Removes the selected pinned entry, if the selection is in range, and
/// moves the selection up by one unless it is at the top. Returns whether an
/// entry was removed.
pub fn unpin_at<T>(pinned: &mut Vec<T>, selected: &mut usize) -> (r: bool)
    ensures
        r == (*old(selected) < old(pinned)@.len()),
        r ==> final(pinned)@ == old(pinned)@.remove(*old(selected) as int),
        r ==> *final(selected) == if *old(selected) > 0 {
            (*old(selected) - 1) as usize
        } else {
            0
        },
        !r ==> final(pinned)@ == old(pinned)@ && *final(selected) == *old(selected),
{
    if *selected < pinned.len() {
        pinned.remove(*selected);
        if *selected > 0 {
            *selected = *selected - 1;
        }
        true
    } else {
        false
    }
}

/// The positions below `n` whose flag in `flags` is `want`, in order.
pub open spec fn positions(flags: Seq<bool>, want: bool, n: int) -> Seq<int>
    decreases n,
{
    if n <= 0 {
        Seq::empty()
    } else if flags[n - 1] == want {
        positions(flags, want, n - 1).push(n - 1)
    } else {
        positions(flags, want, n - 1)
    }
}

/// The indices of a listing after the directories-first ordering:
/// the directories in their order, then the other entries in theirs.
pub open spec fn dirs_first(flags: Seq<bool>) -> Seq<int> {
    positions(flags, true, flags.len() as int) + positions(flags, false, flags.len() as int)
}

fn positions_of(flags: &Vec<bool>, want: bool) -> (r: Vec<usize>)
    ensures
        r@.map_values(|i: usize| i as int) == positions(flags@, want, flags@.len() as int),
{
    let mut r: Vec<usize> = Vec::new();
    let mut i: usize = 0;
    while i < flags.len()
        invariant
            i <= flags@.len(),
            r@.map_values(|i: usize| i as int) == positions(flags@, want, i as int),
        decreases flags@.len() - i,
    {
        if flags[i] == want {
            r.push(i);
        }
        i = i + 1;
        assert(r@.map_values(|i: usize| i as int) =~= positions(flags@, want, i as int));
    }
    r
}

/// The order that puts directories before other entries and keeps the order
/// within each group; `is_dir[k]` tells whether entry `k` is a directory.
/// Entry `r[j]` goes to place `j`.
pub fn dirs_first_order(is_dir: &Vec<bool>) -> (r: Vec<usize>)
    ensures
        r@.map_values(|i: usize| i as int) == dirs_first(is_dir@),
{
    let mut r = positions_of(is_dir, true);
    let mut rest = positions_of(is_dir, false);
    let ghost a = r@;
    let ghost b = rest@;
    r.append(&mut rest);
    assert(r@.map_values(|i: usize| i as int) =~= a.map_values(|i: usize| i as int) + b.map_values(
        |i: usize| i as int,
    ));
    r
}

} // verus!
