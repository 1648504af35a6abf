use vstd::prelude::*;
use crate::lines::{chars_of, find_in_range, parse_line, parse_line_range, range_eq, split_lines};

verus! {

/// The key bound to each action, as written in the configuration file.
pub struct Keymaps {
    pub quit: String,
    pub create_file: String,
    pub create_folder: String,
    pub rename: String,
    pub open: String,
    pub copy: String,
    pub cut: String,
    pub paste: String,
    pub trash: String,
    pub sort: String,
    pub toggle_hidden: String,
    pub focus: String,
    pub pin: String,
    pub unpin: String,
}

impl View for Keymaps {
    type V = Seq<Seq<char>>;

    /// The bindings in the order of the fields.
    open spec fn view(&self) -> Seq<Seq<char>> {
        seq![self.quit@, self.create_file@, self.create_folder@, self.rename@, self.open@, self.copy@, self.cut@, self.paste@, self.trash@, self.sort@, self.toggle_hidden@, self.focus@, self.pin@, self.unpin@]
    }
}

/// The bindings that apply when the configuration file sets nothing.
pub open spec fn default_keymaps() -> Seq<Seq<char>> {
    seq!["q"@, "n"@, "f"@, "r"@, "enter"@, "c"@, "x"@, "v"@, "d"@, "s"@, "."@, "tab"@, "p"@, "u"@]
}

/// The bindings `km` after the line `key = value`; unknown keys change nothing.
pub open spec fn set_keymap(km: Seq<Seq<char>>, key: Seq<char>, value: Seq<char>) -> Seq<Seq<char>> {
    if key == "quit"@ {
        km.update(0, value)
    } else if key == "create_file"@ {
        km.update(1, value)
    } else if key == "create_folder"@ {
        km.update(2, value)
    } else if key == "rename"@ {
        km.update(3, value)
    } else if key == "open"@ {
        km.update(4, value)
    } else if key == "copy"@ {
        km.update(5, value)
    } else if key == "cut"@ {
        km.update(6, value)
    } else if key == "paste"@ {
        km.update(7, value)
    } else if key == "trash"@ {
        km.update(8, value)
    } else if key == "sort"@ {
        km.update(9, value)
    } else if key == "toggle_hidden"@ {
        km.update(10, value)
    } else if key == "focus"@ {
        km.update(11, value)
    } else if key == "pin"@ {
        km.update(12, value)
    } else if key == "unpin"@ {
        km.update(13, value)
    } else {
        km
    }
}

/// The bindings `km` after one line of the configuration file.
pub open spec fn apply_config_line(km: Seq<Seq<char>>, line: Seq<char>) -> Seq<Seq<char>> {
    match parse_line(line) {
        Some((key, value)) => set_keymap(km, key, value),
        None => km,
    }
}

/// The bindings `km` after `lines`, in order; a later line wins.
pub open spec fn apply_config_lines(km: Seq<Seq<char>>, lines: Seq<Seq<char>>) -> Seq<Seq<char>>
    decreases lines.len(),
{
    if lines.len() == 0 {
        km
    } else {
        apply_config_lines(apply_config_line(km, lines[0]), lines.drop_first())
    }
}

impl Keymaps {
    /// Binds the action named by `v[lo..hi]` to `value`.
    fn set(&mut self, v: &Vec<char>, lo: usize, hi: usize, value: String)
        requires
            lo <= hi <= v@.len(),
        ensures
            final(self)@ == set_keymap(old(self)@, v@.subrange(lo as int, hi as int), value@),
    {
        if range_eq(v, lo, hi, "quit") {
            self.quit = value;
        } else if range_eq(v, lo, hi, "create_file") {
            self.create_file = value;
        } else if range_eq(v, lo, hi, "create_folder") {
            self.create_folder = value;
        } else if range_eq(v, lo, hi, "rename") {
            self.rename = value;
        } else if range_eq(v, lo, hi, "open") {
            self.open = value;
        } else if range_eq(v, lo, hi, "copy") {
            self.copy = value;
        } else if range_eq(v, lo, hi, "cut") {
            self.cut = value;
        } else if range_eq(v, lo, hi, "paste") {
            self.paste = value;
        } else if range_eq(v, lo, hi, "trash") {
            self.trash = value;
        } else if range_eq(v, lo, hi, "sort") {
            self.sort = value;
        } else if range_eq(v, lo, hi, "toggle_hidden") {
            self.toggle_hidden = value;
        } else if range_eq(v, lo, hi, "focus") {
            self.focus = value;
        } else if range_eq(v, lo, hi, "pin") {
            self.pin = value;
        } else if range_eq(v, lo, hi, "unpin") {
            self.unpin = value;
        }
        proof {
            assert(self@ =~= set_keymap(old(self)@, v@.subrange(lo as int, hi as int), value@));
        }
    }

    /// Applies the configuration line `v[lo..hi]`.
    fn apply_line(&mut self, v: &Vec<char>, lo: usize, hi: usize)
        requires
            lo <= hi <= v@.len(),
        ensures
            final(self)@ == apply_config_line(old(self)@, v@.subrange(lo as int, hi as int)),
    {
        match parse_line_range(v, lo, hi) {
            Some((klo, khi, value)) => self.set(v, klo, khi, value),
            None => {},
        }
    }
}

/// Settings read from the configuration file.
pub struct Config {
    pub keymaps: Keymaps,
}

impl Default for Config {
    fn default() -> (r: Config)
        ensures
            r.keymaps@ == default_keymaps(),
    {
        let r = Config {
            keymaps: Keymaps {
                quit: "q".to_owned(),
                create_file: "n".to_owned(),
                create_folder: "f".to_owned(),
                rename: "r".to_owned(),
                open: "enter".to_owned(),
                copy: "c".to_owned(),
                cut: "x".to_owned(),
                paste: "v".to_owned(),
                trash: "d".to_owned(),
                sort: "s".to_owned(),
                toggle_hidden: ".".to_owned(),
                focus: "tab".to_owned(),
                pin: "p".to_owned(),
                unpin: "u".to_owned(),
            },
        };
        proof {
            assert(r.keymaps@ =~= default_keymaps());
        }
        r
    }
}

impl Config {
    /// The configuration that `content` describes: one `key = "value"` per
    /// line over the defaults; lines without `=` and unknown keys are ignored.
    pub fn from_text(content: &str) -> (r: Config)
        ensures
            r.keymaps@ == apply_config_lines(default_keymaps(), split_lines(content@)),
    {
        let v = chars_of(content);
        let mut config = Config::default();
        let n = v.len();
        let mut pos: usize = 0;
        assert(v@.subrange(0, n as int) =~= content@);
        loop
            invariant
                n == v@.len(),
                v@ == content@,
                pos <= n,
                apply_config_lines(default_keymaps(), split_lines(content@)) == apply_config_lines(
                    config.keymaps@,
                    split_lines(v@.subrange(pos as int, n as int)),
                ),
            decreases n - pos,
        {
            let ghost rest = v@.subrange(pos as int, n as int);
            match find_in_range(&v, pos, n, '\n') {
                Some(e) => {
                    config.keymaps.apply_line(&v, pos, e);
                    proof {
                        assert(rest.take(e - pos) =~= v@.subrange(pos as int, e as int));
                        assert(rest.skip(e - pos + 1) =~= v@.subrange(e + 1, n as int));
                        let ls = split_lines(rest);
                        assert(ls == seq![rest.take(e - pos)] + split_lines(rest.skip(e - pos + 1)));
                        assert(ls[0] == rest.take(e - pos));
                        assert(ls.drop_first() =~= split_lines(rest.skip(e - pos + 1)));
                    }
                    pos = e + 1;
                },
                None => {
                    let ghost before = config.keymaps@;
                    config.keymaps.apply_line(&v, pos, n);
                    proof {
                        let ls = split_lines(rest);
                        assert(ls == seq![rest]);
                        assert(ls.drop_first() =~= Seq::<Seq<char>>::empty());
                        assert(apply_config_lines(before, ls) == apply_config_lines(
                            apply_config_line(before, ls[0]),
                            ls.drop_first(),
                        ));
                        assert(apply_config_lines(config.keymaps@, Seq::<Seq<char>>::empty())
                            == config.keymaps@);
                    }
                    return config;
                },
            }
        }
    }
}

} // verus!
