use vstd::prelude::*;

verus! {

/// Order of the directory listing.
#[derive(Clone, Copy, Debug, PartialEq, Eq, Structural)]
pub enum SortMode {
    Name,
    Size,
    Modified,
}

impl SortMode {
    /// The mode after `self` in the cycle Name, Size, Modified.
    pub open spec fn spec_next(self) -> SortMode {
        match self {
            SortMode::Name => SortMode::Size,
            SortMode::Size => SortMode::Modified,
            SortMode::Modified => SortMode::Name,
        }
    }

    /// The next sort mode, cycling Name, Size, Modified and back.
    pub fn next(self) -> (r: SortMode)
        ensures
            r == self.spec_next(),
    {
        match self {
            SortMode::Name => SortMode::Size,
            SortMode::Size => SortMode::Modified,
            SortMode::Modified => SortMode::Name,
        }
    }

    /// The name shown in the status bar.
    pub fn label(self) -> (r: &'static str)
        ensures
            self == SortMode::Name ==> r@ == seq!['N', 'a', 'm', 'e'],
            self == SortMode::Size ==> r@ == seq!['S', 'i', 'z', 'e'],
            self == SortMode::Modified ==> r@ == seq!['M', 'o', 'd', 'i', 'f', 'i', 'e', 'd'],
    {
        match self {
            SortMode::Name => {
                proof {
                    reveal_strlit("Name");
                }
                "Name"
            },
            SortMode::Size => {
                proof {
                    reveal_strlit("Size");
                }
                "Size"
            },
            SortMode::Modified => {
                proof {
                    reveal_strlit("Modified");
                }
                "Modified"
            },
        }
    }
}

/// Whether a pasted entry is copied or moved.
#[derive(Clone, Copy, Debug, PartialEq, Eq, Structural)]
pub enum ClipboardMode {
    Copy,
    Cut,
}

/// The prompt the input line serves.
#[derive(Clone, Copy, Debug, PartialEq, Eq, Structural)]
pub enum InputAction {
    Rename,
    CreateFile,
    CreateFolder,
    ConfirmDelete,
    OpenWith,
}

/// Whether keys drive the browser or the input line.
#[derive(Clone, Copy, Debug, PartialEq, Eq, Structural)]
pub enum AppMode {
    Normal,
    Input(InputAction),
}

/// The panel that has the keyboard.
#[derive(Clone, Copy, Debug, PartialEq, Eq, Structural)]
pub enum Focus {
    Files,
    Pinned,
}

impl Focus {
    /// The other panel.
    pub fn toggle(self) -> (r: Focus)
        ensures
            r != self,
    {
        match self {
            Focus::Files => Focus::Pinned,
            Focus::Pinned => Focus::Files,
        }
    }
}

/// Which set of glyphs marks entries.
#[derive(Clone, Copy, Debug, PartialEq, Eq, Structural)]
pub enum IconMode {
    Ascii,
    Emoji,
    Nerd,
}

} // verus!
