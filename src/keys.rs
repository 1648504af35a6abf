use vstd::prelude::*;
use vstd::string::StrSliceExecFns;
use crate::config::Keymaps;
use crate::lines::str_eq;
use crate::modes::{AppMode, Focus, InputAction};

verus! {

/// A key press, as the browser tells keys apart.
#[derive(Clone, Copy, Debug, PartialEq, Eq, Structural)]
pub enum Key {
    Char(char),
    Enter,
    Esc,
    Backspace,
    Tab,
    Up,
    Down,
    Left,
    Right,
    Other,
}

/// One thing a key press asks the browser to do.
#[derive(Clone, Copy, Debug, PartialEq, Eq, Structural)]
pub enum Command {
    Quit,
    CloseHelp,
    ToggleHelp,
    /// Moves the selected entry to the trash.
    TrashSelected,
    /// Back to normal mode with an empty input line.
    LeaveInput,
    ConfirmRename,
    CreateFile,
    CreateFolder,
    OpenWith,
    PopInput,
    PushInput(char),
    ToggleFocus,
    NextEntry,
    PreviousEntry,
    NextPinned,
    PreviousPinned,
    StartInput(InputAction),
    /// Starts renaming the selected entry, with its name filled in.
    StartRename,
    /// Remembers the cursor of the current directory, then opens the
    /// selected entry.
    EnterSelected,
    /// Remembers the cursor of the current directory, then opens the
    /// selected pinned directory.
    OpenPinned,
    GoUp,
    CycleSort,
    Copy,
    Cut,
    Paste,
    ToggleHidden,
    Pin,
    Unpin,
}

/// `seq![c]` when `b` holds, else nothing.
pub open spec fn when(b: bool, c: Command) -> Seq<Command> {
    if b {
        seq![c]
    } else {
        Seq::empty()
    }
}

/// The commands for character `c` in normal mode; `km` are the bindings in
/// the order of `Keymaps`' fields. A quit binding wins; otherwise every
/// binding of `c` applies, in a fixed order.
pub open spec fn char_commands(c: char, focus: Focus, km: Seq<Seq<char>>) -> Seq<Command> {
    let k = seq![c];
    if k == km[0] {
        seq![Command::Quit]
    } else {
        when(k == km[3], Command::StartRename) + when(k == km[11], Command::ToggleFocus) + when(
            k == km[1],
            Command::StartInput(InputAction::CreateFile),
        ) + when(k == km[2], Command::StartInput(InputAction::CreateFolder)) + when(
            k == km[8],
            Command::StartInput(InputAction::ConfirmDelete),
        ) + when(k == km[4], Command::StartInput(InputAction::OpenWith)) + when(
            k == km[9],
            Command::CycleSort,
        ) + when(k == km[5], Command::Copy) + when(k == km[6], Command::Cut) + when(
            k == km[7],
            Command::Paste,
        ) + when(k == km[10], Command::ToggleHidden) + when(
            k == km[12] && focus == Focus::Files,
            Command::Pin,
        ) + when(k == km[13] && focus == Focus::Pinned, Command::Unpin)
    }
}

/// The commands for `key` while the input line serves `action`;
/// `input_empty` tells whether the line is empty.
pub open spec fn input_commands(action: InputAction, key: Key, input_empty: bool) -> Seq<Command> {
    if action == InputAction::ConfirmDelete {
        match key {
            Key::Char('y') => seq![Command::TrashSelected, Command::LeaveInput],
            Key::Char('n') | Key::Esc => seq![Command::LeaveInput],
            _ => Seq::empty(),
        }
    } else {
        match key {
            Key::Enter => {
                let run = match action {
                    InputAction::Rename => seq![Command::ConfirmRename],
                    InputAction::CreateFile => when(!input_empty, Command::CreateFile),
                    InputAction::CreateFolder => when(!input_empty, Command::CreateFolder),
                    InputAction::OpenWith => when(!input_empty, Command::OpenWith),
                    InputAction::ConfirmDelete => Seq::empty(),
                };
                run.push(Command::LeaveInput)
            },
            Key::Esc => seq![Command::LeaveInput],
            Key::Backspace => seq![Command::PopInput],
            Key::Char(c) => seq![Command::PushInput(c)],
            _ => Seq::empty(),
        }
    }
}

/// The commands for `key` in normal mode.
pub open spec fn normal_commands(key: Key, focus: Focus, km: Seq<Seq<char>>) -> Seq<Command> {
    match key {
        Key::Tab => when(km[11] == "tab"@, Command::ToggleFocus),
        Key::Char('/') => seq![Command::ToggleHelp],
        Key::Down => if focus == Focus::Files {
            seq![Command::NextEntry]
        } else {
            seq![Command::NextPinned]
        },
        Key::Up => if focus == Focus::Files {
            seq![Command::PreviousEntry]
        } else {
            seq![Command::PreviousPinned]
        },
        Key::Enter => when(km[4] == "enter"@, Command::StartInput(InputAction::OpenWith)),
        Key::Right => if focus == Focus::Files {
            seq![Command::EnterSelected]
        } else {
            seq![Command::OpenPinned]
        },
        Key::Left => seq![Command::GoUp],
        Key::Char(c) => char_commands(c, focus, km),
        _ => Seq::empty(),
    }
}

/// The commands for `key`: the help popup takes every key (Esc closes it),
/// then the input line, then the browser.
pub open spec fn key_commands(
    show_help: bool,
    mode: AppMode,
    focus: Focus,
    input_empty: bool,
    key: Key,
    km: Seq<Seq<char>>,
) -> Seq<Command> {
    if show_help {
        when(key == Key::Esc, Command::CloseHelp)
    } else {
        match mode {
            AppMode::Input(action) => input_commands(action, key, input_empty),
            AppMode::Normal => normal_commands(key, focus, km),
        }
    }
}

fn is_key(binding: &String, c: char) -> (r: bool)
    ensures
        r == (seq![c] == binding@),
{
    let s = binding.as_str();
    if s.unicode_len() != 1 {
        return false;
    }
    let r = s.get_char(0) == c;
    proof {
        if r {
            assert(binding@ =~= seq![c]);
        }
    }
    r
}

fn push_when(cmds: &mut Vec<Command>, b: bool, c: Command)
    ensures
        final(cmds)@ == old(cmds)@ + when(b, c),
{
    if b {
        cmds.push(c);
    }
    assert(final(cmds)@ =~= old(cmds)@ + when(b, c));
}

#[verifier::rlimit(50)]
fn char_commands_of(c: char, focus: Focus, keys: &Keymaps) -> (r: Vec<Command>)
    ensures
        r@ == char_commands(c, focus, keys@),
{
    proof {
        assert(keys@[0] == keys.quit@);
        assert(keys@[1] == keys.create_file@);
        assert(keys@[2] == keys.create_folder@);
        assert(keys@[3] == keys.rename@);
        assert(keys@[4] == keys.open@);
        assert(keys@[5] == keys.copy@);
        assert(keys@[6] == keys.cut@);
        assert(keys@[7] == keys.paste@);
        assert(keys@[8] == keys.trash@);
        assert(keys@[9] == keys.sort@);
        assert(keys@[10] == keys.toggle_hidden@);
        assert(keys@[11] == keys.focus@);
        assert(keys@[12] == keys.pin@);
        assert(keys@[13] == keys.unpin@);
    }
    let mut r: Vec<Command> = Vec::new();
    if is_key(&keys.quit, c) {
        r.push(Command::Quit);
        return r;
    }
    let files = match focus {
        Focus::Files => true,
        Focus::Pinned => false,
    };
    push_when(&mut r, is_key(&keys.rename, c), Command::StartRename);
    assert(r@ =~= when(seq![c] == keys@[3], Command::StartRename));
    push_when(&mut r, is_key(&keys.focus, c), Command::ToggleFocus);
    push_when(&mut r, is_key(&keys.create_file, c), Command::StartInput(InputAction::CreateFile));
    push_when(&mut r, is_key(&keys.create_folder, c), Command::StartInput(InputAction::CreateFolder));
    push_when(&mut r, is_key(&keys.trash, c), Command::StartInput(InputAction::ConfirmDelete));
    push_when(&mut r, is_key(&keys.open, c), Command::StartInput(InputAction::OpenWith));
    push_when(&mut r, is_key(&keys.sort, c), Command::CycleSort);
    push_when(&mut r, is_key(&keys.copy, c), Command::Copy);
    push_when(&mut r, is_key(&keys.cut, c), Command::Cut);
    push_when(&mut r, is_key(&keys.paste, c), Command::Paste);
    push_when(&mut r, is_key(&keys.toggle_hidden, c), Command::ToggleHidden);
    push_when(&mut r, is_key(&keys.pin, c) && files, Command::Pin);
    push_when(&mut r, is_key(&keys.unpin, c) && !files, Command::Unpin);
    r
}

fn input_commands_of(action: InputAction, key: Key, input_empty: bool) -> (r: Vec<Command>)
    ensures
        r@ == input_commands(action, key, input_empty),
{
    let mut r: Vec<Command> = Vec::new();
    match action {
        InputAction::ConfirmDelete => {
            match key {
                Key::Char('y') => {
                    r.push(Command::TrashSelected);
                    r.push(Command::LeaveInput);
                },
                Key::Char('n') | Key::Esc => {
                    r.push(Command::LeaveInput);
                },
                _ => {},
            }
        },
        _ => {
            match key {
                Key::Enter => {
                    match action {
                        InputAction::Rename => r.push(Command::ConfirmRename),
                        InputAction::CreateFile => push_when(&mut r, !input_empty, Command::CreateFile),
                        InputAction::CreateFolder => push_when(&mut r, !input_empty, Command::CreateFolder),
                        InputAction::OpenWith => push_when(&mut r, !input_empty, Command::OpenWith),
                        InputAction::ConfirmDelete => {},
                    }
                    r.push(Command::LeaveInput);
                },
                Key::Esc => r.push(Command::LeaveInput),
                Key::Backspace => r.push(Command::PopInput),
                Key::Char(c) => r.push(Command::PushInput(c)),
                _ => {},
            }
        },
    }
    assert(r@ =~= input_commands(action, key, input_empty));
    r
}

fn normal_commands_of(key: Key, focus: Focus, keys: &Keymaps) -> (r: Vec<Command>)
    ensures
        r@ == normal_commands(key, focus, keys@),
{
    let mut r: Vec<Command> = Vec::new();
    let files = match focus {
        Focus::Files => true,
        Focus::Pinned => false,
    };
    match key {
        Key::Tab => push_when(&mut r, str_eq(keys.focus.as_str(), "tab"), Command::ToggleFocus),
        Key::Char('/') => r.push(Command::ToggleHelp),
        Key::Down => r.push(
            if files {
                Command::NextEntry
            } else {
                Command::NextPinned
            },
        ),
        Key::Up => r.push(
            if files {
                Command::PreviousEntry
            } else {
                Command::PreviousPinned
            },
        ),
        Key::Enter => push_when(
            &mut r,
            str_eq(keys.open.as_str(), "enter"),
            Command::StartInput(InputAction::OpenWith),
        ),
        Key::Right => r.push(
            if files {
                Command::EnterSelected
            } else {
                Command::OpenPinned
            },
        ),
        Key::Left => r.push(Command::GoUp),
        Key::Char(c) => {
            return char_commands_of(c, focus, keys);
        },
        _ => {},
    }
    assert(r@ =~= normal_commands(key, focus, keys@));
    r
}

/// The commands for a key press, in the order they are to be carried out.
pub fn key_commands_of(
    show_help: bool,
    mode: AppMode,
    focus: Focus,
    input_empty: bool,
    key: Key,
    keys: &Keymaps,
) -> (r: Vec<Command>)
    ensures
        r@ == key_commands(show_help, mode, focus, input_empty, key, keys@),
{
    if show_help {
        let mut r: Vec<Command> = Vec::new();
        push_when(&mut r, key == Key::Esc, Command::CloseHelp);
        assert(r@ =~= when(key == Key::Esc, Command::CloseHelp));
        return r;
    }
    match mode {
        AppMode::Input(action) => input_commands_of(action, key, input_empty),
        AppMode::Normal => normal_commands_of(key, focus, keys),
    }
}

} // verus!
