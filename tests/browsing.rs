use fren::{
    ascii_icon, detect_icon_mode, dirs_first_order, emoji_icon, file_kind, icon_for,
    icon_mode_from_lowered, image_kind, key_commands_of, nerd_icon, restore_cursor, sort_order,
    trash_candidate, unpin_at, AppMode, Command, Config, EntryInfo, FileKind, Focus, IconMode,
    ImageKind, InputAction, Key, SortMode,
};

#[test]
fn icons_follow_kind_and_mode() {
    assert_eq!(file_kind(true, "png"), FileKind::Directory);
    assert_eq!(file_kind(false, "png"), FileKind::Image);
    assert_eq!(file_kind(false, "PNG"), FileKind::Other);
    assert_eq!(file_kind(false, "yml"), FileKind::Config);
    assert_eq!(emoji_icon(true, ""), "📁 ");
    assert_eq!(emoji_icon(false, "rs"), "🦀 ");
    assert_eq!(emoji_icon(false, "txt"), "📄 ");
    assert_eq!(ascii_icon(true, ""), "[D] ");
    assert_eq!(ascii_icon(false, "py"), "[S] ");
    assert_eq!(ascii_icon(false, "flac"), "[A] ");
    assert_eq!(ascii_icon(false, "md"), "[F] ");
    assert_eq!(nerd_icon(false, "mkv"), "󰕧 ");
    assert_eq!(icon_for(false, "zip", IconMode::Ascii), "[Z] ");
    assert_eq!(icon_for(false, "zip", IconMode::Emoji), "📦 ");
    assert_eq!(icon_for(false, "toml", IconMode::Nerd), nerd_icon(false, "json"));
}

#[test]
fn icon_mode_detection() {
    assert_eq!(detect_icon_mode(Some("NERD"), "xterm", ""), IconMode::Nerd);
    assert_eq!(detect_icon_mode(Some("Ascii"), "xterm", ""), IconMode::Ascii);
    assert_eq!(detect_icon_mode(Some("other"), "dumb", ""), IconMode::Emoji);
    assert_eq!(detect_icon_mode(None, "Linux", ""), IconMode::Ascii);
    assert_eq!(detect_icon_mode(None, "xterm-kitty", ""), IconMode::Ascii);
    assert_eq!(detect_icon_mode(None, "xterm", "KITTY"), IconMode::Ascii);
    assert_eq!(detect_icon_mode(None, "xterm-256color", "iTerm"), IconMode::Emoji);
    assert_eq!(icon_mode_from_lowered(None, "dumb", ""), IconMode::Ascii);
    assert_eq!(icon_mode_from_lowered(None, "DUMB", ""), IconMode::Emoji);
}

#[test]
fn image_kind_ignores_ascii_case() {
    assert_eq!(image_kind("png"), Some(ImageKind::Raster));
    assert_eq!(image_kind("JPEG"), Some(ImageKind::Raster));
    assert_eq!(image_kind("Gif"), Some(ImageKind::Raster));
    assert_eq!(image_kind("pdf"), Some(ImageKind::Pdf));
    assert_eq!(image_kind("PDF"), Some(ImageKind::Pdf));
    assert_eq!(image_kind("txt"), None);
    assert_eq!(image_kind(""), None);
}

#[test]
fn cursor_is_restored_within_listing() {
    assert_eq!(restore_cursor(None, 10), 0);
    assert_eq!(restore_cursor(Some(3), 10), 3);
    assert_eq!(restore_cursor(Some(12), 10), 9);
    assert_eq!(restore_cursor(Some(5), 0), 0);
}

#[test]
fn trash_candidates_number_the_name() {
    assert_eq!(trash_candidate("notes.txt", 1), "notes.txt_1");
    assert_eq!(trash_candidate("a", 12), "a_12");
}

#[test]
fn unpin_removes_and_moves_selection_up() {
    let mut pinned = vec!["/a".to_string(), "/b".to_string(), "/c".to_string()];
    let mut selected = 2usize;
    assert!(unpin_at(&mut pinned, &mut selected));
    assert_eq!(pinned, vec!["/a".to_string(), "/b".to_string()]);
    assert_eq!(selected, 1);
    let mut top = 0usize;
    assert!(unpin_at(&mut pinned, &mut top));
    assert_eq!(pinned, vec!["/b".to_string()]);
    assert_eq!(top, 0);
    let mut out_of_range = 4usize;
    assert!(!unpin_at(&mut pinned, &mut out_of_range));
    assert_eq!(pinned.len(), 1);
    assert_eq!(out_of_range, 4);
}

#[test]
fn directories_come_first_in_stable_order() {
    let flags = vec![false, true, false, true, true];
    assert_eq!(dirs_first_order(&flags), vec![1, 3, 4, 0, 2]);
    assert_eq!(dirs_first_order(&vec![]), Vec::<usize>::new());
    assert_eq!(dirs_first_order(&vec![false, false]), vec![0, 1]);
}

fn info(name: &str, size: u64, modified: Option<i128>) -> EntryInfo {
    EntryInfo { name: name.to_string(), size, modified }
}

#[test]
fn listing_sorts_by_natural_name() {
    let items = vec![info("rfc822.txt", 0, None), info("RFC1.txt", 0, None), info("rfc2086.txt", 0, None)];
    assert_eq!(sort_order(&items, SortMode::Name), vec![1, 0, 2]);
    let items = vec![info("b", 0, None), info("A", 0, None), info("a10", 0, None), info("a9", 0, None)];
    assert_eq!(sort_order(&items, SortMode::Name), vec![1, 3, 2, 0]);
}

#[test]
fn listing_sorts_by_size_stably() {
    let items = vec![info("a", 30, None), info("b", 10, None), info("c", 30, None), info("d", 0, None)];
    assert_eq!(sort_order(&items, SortMode::Size), vec![3, 1, 0, 2]);
    assert_eq!(sort_order(&vec![], SortMode::Size), Vec::<usize>::new());
}

#[test]
fn listing_sorts_by_modification_time_unknown_first() {
    let items = vec![info("a", 0, Some(5)), info("b", 0, None), info("c", 0, Some(-3)), info("d", 0, Some(5))];
    assert_eq!(sort_order(&items, SortMode::Modified), vec![1, 2, 0, 3]);
}

#[test]
fn keys_map_to_commands() {
    let keys = Config::default().keymaps;
    let normal = |key: Key, focus: Focus| key_commands_of(false, AppMode::Normal, focus, true, key, &keys);

    assert_eq!(normal(Key::Char('q'), Focus::Files), vec![Command::Quit]);
    assert_eq!(normal(Key::Char('c'), Focus::Files), vec![Command::Copy]);
    assert_eq!(normal(Key::Char('p'), Focus::Files), vec![Command::Pin]);
    assert_eq!(normal(Key::Char('p'), Focus::Pinned), Vec::<Command>::new());
    assert_eq!(normal(Key::Char('u'), Focus::Pinned), vec![Command::Unpin]);
    assert_eq!(normal(Key::Char('/'), Focus::Files), vec![Command::ToggleHelp]);
    assert_eq!(normal(Key::Tab, Focus::Files), vec![Command::ToggleFocus]);
    assert_eq!(normal(Key::Down, Focus::Pinned), vec![Command::NextPinned]);
    assert_eq!(normal(Key::Right, Focus::Files), vec![Command::EnterSelected]);
    assert_eq!(
        normal(Key::Enter, Focus::Files),
        vec![Command::StartInput(InputAction::OpenWith)]
    );
    assert_eq!(normal(Key::Char('z'), Focus::Files), Vec::<Command>::new());

    let help = key_commands_of(true, AppMode::Normal, Focus::Files, true, Key::Char('q'), &keys);
    assert!(help.is_empty());
    let help = key_commands_of(true, AppMode::Normal, Focus::Files, true, Key::Esc, &keys);
    assert_eq!(help, vec![Command::CloseHelp]);

    let confirm = AppMode::Input(InputAction::ConfirmDelete);
    assert_eq!(
        key_commands_of(false, confirm, Focus::Files, true, Key::Char('y'), &keys),
        vec![Command::TrashSelected, Command::LeaveInput]
    );
    let create = AppMode::Input(InputAction::CreateFile);
    assert_eq!(
        key_commands_of(false, create, Focus::Files, true, Key::Enter, &keys),
        vec![Command::LeaveInput]
    );
    assert_eq!(
        key_commands_of(false, create, Focus::Files, false, Key::Enter, &keys),
        vec![Command::CreateFile, Command::LeaveInput]
    );
    assert_eq!(
        key_commands_of(false, create, Focus::Files, false, Key::Char('q'), &keys),
        vec![Command::PushInput('q')]
    );
}

#[test]
fn one_key_may_run_several_bindings() {
    let config = Config::from_text("copy = \"k\"\ncut = \"k\"\nsort = \"k\"\n");
    let cmds = key_commands_of(false, AppMode::Normal, Focus::Files, true, Key::Char('k'), &config.keymaps);
    assert_eq!(cmds, vec![Command::CycleSort, Command::Copy, Command::Cut]);
    let config = Config::from_text("quit = \"k\"\ncopy = \"k\"\n");
    let cmds = key_commands_of(false, AppMode::Normal, Focus::Files, true, Key::Char('k'), &config.keymaps);
    assert_eq!(cmds, vec![Command::Quit]);
}
