use fren::{
    format_permissions, parse_color, parse_lowered_color, parse_toml_like, AppMode, ClipboardMode,
    Config, Focus, IconMode, InputAction, SortMode, Theme, ThemeColor,
};

#[test]
fn default_config_binds_documented_keys() {
    let c = Config::default();
    let k = &c.keymaps;
    assert_eq!(k.quit, "q");
    assert_eq!(k.create_file, "n");
    assert_eq!(k.create_folder, "f");
    assert_eq!(k.rename, "r");
    assert_eq!(k.open, "enter");
    assert_eq!(k.copy, "c");
    assert_eq!(k.cut, "x");
    assert_eq!(k.paste, "v");
    assert_eq!(k.trash, "d");
    assert_eq!(k.sort, "s");
    assert_eq!(k.toggle_hidden, ".");
    assert_eq!(k.focus, "tab");
    assert_eq!(k.pin, "p");
    assert_eq!(k.unpin, "u");
}

#[test]
fn config_text_overrides_known_keys() {
    let c = Config::from_text("quit = \"x\"\n  open=\"o\"  \r\nbogus = \"z\"\nno equals here\npin = y\nquit = \"Q\"");
    assert_eq!(c.keymaps.quit, "Q");
    assert_eq!(c.keymaps.open, "o");
    assert_eq!(c.keymaps.pin, "y");
    assert_eq!(c.keymaps.copy, "c");
}

#[test]
fn config_value_keeps_text_after_first_equals() {
    let c = Config::from_text("sort = \"a=b\"\n\nrename = \"\"\"r\"\"\"\n");
    assert_eq!(c.keymaps.sort, "a=b");
    assert_eq!(c.keymaps.rename, "r");
}

#[test]
fn empty_config_text_keeps_defaults() {
    let c = Config::from_text("");
    assert_eq!(c.keymaps.quit, "q");
    assert_eq!(c.keymaps.focus, "tab");
}

#[test]
fn toml_like_skips_comments_and_blank_lines() {
    let pairs = parse_toml_like("# comment = no\n\nbackground = \"#0f1419\"\n  border=gray\nnothing\n");
    assert_eq!(
        pairs,
        vec![
            ("background".to_string(), "#0f1419".to_string()),
            ("border".to_string(), "gray".to_string()),
        ]
    );
}

#[test]
fn colors_parse_hex_and_names() {
    assert_eq!(parse_color("#0f1419"), ThemeColor::Rgb(0x0f, 0x14, 0x19));
    assert_eq!(parse_color("  #FFaa00 "), ThemeColor::Rgb(0xff, 0xaa, 0x00));
    assert_eq!(parse_color("##123456"), ThemeColor::Rgb(0x12, 0x34, 0x56));
    assert_eq!(parse_color("Black"), ThemeColor::Black);
    assert_eq!(parse_color("DARKGRAY"), ThemeColor::DarkGray);
    assert_eq!(parse_color("magenta"), ThemeColor::Magenta);
    assert_eq!(parse_color("#12345"), ThemeColor::Reset);
    assert_eq!(parse_color("#12345g"), ThemeColor::Reset);
    assert_eq!(parse_color("purple"), ThemeColor::Reset);
    assert_eq!(parse_lowered_color("#+abcde"), ThemeColor::Rgb(0x0a, 0xbc, 0xde));
    assert_eq!(parse_lowered_color("cyan"), ThemeColor::Cyan);
}

#[test]
fn theme_text_sets_colors_over_defaults() {
    let t = Theme::from_text("background = \"#000001\"\nmuted = \"red\"\n# border = \"white\"\nmuted = \"green\"\n");
    assert_eq!(t.background, ThemeColor::Rgb(0, 0, 1));
    assert_eq!(t.muted, ThemeColor::Green);
    assert_eq!(t.border, ThemeColor::Gray);
    assert_eq!(t.foreground, ThemeColor::White);
    let d = Theme::default();
    assert_eq!(d.background, ThemeColor::Black);
    assert_eq!(d.focus_border, ThemeColor::Yellow);
    assert_eq!(d.status_bg, ThemeColor::DarkGray);
}

#[test]
fn permissions_render_as_rwx() {
    assert_eq!(format_permissions(0o755), "rwxr-xr-x");
    assert_eq!(format_permissions(0o644), "rw-r--r--");
    assert_eq!(format_permissions(0), "---------");
    assert_eq!(format_permissions(0o100777), "rwxrwxrwx");
}

#[test]
fn sort_mode_cycles_and_labels() {
    assert_eq!(SortMode::Name.next(), SortMode::Size);
    assert_eq!(SortMode::Size.next(), SortMode::Modified);
    assert_eq!(SortMode::Modified.next(), SortMode::Name);
    assert_eq!(SortMode::Name.label(), "Name");
    assert_eq!(SortMode::Size.label(), "Size");
    assert_eq!(SortMode::Modified.label(), "Modified");
}

#[test]
fn focus_toggles_between_panels() {
    assert_eq!(Focus::Files.toggle(), Focus::Pinned);
    assert_eq!(Focus::Pinned.toggle(), Focus::Files);
    assert_ne!(AppMode::Normal, AppMode::Input(InputAction::Rename));
    assert_ne!(ClipboardMode::Copy, ClipboardMode::Cut);
    assert_ne!(IconMode::Ascii, IconMode::Emoji);
}
