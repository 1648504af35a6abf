use vstd::prelude::*;
use crate::lines::str_eq;
use crate::modes::IconMode;

verus! {

/// What an entry is, as its icon shows it.
#[derive(Clone, Copy, Debug, PartialEq, Eq, Structural)]
pub enum FileKind {
    Directory,
    Image,
    Audio,
    Video,
    Archive,
    Rust,
    C,
    Python,
    JavaScript,
    TypeScript,
    Config,
    Other,
}

/// The kind of a file by its extension (compared exactly).
pub open spec fn ext_kind(ext: Seq<char>) -> FileKind {
    if ext == "png"@ {
        FileKind::Image
    } else if ext == "jpg"@ {
        FileKind::Image
    } else if ext == "jpeg"@ {
        FileKind::Image
    } else if ext == "webp"@ {
        FileKind::Image
    } else if ext == "gif"@ {
        FileKind::Image
    } else if ext == "mp3"@ {
        FileKind::Audio
    } else if ext == "wav"@ {
        FileKind::Audio
    } else if ext == "flac"@ {
        FileKind::Audio
    } else if ext == "mp4"@ {
        FileKind::Video
    } else if ext == "mkv"@ {
        FileKind::Video
    } else if ext == "mov"@ {
        FileKind::Video
    } else if ext == "zip"@ {
        FileKind::Archive
    } else if ext == "tar"@ {
        FileKind::Archive
    } else if ext == "gz"@ {
        FileKind::Archive
    } else if ext == "rar"@ {
        FileKind::Archive
    } else if ext == "rs"@ {
        FileKind::Rust
    } else if ext == "c"@ {
        FileKind::C
    } else if ext == "cpp"@ {
        FileKind::C
    } else if ext == "h"@ {
        FileKind::C
    } else if ext == "py"@ {
        FileKind::Python
    } else if ext == "js"@ {
        FileKind::JavaScript
    } else if ext == "ts"@ {
        FileKind::TypeScript
    } else if ext == "toml"@ {
        FileKind::Config
    } else if ext == "json"@ {
        FileKind::Config
    } else if ext == "yaml"@ {
        FileKind::Config
    } else if ext == "yml"@ {
        FileKind::Config
    } else {
        FileKind::Other
    }
}

/// The kind of an entry: directories first, then by extension.
pub open spec fn kind_of(is_dir: bool, ext: Seq<char>) -> FileKind {
    if is_dir {
        FileKind::Directory
    } else {
        ext_kind(ext)
    }
}

/// The emoji glyph of an entry of kind `k`.
pub open spec fn emoji_glyph(k: FileKind) -> Seq<char> {
    match k {
        FileKind::Directory => "📁 "@,
        FileKind::Image => "🖼  "@,
        FileKind::Audio => "🎵 "@,
        FileKind::Video => "🎬 "@,
        FileKind::Archive => "📦 "@,
        FileKind::Rust => "🦀 "@,
        FileKind::C => "💻 "@,
        FileKind::Python => "🐍 "@,
        FileKind::JavaScript => "📜 "@,
        FileKind::TypeScript => "📜 "@,
        FileKind::Config => "⚙  "@,
        FileKind::Other => "📄 "@,
    }
}
/// The ascii glyph of an entry of kind `k`.
pub open spec fn ascii_glyph(k: FileKind) -> Seq<char> {
    match k {
        FileKind::Directory => "[D] "@,
        FileKind::Image => "[I] "@,
        FileKind::Audio => "[A] "@,
        FileKind::Video => "[V] "@,
        FileKind::Archive => "[Z] "@,
        FileKind::Rust => "[S] "@,
        FileKind::C => "[S] "@,
        FileKind::Python => "[S] "@,
        FileKind::JavaScript => "[S] "@,
        FileKind::TypeScript => "[S] "@,
        FileKind::Config => "[C] "@,
        FileKind::Other => "[F] "@,
    }
}
/// The nerd glyph of an entry of kind `k`.
pub open spec fn nerd_glyph(k: FileKind) -> Seq<char> {
    match k {
        FileKind::Directory => "󰉋 "@,
        FileKind::Image => "󰋩 "@,
        FileKind::Audio => "󰎈 "@,
        FileKind::Video => "󰕧 "@,
        FileKind::Archive => "󰀼 "@,
        FileKind::Rust => " "@,
        FileKind::C => " "@,
        FileKind::Python => " "@,
        FileKind::JavaScript => " "@,
        FileKind::TypeScript => " "@,
        FileKind::Config => " "@,
        FileKind::Other => "󰈔 "@,
    }
}
/// The glyph of kind `k` in icon mode `mode`.
pub open spec fn glyph(k: FileKind, mode: IconMode) -> Seq<char> {
    match mode {
        IconMode::Ascii => ascii_glyph(k),
        IconMode::Emoji => emoji_glyph(k),
        IconMode::Nerd => nerd_glyph(k),
    }
}

fn ext_kind_of(ext: &str) -> (r: FileKind)
    ensures
        r == ext_kind(ext@),
{
    if str_eq(ext, "png") {
        FileKind::Image
    } else if str_eq(ext, "jpg") {
        FileKind::Image
    } else if str_eq(ext, "jpeg") {
        FileKind::Image
    } else if str_eq(ext, "webp") {
        FileKind::Image
    } else if str_eq(ext, "gif") {
        FileKind::Image
    } else if str_eq(ext, "mp3") {
        FileKind::Audio
    } else if str_eq(ext, "wav") {
        FileKind::Audio
    } else if str_eq(ext, "flac") {
        FileKind::Audio
    } else if str_eq(ext, "mp4") {
        FileKind::Video
    } else if str_eq(ext, "mkv") {
        FileKind::Video
    } else if str_eq(ext, "mov") {
        FileKind::Video
    } else if str_eq(ext, "zip") {
        FileKind::Archive
    } else if str_eq(ext, "tar") {
        FileKind::Archive
    } else if str_eq(ext, "gz") {
        FileKind::Archive
    } else if str_eq(ext, "rar") {
        FileKind::Archive
    } else if str_eq(ext, "rs") {
        FileKind::Rust
    } else if str_eq(ext, "c") {
        FileKind::C
    } else if str_eq(ext, "cpp") {
        FileKind::C
    } else if str_eq(ext, "h") {
        FileKind::C
    } else if str_eq(ext, "py") {
        FileKind::Python
    } else if str_eq(ext, "js") {
        FileKind::JavaScript
    } else if str_eq(ext, "ts") {
        FileKind::TypeScript
    } else if str_eq(ext, "toml") {
        FileKind::Config
    } else if str_eq(ext, "json") {
        FileKind::Config
    } else if str_eq(ext, "yaml") {
        FileKind::Config
    } else if str_eq(ext, "yml") {
        FileKind::Config
    } else {
        FileKind::Other
    }
}

/// The kind of an entry that is a directory or has extension `ext`.
pub fn file_kind(is_dir: bool, ext: &str) -> (r: FileKind)
    ensures
        r == kind_of(is_dir, ext@),
{
    if is_dir {
        FileKind::Directory
    } else {
        ext_kind_of(ext)
    }
}

/// The emoji icon of an entry.
pub fn emoji_icon(is_dir: bool, ext: &str) -> (r: &'static str)
    ensures
        r@ == emoji_glyph(kind_of(is_dir, ext@)),
{
    match file_kind(is_dir, ext) {
        FileKind::Directory => "📁 ",
        FileKind::Image => "🖼  ",
        FileKind::Audio => "🎵 ",
        FileKind::Video => "🎬 ",
        FileKind::Archive => "📦 ",
        FileKind::Rust => "🦀 ",
        FileKind::C => "💻 ",
        FileKind::Python => "🐍 ",
        FileKind::JavaScript => "📜 ",
        FileKind::TypeScript => "📜 ",
        FileKind::Config => "⚙  ",
        FileKind::Other => "📄 ",
    }
}

/// The plain-text icon of an entry, for terminals without wide glyphs.
pub fn ascii_icon(is_dir: bool, ext: &str) -> (r: &'static str)
    ensures
        r@ == ascii_glyph(kind_of(is_dir, ext@)),
{
    match file_kind(is_dir, ext) {
        FileKind::Directory => "[D] ",
        FileKind::Image => "[I] ",
        FileKind::Audio => "[A] ",
        FileKind::Video => "[V] ",
        FileKind::Archive => "[Z] ",
        FileKind::Rust => "[S] ",
        FileKind::C => "[S] ",
        FileKind::Python => "[S] ",
        FileKind::JavaScript => "[S] ",
        FileKind::TypeScript => "[S] ",
        FileKind::Config => "[C] ",
        FileKind::Other => "[F] ",
    }
}

/// The Nerd Font icon of an entry.
pub fn nerd_icon(is_dir: bool, ext: &str) -> (r: &'static str)
    ensures
        r@ == nerd_glyph(kind_of(is_dir, ext@)),
{
    match file_kind(is_dir, ext) {
        FileKind::Directory => "󰉋 ",
        FileKind::Image => "󰋩 ",
        FileKind::Audio => "󰎈 ",
        FileKind::Video => "󰕧 ",
        FileKind::Archive => "󰀼 ",
        FileKind::Rust => " ",
        FileKind::C => " ",
        FileKind::Python => " ",
        FileKind::JavaScript => " ",
        FileKind::TypeScript => " ",
        FileKind::Config => " ",
        FileKind::Other => "󰈔 ",
    }
}

/// The icon of an entry in icon mode `mode`.
pub fn icon_for(is_dir: bool, ext: &str, mode: IconMode) -> (r: &'static str)
    ensures
        r@ == glyph(kind_of(is_dir, ext@), mode),
{
    match mode {
        IconMode::Ascii => ascii_icon(is_dir, ext),
        IconMode::Emoji => emoji_icon(is_dir, ext),
        IconMode::Nerd => nerd_icon(is_dir, ext),
    }
}

} // verus!
