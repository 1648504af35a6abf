//! Preview pipeline of a terminal file browser: cache keys, a bounded
//! least-recently-used artifact cache, job coalescing with generation-based
//! cancellation, decoding limits, and the debounced preview state of the UI.

pub mod browse;
pub mod cache;
pub mod config;
pub mod engine;
pub mod format;
pub mod icons;
pub mod job;
pub mod key;
pub mod keys;
pub mod lines;
pub mod listing;
pub mod modes;
pub mod preview;
pub mod text;
pub mod theme;
pub mod token;

pub use browse::{
    detect_icon_mode, dirs_first_order, icon_mode_from_lowered, image_kind, restore_cursor,
    trash_candidate, unpin_at,
    ImageKind,
};
pub use cache::PreviewCache;
pub use config::{Config, Keymaps};
pub use format::format_permissions;
pub use icons::{ascii_icon, emoji_icon, file_kind, icon_for, nerd_icon, FileKind};
pub use engine::{finish_decode, fit_to_box, publish, render_decoded, PreviewResult};
pub use job::{
    cache_key, coalesce, decode_limits, fits_within, is_live, job_key, pdf_output_base,
    pdf_output_png, rasterizer_args, CellBox, PreviewJob,
};
pub use key::{quantize, ImageKey};
pub use keys::{key_commands_of, Command, Key};
pub use listing::{sort_order, EntryInfo};
pub use modes::{AppMode, ClipboardMode, Focus, IconMode, InputAction, SortMode};
pub use preview::{PaneView, PreviewState, PreviewTarget, TickOutcome};
pub use theme::{parse_color, parse_lowered_color, parse_toml_like, Theme, ThemeColor};
pub use token::CancelToken;
