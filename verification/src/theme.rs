//! Nerd Font icon glyphs shared by the status line, the Now Playing pane and the status-line
//! classifier ([`crate::view::status_kind`]). A single source of truth so the classifier and the
//! strings the app emits never drift apart.

use vstd::prelude::*;

verus! {

// --- Now Playing / library icons ---
/// Music note — track title and the cover-art placeholder.
pub const MUSIC: &'static str = "\u{f001}";
/// Microphone — artist line.
pub const ARTIST: &'static str = "\u{f130}";
/// Compact disc — album line.
pub const ALBUM: &'static str = "\u{f51f}";
/// Magnifier — the search input bar.
pub const SEARCH: &'static str = "\u{f002}";
/// Speaker — device / volume line.
pub const VOLUME: &'static str = "\u{f028}";

// --- State / status icons ---
/// Warning — the prefix for every warning status line (matched by `status_kind`).
pub const WARN: &'static str = "\u{f071}";
/// Play — playing state.
pub const PLAY: &'static str = "\u{f04b}";
/// Pause — paused state.
pub const PAUSE: &'static str = "\u{f04c}";
/// Step forward — next track.
pub const NEXT: &'static str = "\u{f051}";
/// Step backward — previous track.
pub const PREV: &'static str = "\u{f048}";
/// Fast forward — seek.
pub const SEEK: &'static str = "\u{f04e}";
/// Filled heart — track saved to library.
pub const HEART: &'static str = "\u{f004}";
/// Empty heart — track not saved.
pub const HEART_O: &'static str = "\u{f08a}";
/// Check mark — login success.
pub const CHECK: &'static str = "\u{f00c}";

/// The set of status prefixes classified as [`crate::view::StatusKind::Ok`].
pub const OK_PREFIXES: [&'static str; 8] = [PLAY, PAUSE, NEXT, PREV, SEEK, VOLUME, HEART, HEART_O];

} // verus!
