//! Dashboard display calculations: progress interpolation, seeking, the one-line formatters for
//! the list panes, the status-line classifier, pane focus, and the Now Playing lines.

use vstd::prelude::*;

use crate::browse::{tab_label, BrowseTab, LibraryRow};
use crate::devices::DeviceEntry;
use crate::format::{
    char_cols, cw, display_width, format_ms, format_ms_spec, lemma_char_cols_concat, lemma_truncate_width,
    str_width, truncate, truncate_spec, adds_up, truncations_add_up,
};
use crate::text::{
    chars_of, decimal, is_white, lead_ws, push_char, push_decimal, push_str, starts_with,
    starts_with_spec, trim_start, trim_start_spec,
};
use crate::theme;

verus! {

// ---- progress ---------------------------------------------------------------

/// What `interpolate_progress` returns.
pub open spec fn interpolate_spec(base_ms: nat, elapsed_ms: nat, duration_ms: nat, playing: bool) -> nat {
    if !playing {
        base_ms
    } else {
        let advanced = if base_ms + elapsed_ms > u128::MAX { u128::MAX as nat } else { base_ms + elapsed_ms };
        if duration_ms == 0 || advanced <= duration_ms {
            advanced
        } else {
            duration_ms
        }
    }
}

/// If playing, return the progress advanced from the base `base_ms` by the elapsed time (capped at
/// `duration_ms`). While paused, stays at the base. When `duration_ms == 0` (unknown length), no cap.
pub fn interpolate_progress(base_ms: u128, elapsed_ms: u128, duration_ms: u128, playing: bool) -> (r: u128)
    ensures
        r == interpolate_spec(base_ms as nat, elapsed_ms as nat, duration_ms as nat, playing),
{
    if !playing {
        return base_ms;
    }
    let advanced = if base_ms > u128::MAX - elapsed_ms { u128::MAX } else { base_ms + elapsed_ms };
    if duration_ms == 0 || advanced <= duration_ms {
        advanced
    } else {
        duration_ms
    }
}

/// What `seek_target` returns.
pub open spec fn seek_spec(current_ms: nat, duration_ms: nat, delta_ms: int) -> nat {
    let moved = current_ms + delta_ms;
    let target: nat = if moved < 0 { 0 } else if moved > u128::MAX { u128::MAX as nat } else { moved as nat };
    if duration_ms == 0 || target <= duration_ms {
        target
    } else {
        duration_ms
    }
}

/// Pure function returning the target position (ms) after a seek. Adds `delta_ms` (negative to
/// rewind) to `current_ms` and clamps to `[0, duration_ms]`. When `duration_ms == 0` (unknown
/// length), there is no upper bound.
pub fn seek_target(current_ms: u128, duration_ms: u128, delta_ms: i64) -> (r: u128)
    ensures
        r == seek_spec(current_ms as nat, duration_ms as nat, delta_ms as int),
{
    let target: u128 = if delta_ms >= 0 {
        let d = delta_ms as u128;
        if current_ms > u128::MAX - d { u128::MAX } else { current_ms + d }
    } else {
        let d: u128 = if delta_ms == i64::MIN { 9223372036854775808u128 } else { (-delta_ms) as u128 };
        if current_ms < d { 0 } else { current_ms - d }
    };
    if duration_ms == 0 || target <= duration_ms {
        target
    } else {
        duration_ms
    }
}

// ---- one-line formatters ----------------------------------------------------

/// What `search_hint` returns.
pub open spec fn search_hint_spec(is_input: bool, results_len: nat) -> Seq<char> {
    if is_input {
        "Enter to search / Esc to go back"@
    } else {
        decimal(results_len) + " results — ↑↓ select / Enter play / Esc edit query"@
    }
}

/// The supplementary line of the search pane (the default hint when there is no `message`).
/// Varies by phase and result count.
pub fn search_hint(is_input: bool, results_len: usize) -> (r: String)
    ensures
        r@ == search_hint_spec(is_input, results_len as nat),
{
    if is_input {
        String::from_str("Enter to search / Esc to go back")
    } else {
        let mut r = String::new();
        push_decimal(&mut r, results_len as u128);
        push_str(&mut r, " results — ↑↓ select / Enter play / Esc edit query");
        r
    }
}

/// `a - b` floored at zero.
pub open spec fn sat_sub(a: int, b: int) -> nat {
    if a > b { (a - b) as nat } else { 0 }
}

/// `name — artists`, or just `name` when there are no artists.
pub open spec fn name_artists(name: Seq<char>, artists: Seq<char>) -> Seq<char> {
    if artists.len() == 0 {
        name
    } else {
        name + " — "@ + artists
    }
}

/// What `search_row` returns.
pub open spec fn search_row_spec(name: Seq<char>, artists: Seq<char>, width: nat) -> Seq<char> {
    truncate_spec(name_artists(name, artists), sat_sub(width as int, 2))
}

/// Format one list row (`name — artists`, truncated to the width). Selection highlighting is done
/// by the caller. Truncates at a width reduced by the 2 columns of the selection marker `"▶ "`.
pub fn search_row(name: &str, artists: &str, width: usize) -> (r: String)
    ensures
        r@ == search_row_spec(name@, artists@, width as nat),
{
    let mut text = String::from_str(name);
    if !artists.is_empty() {
        push_str(&mut text, " — ");
        push_str(&mut text, artists);
    }
    truncate(text.as_str(), width.saturating_sub(2))
}

/// Concatenation of the header cells for tabs `0..n` (the current one bracketed).
pub open spec fn tab_header_upto(current: BrowseTab, n: nat) -> Seq<char>
    decreases n,
{
    if n == 0 {
        Seq::empty()
    } else {
        let t = crate::browse::tab_at((n - 1) as nat);
        let cell = if t == current { "["@ + tab_label(t) + "]"@ } else { " "@ + tab_label(t) + " "@ };
        tab_header_upto(current, (n - 1) as nat) + cell
    }
}

/// The library pane tab header, e.g. `[All] Artists  Albums  Playlists  Tracks`. The current tab is
/// wrapped in brackets so it reads as selected even without color.
pub fn library_tab_header(current: BrowseTab) -> (r: String)
    ensures
        r@ == tab_header_upto(current, 5),
{
    let mut r = String::new();
    let mut i: usize = 0;
    while i < 5
        invariant
            i <= 5,
            r@ == tab_header_upto(current, i as nat),
        decreases 5 - i,
    {
        let t = BrowseTab::ALL[i];
        assert(t == crate::browse::tab_at(i as nat));
        if t == current {
            push_str(&mut r, "[");
            push_str(&mut r, t.label());
            push_str(&mut r, "]");
        } else {
            push_str(&mut r, " ");
            push_str(&mut r, t.label());
            push_str(&mut r, " ");
        }
        i = i + 1;
    }
    r
}

/// The library pane's supplementary line. `count` is the number of playable items.
pub fn library_hint(count: usize) -> (r: String)
    ensures
        r@ == decimal(count as nat) + " items — ↑↓ select / [ ] tab / Enter play"@,
{
    let mut r = String::new();
    push_decimal(&mut r, count as u128);
    push_str(&mut r, " items — ↑↓ select / [ ] tab / Enter play");
    r
}

/// The detail pane's supplementary line. `count` is the number of tracks shown.
pub fn detail_hint(count: usize) -> (r: String)
    ensures
        r@ == decimal(count as nat) + " tracks — ↑↓ select / Enter play"@,
{
    let mut r = String::new();
    push_decimal(&mut r, count as u128);
    push_str(&mut r, " tracks — ↑↓ select / Enter play");
    r
}

/// What `detail_error_message` returns.
pub open spec fn detail_error_spec(status: Option<u16>, what: Seq<char>) -> Seq<char> {
    match status {
        Some(code) => if code == 403 {
            what + " unavailable — restricted by Spotify Web API (403)"@
        } else if code == 404 {
            what + " not found (404)"@
        } else {
            "failed to load "@ + what + " (HTTP "@ + decimal(code as nat) + ")"@
        },
        None => "failed to load "@ + what,
    }
}

/// Turn a failed detail fetch into a concise, non-alarming pane message. `403` is what Spotify
/// answers for content restricted for this app's access tier, so it reads as a limitation.
pub fn detail_error_message(status: Option<u16>, what: &str) -> (r: String)
    ensures
        r@ == detail_error_spec(status, what@),
{
    match status {
        Some(403) => {
            let mut r = String::from_str(what);
            push_str(&mut r, " unavailable — restricted by Spotify Web API (403)");
            r
        },
        Some(404) => {
            let mut r = String::from_str(what);
            push_str(&mut r, " not found (404)");
            r
        },
        Some(code) => {
            let mut r = String::from_str("failed to load ");
            push_str(&mut r, what);
            push_str(&mut r, " (HTTP ");
            push_decimal(&mut r, code as u128);
            push_str(&mut r, ")");
            r
        },
        None => {
            let mut r = String::from_str("failed to load ");
            push_str(&mut r, what);
            r
        },
    }
}

/// `n` spaces.
pub open spec fn spaces(n: nat) -> Seq<char> {
    Seq::new(n, |i: int| ' ')
}

/// Append `n` spaces.
fn push_spaces(s: &mut String, n: usize)
    ensures
        final(s)@ == old(s)@ + spaces(n as nat),
{
    let ghost start = s@;
    let mut i: usize = 0;
    while i < n
        invariant
            i <= n,
            s@ == start + spaces(i as nat),
        decreases n - i,
    {
        push_char(s, ' ');
        assert(spaces(i as nat).push(' ') =~= spaces((i + 1) as nat));
        i = i + 1;
    }
}

/// The left part of a detail row before truncation.
pub open spec fn detail_body(track_no: Option<u32>, title: Seq<char>, artists: Seq<char>, is_current: bool) -> Seq<char> {
    let marker = if is_current { theme::PLAY@ + " "@ } else { Seq::empty() };
    let no = match track_no { Some(n) => decimal(n as nat) + " "@, None => Seq::empty() };
    name_artists(marker + no + title, artists)
}

/// What `detail_row` returns.
pub open spec fn detail_row_spec(
    track_no: Option<u32>,
    title: Seq<char>,
    artists: Seq<char>,
    duration_ms: nat,
    is_current: bool,
    width: nat,
) -> Seq<char> {
    let dur = format_ms_spec(duration_ms);
    let avail = sat_sub(width as int, 2);
    let dur_w = str_width(dur);
    let body = truncate_spec(detail_body(track_no, title, artists, is_current), sat_sub(avail as int, (dur_w + 1) as int));
    let pad = sat_sub(avail as int, (str_width(body) + dur_w) as int);
    body + spaces(pad) + dur
}

/// `a - b` floored at zero, computed without overflow.
fn sat_sub_usize(a: usize, b: usize) -> (r: usize)
    ensures
        r == sat_sub(a as int, b as int),
{
    if a > b { a - b } else { 0 }
}

/// Format one detail-pane track row: `{▶ }{no} {title} — {artists}` on the left with the duration
/// right-aligned to the pane width. The currently-playing track is prefixed with the play glyph.
/// Truncates at a width reduced by the 2 columns of the selection marker, and reserves room for
/// the right-aligned duration so it is never clipped.
pub fn detail_row(
    track_no: Option<u32>,
    title: &str,
    artists: &str,
    duration_ms: u128,
    is_current: bool,
    width: usize,
) -> (r: String)
    ensures
        r@ == detail_row_spec(track_no, title@, artists@, duration_ms as nat, is_current, width as nat),
{
    let mut body = String::new();
    if is_current {
        push_str(&mut body, theme::PLAY);
        push_str(&mut body, " ");
    }
    match track_no {
        Some(n) => {
            push_decimal(&mut body, n as u128);
            push_str(&mut body, " ");
        },
        None => {},
    }
    push_str(&mut body, title);
    if !artists.is_empty() {
        push_str(&mut body, " — ");
        push_str(&mut body, artists);
    }
    assert(body@ == detail_body(track_no, title@, artists@, is_current));
    let dur = format_ms(duration_ms);
    let avail = sat_sub_usize(width, 2);
    let dur_w = display_width(dur.as_str());
    let body_max = if dur_w >= avail { 0 } else { avail - dur_w - 1 };
    let body = truncate(body.as_str(), body_max);
    let bw = display_width(body.as_str());
    let pad = if bw >= avail || dur_w >= avail - bw { 0 } else { avail - bw - dur_w };
    let mut r = body;
    push_spaces(&mut r, pad);
    push_str(&mut r, dur.as_str());
    r
}

/// What `device_row` returns (before truncation).
pub open spec fn device_text(name: Seq<char>, type_label: Seq<char>, vol: Option<u32>, is_active: bool, is_restricted: bool) -> Seq<char> {
    let mark = if is_active { "●"@ } else { "○"@ };
    let vol_s = match vol { Some(v) => "vol "@ + decimal(v as nat) + "%"@, None => "vol -"@ };
    let base = mark + " "@ + name + " ["@ + type_label + "]  "@ + vol_s;
    let with_active = if is_active { base + "  (active)"@ } else { base };
    if is_restricted { with_active + " (restricted)"@ } else { with_active }
}

/// Pure function that formats one device row for the device picker. Active is shown with
/// `● (active)`, inactive with `○`, and restricted is annotated. Truncates at a width reduced by
/// the 2 columns of the selection marker `"▶ "`.
pub fn device_row(
    name: &str,
    type_label: &str,
    vol: Option<u32>,
    is_active: bool,
    is_restricted: bool,
    width: usize,
) -> (r: String)
    ensures
        r@ == truncate_spec(device_text(name@, type_label@, vol, is_active, is_restricted), sat_sub(width as int, 2)),
{
    let mut text = if is_active { String::from_str("●") } else { String::from_str("○") };
    push_str(&mut text, " ");
    push_str(&mut text, name);
    push_str(&mut text, " [");
    push_str(&mut text, type_label);
    push_str(&mut text, "]  ");
    match vol {
        Some(v) => {
            push_str(&mut text, "vol ");
            push_decimal(&mut text, v as u128);
            push_str(&mut text, "%");
        },
        None => push_str(&mut text, "vol -"),
    }
    if is_active {
        push_str(&mut text, "  (active)");
    }
    if is_restricted {
        push_str(&mut text, " (restricted)");
    }
    assert(text@ =~= device_text(name@, type_label@, vol, is_active, is_restricted));
    truncate(text.as_str(), width.saturating_sub(2))
}

/// The key bindings as (key, description) pairs.
pub open spec fn help_spec() -> Seq<(Seq<char>, Seq<char>)> {
    seq![
        ("space"@, "play / pause"@),
        ("n / p"@, "next / previous track"@),
        ("← / →"@, "seek 5s (back / forward)"@),
        ("+ / -"@, "volume ±5"@),
        ("s"@, "save / unsave the current track"@),
        ("/"@, "search and play"@),
        ("tab"@, "focus panel (library / detail)"@),
        ("[ / ]"@, "library: previous / next tab"@),
        ("↑ / ↓"@, "library / detail: move selection"@),
        ("enter"@, "library / detail: play selection"@),
        ("d"@, "select device"@),
        ("r"@, "refresh (playback / focused library tab or detail)"@),
        ("?"@, "this help"@),
        ("q / Esc"@, "quit"@),
        ("Ctrl-C"@, "quit (from any screen)"@),
    ]
}

/// The list of key bindings (key, description). The single source of truth for the footer and the
/// help overlay.
pub fn help_entries() -> (r: Vec<(&'static str, &'static str)>)
    ensures
        r@.len() == help_spec().len(),
        forall|i: int| 0 <= i < r@.len() ==> (#[trigger] r@[i]).0@ == help_spec()[i].0 && r@[i].1@ == help_spec()[i].1,
{
    let r = vec![
        ("space", "play / pause"),
        ("n / p", "next / previous track"),
        ("← / →", "seek 5s (back / forward)"),
        ("+ / -", "volume ±5"),
        ("s", "save / unsave the current track"),
        ("/", "search and play"),
        ("tab", "focus panel (library / detail)"),
        ("[ / ]", "library: previous / next tab"),
        ("↑ / ↓", "library / detail: move selection"),
        ("enter", "library / detail: play selection"),
        ("d", "select device"),
        ("r", "refresh (playback / focused library tab or detail)"),
        ("?", "this help"),
        ("q / Esc", "quit"),
        ("Ctrl-C", "quit (from any screen)"),
    ];
    r
}

// ---- status line ------------------------------------------------------------

/// The kind of a status line. Used to decide coloring.
#[derive(Debug, Clone, Copy, PartialEq, Eq, Structural)]
pub enum StatusKind {
    Warn,
    Success,
    Info,
}

/// Whether `t` starts with one of the "ok" glyphs.
pub open spec fn has_ok_prefix(t: Seq<char>) -> bool {
    exists|i: int| 0 <= i < 8 && starts_with_spec(t, #[trigger] theme::OK_PREFIXES@[i]@)
}

/// What `status_kind` returns.
pub open spec fn status_kind_spec(s: Seq<char>) -> StatusKind {
    let t = trim_start_spec(s);
    if starts_with_spec(t, theme::WARN@) {
        StatusKind::Warn
    } else if has_ok_prefix(t) {
        StatusKind::Success
    } else {
        StatusKind::Info
    }
}

/// Pure function that classifies a status string by kind. Starting with the warning glyph is a
/// warning, starting with a success glyph is Ok, and anything else is Info.
pub fn status_kind(s: &str) -> (k: StatusKind)
    ensures
        k == status_kind_spec(s@),
{
    let t = trim_start(&chars_of(s));
    if starts_with(&t, &chars_of(theme::WARN)) {
        return StatusKind::Warn;
    }
    let mut i: usize = 0;
    while i < 8
        invariant
            i <= 8,
            t@ == trim_start_spec(s@),
            !starts_with_spec(t@, theme::WARN@),
            forall|j: int| 0 <= j < i ==> !starts_with_spec(t@, #[trigger] theme::OK_PREFIXES@[j]@),
        decreases 8 - i,
    {
        let p = theme::OK_PREFIXES[i];
        if starts_with(&t, &chars_of(p)) {
            assert(starts_with_spec(t@, theme::OK_PREFIXES@[i as int]@));
            return StatusKind::Success;
        }
        i = i + 1;
    }
    StatusKind::Info
}

// ---- focus ------------------------------------------------------------------

/// Which lower dashboard pane currently holds keyboard focus.
#[derive(Debug, Clone, Copy, PartialEq, Eq, Structural)]
pub enum Focus {
    /// The lower-left library pane.
    Library,
    /// The lower-right detail pane.
    Detail,
}

/// The focus after a `tab` press: the other pane when the detail pane is shown, else the library.
pub open spec fn focus_after_tab(f: Focus, detail_visible: bool) -> Focus {
    if !detail_visible {
        Focus::Library
    } else {
        match f {
            Focus::Library => Focus::Detail,
            Focus::Detail => Focus::Library,
        }
    }
}

impl Focus {
    /// The focus after a `tab` press, given whether the detail pane is currently shown. With the
    /// detail pane hidden there is only one navigable pane, so focus stays on the library.
    pub fn next(self, detail_visible: bool) -> (f: Focus)
        ensures
            !detail_visible ==> f == Focus::Library,
            detail_visible ==> f != self,
            f == focus_after_tab(self, detail_visible),
    {
        if !detail_visible {
            return Focus::Library;
        }
        match self {
            Focus::Library => Focus::Detail,
            Focus::Detail => Focus::Library,
        }
    }

    /// The focus that should actually be rendered, given whether the detail pane is shown.
    pub fn effective(self, detail_visible: bool) -> (f: Focus)
        ensures
            f == (if detail_visible { self } else { Focus::Library }),
    {
        if detail_visible { self } else { Focus::Library }
    }
}

// ---- cover-art column -------------------------------------------------------

/// What `art_col_width` returns.
pub open spec fn art_col_spec(pane_w: nat, pane_h: nat, want_art: bool) -> nat {
    if !want_art {
        0
    } else {
        let aspect = if pane_h * 2 > u16::MAX { u16::MAX as nat } else { pane_h * 2 };
        let a = if aspect <= pane_w / 2 { aspect } else { pane_w / 2 };
        let cols = if a <= 24 { a } else { 24 };
        if cols >= 4 { cols } else { 0 }
    }
}

/// The width (in columns) of the cover-art column inside the Now Playing pane, or `0` when no
/// column is shown. Square-ish (`pane_h * 2`), capped at half the pane width and 24 columns;
/// anything under 4 columns collapses to `0`.
pub fn art_col_width(pane_w: u16, pane_h: u16, want_art: bool) -> (w: u16)
    ensures
        w == art_col_spec(pane_w as nat, pane_h as nat, want_art),
{
    if !want_art {
        return 0;
    }
    let aspect: u16 = if pane_h > 32767 { u16::MAX } else { pane_h * 2 };
    let half = pane_w / 2;
    let a = if aspect <= half { aspect } else { half };
    let cols = if a <= 24 { a } else { 24 };
    if cols >= 4 { cols } else { 0 }
}

// ---- Now Playing ------------------------------------------------------------

/// A snapshot of the playback status from the most recent poll. Progress between polls is
/// interpolated from it (the caller keeps the time it was fetched).
#[derive(Debug)]
pub struct NowPlaying {
    pub is_playing: bool,
    pub title: String,
    pub artists: String,
    pub album: Option<String>,
    pub progress_ms: u128,
    pub duration_ms: u128,
    pub device: String,
    pub volume: Option<u8>,
    /// The current track's URI (`spotify:track:…`), `None` for episodes or unknown items.
    pub track_uri: Option<String>,
    /// The selected cover-art image URL, `None` if absent.
    pub album_image_url: Option<String>,
}

/// The lines needed for rendering the Now Playing pane and the playback bar. The progress bar's
/// fill ratio is `progress_ms / duration_ms` (computed by the caller).
#[derive(Debug)]
pub struct RenderLines {
    pub state: String,
    pub title: String,
    pub artist: String,
    pub album: String,
    pub progress_label: String,
    pub device: String,
    /// The interpolated progress the labels were built from.
    pub progress_ms: u128,
    /// The track length (`0` when unknown or nothing is playing).
    pub duration_ms: u128,
}

/// The saved-state marker appended to the state line.
pub open spec fn saved_marker_spec(saved: Option<bool>) -> Seq<char> {
    match saved {
        Some(b) => if b { "   "@ + theme::HEART@ + " Saved"@ } else { "   "@ + theme::HEART_O@ + " Not saved"@ },
        None => Seq::empty(),
    }
}

/// A short marker for the current track's saved state (appended to the end of the state line).
/// `None` means the state is unknown and nothing is shown.
pub fn saved_marker(saved: Option<bool>) -> (r: String)
    ensures
        r@ == saved_marker_spec(saved),
{
    let mut r = String::new();
    match saved {
        Some(true) => {
            push_str(&mut r, "   ");
            push_str(&mut r, theme::HEART);
            push_str(&mut r, " Saved");
        },
        Some(false) => {
            push_str(&mut r, "   ");
            push_str(&mut r, theme::HEART_O);
            push_str(&mut r, " Not saved");
        },
        None => {},
    }
    r
}

/// `label` followed by `value` truncated to the columns left after the label.
pub open spec fn labeled_spec(label: Seq<char>, value: Seq<char>, width: nat) -> Seq<char> {
    label + truncate_spec(value, sat_sub(width as int, str_width(label) as int))
}

fn labeled(label: &str, value: &str, width: usize) -> (r: String)
    ensures
        r@ == labeled_spec(label@, value@, width as nat),
{
    let mut r = String::from_str(label);
    let rest = truncate(value, width.saturating_sub(display_width(label)));
    push_str(&mut r, rest.as_str());
    r
}

/// The mathematical content of a [`NowPlaying`] that the pane shows.
pub struct NowView {
    pub is_playing: bool,
    pub title: Seq<char>,
    pub artists: Seq<char>,
    pub album: Option<Seq<char>>,
    pub progress_ms: nat,
    pub duration_ms: nat,
    pub device: Seq<char>,
    pub volume: Option<u8>,
}

impl NowPlaying {
    /// The displayed fields as mathematical values.
    pub open spec fn shown(&self) -> NowView {
        NowView {
            is_playing: self.is_playing,
            title: self.title@,
            artists: self.artists@,
            album: match self.album { Some(a) => Some(a@), None => None },
            progress_ms: self.progress_ms as nat,
            duration_ms: self.duration_ms as nat,
            device: self.device@,
            volume: self.volume,
        }
    }
}

/// The mathematical content of [`RenderLines`].
pub struct LinesView {
    pub state: Seq<char>,
    pub title: Seq<char>,
    pub artist: Seq<char>,
    pub album: Seq<char>,
    pub progress_label: Seq<char>,
    pub device: Seq<char>,
    pub progress_ms: nat,
    pub duration_ms: nat,
}

impl RenderLines {
    /// The lines as mathematical values.
    pub open spec fn shown(&self) -> LinesView {
        LinesView {
            state: self.state@,
            title: self.title@,
            artist: self.artist@,
            album: self.album@,
            progress_label: self.progress_label@,
            device: self.device@,
            progress_ms: self.progress_ms as nat,
            duration_ms: self.duration_ms as nat,
        }
    }
}

/// The hint shown in the title row when nothing is playing.
pub open spec fn idle_hint() -> Seq<char> {
    "  (press / to search, 2 to browse, d to select a device)"@
}

/// What `render_lines(now, elapsed_ms, width, saved)` returns.
pub open spec fn render_lines_spec(now: Option<NowView>, elapsed_ms: nat, width: nat, saved: Option<bool>) -> LinesView {
    match now {
        None => LinesView {
            state: "Nothing is playing"@,
            title: idle_hint(),
            artist: Seq::empty(),
            album: Seq::empty(),
            progress_label: "-"@,
            device: Seq::empty(),
            progress_ms: 0,
            duration_ms: 0,
        },
        Some(n) => {
            let prog = interpolate_spec(n.progress_ms, elapsed_ms, n.duration_ms, n.is_playing);
            let head = if n.is_playing { theme::PLAY@ + " Playing"@ } else { theme::PAUSE@ + " Paused"@ };
            let vol = match n.volume { Some(v) => decimal(v as nat) + "%"@, None => "-"@ };
            LinesView {
                state: head + saved_marker_spec(saved),
                title: labeled_spec(theme::MUSIC@ + " "@, n.title, width),
                artist: labeled_spec(theme::ARTIST@ + " "@, n.artists, width),
                album: match n.album { Some(a) => labeled_spec(theme::ALBUM@ + " "@, a, width), None => Seq::empty() },
                progress_label: format_ms_spec(prog) + " / "@ + format_ms_spec(n.duration_ms),
                device: theme::VOLUME@ + " "@ + n.device + " (vol "@ + vol + ")"@,
                progress_ms: prog,
                duration_ms: n.duration_ms,
            }
        },
    }
}

/// The state line follows the playback flag: a paused track's line opens with the pause glyph and
/// reads `Paused`, a playing track's with the play glyph and `Playing`; so two snapshots that differ
/// only in whether they play never show the same state line.
pub proof fn lemma_state_line_follows_playback(n: NowView, elapsed_ms: nat, width: nat, saved: Option<bool>)
    ensures
        ({
            let st = render_lines_spec(Some(n), elapsed_ms, width, saved).state;
            let flipped = render_lines_spec(Some(NowView { is_playing: !n.is_playing, ..n }), elapsed_ms, width, saved).state;
            &&& !n.is_playing ==> st.len() >= 8 && st.take(8) == theme::PAUSE@ + " Paused"@ && st[0] == '\u{f04c}'
            &&& n.is_playing ==> st.len() >= 9 && st.take(9) == theme::PLAY@ + " Playing"@ && st[0] == '\u{f04b}'
            &&& st != flipped
        }),
{
    reveal_strlit("\u{f04b}");
    reveal_strlit("\u{f04c}");
    reveal_strlit(" Playing");
    reveal_strlit(" Paused");
    let st = render_lines_spec(Some(n), elapsed_ms, width, saved).state;
    let m = NowView { is_playing: !n.is_playing, ..n };
    let flipped = render_lines_spec(Some(m), elapsed_ms, width, saved).state;
    let mark = saved_marker_spec(saved);
    if n.is_playing {
        assert(st == theme::PLAY@ + " Playing"@ + mark);
        assert(flipped == theme::PAUSE@ + " Paused"@ + mark);
        assert(st.take(9) =~= theme::PLAY@ + " Playing"@);
        assert(st[0] != flipped[0]);
    } else {
        assert(st == theme::PAUSE@ + " Paused"@ + mark);
        assert(flipped == theme::PLAY@ + " Playing"@ + mark);
        assert(st.take(8) =~= theme::PAUSE@ + " Paused"@);
        assert(st[0] != flipped[0]);
    }
}

/// Build the Now Playing display lines. `elapsed_ms` is the time since the last fetch (the base for
/// progress interpolation), `width` is the text width per line, and `saved` is the current track's
/// library saved state (`None` if unknown). When nothing is playing (`None`), returns a hint message.
pub fn render_lines(now: Option<&NowPlaying>, elapsed_ms: u128, width: usize, saved: Option<bool>) -> (r: RenderLines)
    ensures
        r.shown() == render_lines_spec(
            match now { Some(n) => Some(n.shown()), None => None },
            elapsed_ms as nat,
            width as nat,
            saved,
        ),
{
    let n = match now {
        None => {
            return RenderLines {
                state: String::from_str("Nothing is playing"),
                title: String::from_str("  (press / to search, 2 to browse, d to select a device)"),
                artist: String::new(),
                album: String::new(),
                progress_label: String::from_str("-"),
                device: String::new(),
                progress_ms: 0,
                duration_ms: 0,
            };
        },
        Some(n) => n,
    };
    let prog = interpolate_progress(n.progress_ms, elapsed_ms, n.duration_ms, n.is_playing);
    let mut state = String::new();
    if n.is_playing {
        push_str(&mut state, theme::PLAY);
        push_str(&mut state, " Playing");
    } else {
        push_str(&mut state, theme::PAUSE);
        push_str(&mut state, " Paused");
    }
    let marker = saved_marker(saved);
    push_str(&mut state, marker.as_str());

    let mut label = String::from_str(theme::MUSIC);
    push_str(&mut label, " ");
    let title = labeled(label.as_str(), n.title.as_str(), width);
    let mut label = String::from_str(theme::ARTIST);
    push_str(&mut label, " ");
    let artist = labeled(label.as_str(), n.artists.as_str(), width);
    let album = match &n.album {
        Some(a) => {
            let mut label = String::from_str(theme::ALBUM);
            push_str(&mut label, " ");
            labeled(label.as_str(), a.as_str(), width)
        },
        None => String::new(),
    };
    let mut progress_label = format_ms(prog);
    push_str(&mut progress_label, " / ");
    let total = format_ms(n.duration_ms);
    push_str(&mut progress_label, total.as_str());

    let mut device = String::from_str(theme::VOLUME);
    push_str(&mut device, " ");
    push_str(&mut device, n.device.as_str());
    push_str(&mut device, " (vol ");
    match n.volume {
        Some(v) => {
            push_decimal(&mut device, v as u128);
            push_str(&mut device, "%");
        },
        None => push_str(&mut device, "-"),
    }
    push_str(&mut device, ")");
    let r = RenderLines {
        state,
        title,
        artist,
        album,
        progress_label,
        device,
        progress_ms: prog,
        duration_ms: n.duration_ms,
    };
    assert(r.shown().state =~= render_lines_spec(Some(n.shown()), elapsed_ms as nat, width as nat, saved).state);
    assert(r.shown().device =~= render_lines_spec(Some(n.shown()), elapsed_ms as nat, width as nat, saved).device);
    assert(r.shown().progress_label =~= render_lines_spec(Some(n.shown()), elapsed_ms as nat, width as nat, saved).progress_label);
    r
}


/// Interpolated progress never runs past the end of a track of known length, and never moves while
/// paused.
pub proof fn lemma_progress_within_track(base_ms: nat, elapsed_ms: nat, duration_ms: nat, playing: bool)
    ensures
        duration_ms > 0 && base_ms <= duration_ms ==> interpolate_spec(base_ms, elapsed_ms, duration_ms, playing) <= duration_ms,
        !playing ==> interpolate_spec(base_ms, elapsed_ms, duration_ms, playing) == base_ms,
{
}

/// A seek target always lies within the track: at least 0 and, for a known length, at most the
/// length.
pub proof fn lemma_seek_within_track(current_ms: nat, duration_ms: nat, delta_ms: int)
    ensures
        duration_ms > 0 ==> seek_spec(current_ms, duration_ms, delta_ms) <= duration_ms,
        seek_spec(current_ms, duration_ms, delta_ms) >= 0,
{
}

/// Any status line that starts with the warning glyph reads as a warning.
pub proof fn lemma_warn_prefix_is_warning(rest: Seq<char>)
    ensures
        status_kind_spec(theme::WARN@ + rest) == StatusKind::Warn,
{
    reveal_strlit("\u{f071}");
    let s = theme::WARN@ + rest;
    assert(s[0] == '\u{f071}');
    assert(!is_white(s[0]));
    assert(lead_ws(s) == 0);
    assert(trim_start_spec(s) =~= s);
    assert(s.take(theme::WARN@.len() as int) =~= theme::WARN@);
}


// ---- list panes -------------------------------------------------------------

/// The text of one row of a tabbed list pane (library or search results): a header shows its
/// label, an item its `title — subtitle` line fitted to the pane width.
pub open spec fn list_line(row: LibraryRow, width: nat) -> Seq<char> {
    match row {
        LibraryRow::Header(h) => h@,
        LibraryRow::Item(it) => search_row_spec(it.title@, it.subtitle@, width),
    }
}

/// The texts of the rows of a tabbed list pane.
pub fn list_lines(rows: &[LibraryRow], width: usize) -> (r: Vec<String>)
    ensures
        r@.len() == rows@.len(),
        forall|i: int| 0 <= i < rows@.len() ==> #[trigger] r@[i]@ == list_line(rows@[i], width as nat),
{
    let mut r: Vec<String> = Vec::new();
    let mut i: usize = 0;
    while i < rows.len()
        invariant
            i <= rows@.len(),
            r@.len() == i,
            forall|k: int| 0 <= k < i ==> #[trigger] r@[k]@ == list_line(rows@[k], width as nat),
        decreases rows.len() - i,
    {
        let line = match &rows[i] {
            LibraryRow::Header(h) => h.clone(),
            LibraryRow::Item(it) => search_row(it.title.as_str(), it.subtitle.as_str(), width),
        };
        r.push(line);
        i = i + 1;
    }
    r
}

/// The text of one row of the device picker.
pub open spec fn device_line(d: DeviceEntry, width: nat) -> Seq<char> {
    truncate_spec(device_text(d.name@, d.type_label@, d.volume, d.is_active, d.is_restricted), sat_sub(width as int, 2))
}

/// The texts of the device picker's rows.
pub fn device_lines(items: &[DeviceEntry], width: usize) -> (r: Vec<String>)
    ensures
        r@.len() == items@.len(),
        forall|i: int| 0 <= i < items@.len() ==> #[trigger] r@[i]@ == device_line(items@[i], width as nat),
{
    let mut r: Vec<String> = Vec::new();
    let mut i: usize = 0;
    while i < items.len()
        invariant
            i <= items@.len(),
            r@.len() == i,
            forall|k: int| 0 <= k < i ==> #[trigger] r@[k]@ == device_line(items@[k], width as nat),
        decreases items.len() - i,
    {
        let d = &items[i];
        r.push(device_row(d.name.as_str(), d.type_label.as_str(), d.volume, d.is_active, d.is_restricted, width));
        i = i + 1;
    }
    r
}

/// The widest key of the first `n` help entries (in columns).
pub open spec fn help_key_width(n: nat) -> nat
    decreases n,
{
    if n == 0 {
        0
    } else {
        let w = str_width(help_spec()[n - 1].0);
        let prev = help_key_width((n - 1) as nat);
        if w > prev { w } else { prev }
    }
}

/// One line of the help overlay: the key right-padded to the widest key, then the description.
pub open spec fn help_line(key: Seq<char>, desc: Seq<char>, key_width: nat) -> Seq<char> {
    "  "@ + key + spaces(sat_sub(key_width as int, str_width(key) as int)) + "   "@ + desc
}

/// The lines of the help overlay, keys aligned to a common column.
pub fn help_lines() -> (r: Vec<String>)
    ensures
        r@.len() == help_spec().len(),
        forall|i: int| 0 <= i < r@.len() ==> #[trigger] r@[i]@ == help_line(
            help_spec()[i].0,
            help_spec()[i].1,
            help_key_width(help_spec().len()),
        ),
{
    let entries = help_entries();
    let mut key_width: usize = 0;
    let mut i: usize = 0;
    while i < entries.len()
        invariant
            i <= entries@.len(),
            entries@.len() == help_spec().len(),
            forall|k: int| 0 <= k < entries@.len() ==> (#[trigger] entries@[k]).0@ == help_spec()[k].0
                && entries@[k].1@ == help_spec()[k].1,
            key_width == help_key_width(i as nat),
        decreases entries.len() - i,
    {
        let w = display_width(entries[i].0);
        if w > key_width {
            key_width = w;
        }
        i = i + 1;
    }
    let mut r: Vec<String> = Vec::new();
    let mut j: usize = 0;
    while j < entries.len()
        invariant
            j <= entries@.len(),
            entries@.len() == help_spec().len(),
            forall|k: int| 0 <= k < entries@.len() ==> (#[trigger] entries@[k]).0@ == help_spec()[k].0
                && entries@[k].1@ == help_spec()[k].1,
            key_width == help_key_width(help_spec().len()),
            r@.len() == j,
            forall|k: int| 0 <= k < j ==> #[trigger] r@[k]@ == help_line(help_spec()[k].0, help_spec()[k].1, key_width as nat),
        decreases entries.len() - j,
    {
        let (key, desc) = entries[j];
        let mut line = String::from_str("  ");
        push_str(&mut line, key);
        let pad = sat_sub_usize(key_width, display_width(key));
        push_spaces(&mut line, pad);
        push_str(&mut line, "   ");
        push_str(&mut line, desc);
        r.push(line);
        j = j + 1;
    }
    r
}


/// A run of `n` spaces takes `n` columns when a space takes one.
proof fn lemma_spaces_cols(n: nat)
    requires
        cw(' ') == 1,
    ensures
        char_cols(spaces(n)) == n,
    decreases n,
{
    if n > 0 {
        assert(spaces(n).drop_first() =~= spaces((n - 1) as nat));
        lemma_spaces_cols((n - 1) as nat);
    }
}

/// A detail row ends with the track's duration; and where the widths of the row, its duration,
/// its left-hand text and that text's truncations add up by characters (and a space and `…` take
/// one column each), the row spans exactly the pane width less the 2-column marker, or the
/// duration's width when the pane is narrower than that.
pub proof fn lemma_detail_row_width(
    track_no: Option<u32>,
    title: Seq<char>,
    artists: Seq<char>,
    duration_ms: nat,
    is_current: bool,
    width: nat,
)
    requires
        adds_up(detail_row_spec(track_no, title, artists, duration_ms, is_current, width)),
        adds_up(format_ms_spec(duration_ms)),
        adds_up(detail_body(track_no, title, artists, is_current)),
        truncations_add_up(detail_body(track_no, title, artists, is_current)),
        cw(' ') == 1,
        cw('…') == 1,
    ensures
        ({
            let r = detail_row_spec(track_no, title, artists, duration_ms, is_current, width);
            let d = format_ms_spec(duration_ms);
            let avail = sat_sub(width as int, 2);
            &&& r.len() >= d.len()
            &&& r.subrange(r.len() - d.len(), r.len() as int) == d
            &&& str_width(r) == (if avail >= str_width(d) { avail } else { str_width(d) })
        }),
{
    let d = format_ms_spec(duration_ms);
    let avail = sat_sub(width as int, 2);
    let dur_w = str_width(d);
    let text = detail_body(track_no, title, artists, is_current);
    let b = sat_sub(avail as int, (dur_w + 1) as int);
    let body = truncate_spec(text, b);
    let pad = sat_sub(avail as int, (str_width(body) + dur_w) as int);
    let r = body + spaces(pad) + d;
    assert(r == detail_row_spec(track_no, title, artists, duration_ms, is_current, width));
    assert(r.subrange(r.len() - d.len(), r.len() as int) =~= d);
    lemma_truncate_width(text, b);
    lemma_char_cols_concat(body, spaces(pad));
    lemma_char_cols_concat(body + spaces(pad), d);
    lemma_spaces_cols(pad);
    assert(str_width(r) == char_cols(r));
    assert(str_width(body) == char_cols(body));
    assert(str_width(d) == char_cols(d));
}

/// Where the truncations of a device's row text add up by characters (and `…` takes one column),
/// its row fits the picker's width less the 2-column marker.
pub proof fn lemma_device_row_fits(d: DeviceEntry, width: nat)
    requires
        truncations_add_up(device_text(d.name@, d.type_label@, d.volume, d.is_active, d.is_restricted)),
        cw('…') == 1,
    ensures
        str_width(device_line(d, width)) <= sat_sub(width as int, 2),
{
    lemma_truncate_width(
        device_text(d.name@, d.type_label@, d.volume, d.is_active, d.is_restricted),
        sat_sub(width as int, 2),
    );
}

} // verus!
