//! Playback: the Now Playing snapshot built from the player state the API reports, the play queue
//! for a list of track URIs, and the decisions behind the poll and the transport controls.

use vstd::prelude::*;

use rspotify::prelude::Id;

use crate::art::{art_choice, pick_image_url};
use crate::detail::{nonneg_ms, opt_view};
use crate::format::{join_artists, join_artists_spec};
use crate::json::JsonValue;
use crate::np_json::{
    album_images_from_json, album_images_of, album_of, artists_of, duration_of, image_views,
    title_of, track_from_json, track_id_from_json, track_uri_of,
};
use crate::text::{decimal, last_index_of, push_decimal, push_str, views};
use crate::format::{format_ms, format_ms_spec};
use crate::theme;
use crate::view::{
    interpolate_progress, interpolate_spec, seek_spec, seek_target, status_kind, status_kind_spec,
    NowPlaying, StatusKind,
};

verus! {

// ---- the player state the API reports ------------------------------------------

/// A cover-art candidate as the API reports it (the size may be missing).
#[derive(Debug)]
pub struct ImageRef {
    pub url: String,
    pub width: Option<u32>,
    pub height: Option<u32>,
}

/// The item being played (or queued), as the API reports it.
#[derive(Debug)]
pub enum Playable {
    /// A track the client library could type.
    Track {
        name: String,
        artists: Vec<String>,
        album: String,
        duration_ms: i64,
        uri: Option<String>,
        images: Vec<ImageRef>,
    },
    /// A podcast episode.
    Episode { name: String, duration_ms: i64 },
    /// A track the client library could not type, as raw JSON.
    Unknown(JsonValue),
}

/// The player state: device, volume, progress, play/pause and the current item.
#[derive(Debug)]
pub struct PlaybackContext {
    pub device: String,
    pub volume_percent: Option<u32>,
    pub progress_ms: Option<i64>,
    pub is_playing: bool,
    pub item: Option<Playable>,
}

/// The `(url, width, height)` values of the candidates, a missing size counted as 0.
pub open spec fn image_ref_views(imgs: Seq<ImageRef>) -> Seq<(Seq<char>, u32, u32)> {
    imgs.map_values(|im: ImageRef| (
        im.url@,
        match im.width { Some(w) => w, None => 0u32 },
        match im.height { Some(h) => h, None => 0u32 },
    ))
}

/// What the Now Playing pane shows of an item.
pub struct ItemFields {
    pub title: Seq<char>,
    pub artists: Seq<Seq<char>>,
    pub album: Option<Seq<char>>,
    pub duration_ms: nat,
    pub track_uri: Option<Seq<char>>,
    /// The cover-art candidates (empty when the item has none).
    pub images: Seq<(Seq<char>, u32, u32)>,
}

/// The displayed fields of the current item. Episodes show `(podcast)` as their artist; a raw
/// track is read from its JSON; no item at all is labelled as such.
pub open spec fn item_fields(item: Option<Playable>) -> ItemFields {
    match item {
        Some(Playable::Track { name, artists, album, duration_ms, uri, images }) => ItemFields {
            title: name@,
            artists: views(artists@),
            album: Some(album@),
            duration_ms: nonneg_ms(duration_ms),
            track_uri: opt_view(uri),
            images: image_ref_views(images@),
        },
        Some(Playable::Episode { name, duration_ms }) => ItemFields {
            title: name@,
            artists: seq!["(podcast)"@],
            album: None,
            duration_ms: nonneg_ms(duration_ms),
            track_uri: None,
            images: Seq::empty(),
        },
        Some(Playable::Unknown(v)) => ItemFields {
            title: title_of(v),
            artists: artists_of(v),
            album: album_of(v),
            duration_ms: duration_of(v),
            track_uri: track_uri_of(v),
            images: album_images_of(v),
        },
        None => ItemFields {
            title: "(no track info while playing)"@,
            artists: Seq::empty(),
            album: None,
            duration_ms: 0,
            track_uri: None,
            images: Seq::empty(),
        },
    }
}

/// The volume shown: the reported percentage capped at 100.
pub open spec fn volume_of(v: Option<u32>) -> Option<u8> {
    match v {
        Some(p) => Some(if p < 100 { p as u8 } else { 100u8 }),
        None => None,
    }
}

/// What `snapshot_from_context(ctx)` returns.
pub open spec fn snapshot_ok(ctx: PlaybackContext, np: NowPlaying) -> bool {
    let f = item_fields(ctx.item);
    &&& np.is_playing == ctx.is_playing
    &&& np.device == ctx.device
    &&& np.volume == volume_of(ctx.volume_percent)
    &&& np.progress_ms == match ctx.progress_ms { Some(p) => nonneg_ms(p), None => 0 }
    &&& np.title@ == f.title
    &&& np.artists@ == join_artists_spec(f.artists)
    &&& opt_view(np.album) == f.album
    &&& np.duration_ms == f.duration_ms
    &&& opt_view(np.track_uri) == f.track_uri
    &&& art_choice(f.images, opt_view(np.album_image_url))
}

fn ms_of(ms: i64) -> (r: u128)
    ensures
        r == nonneg_ms(ms),
{
    if ms > 0 { ms as u128 } else { 0 }
}

/// The candidates as `(url, width, height)`, a missing size counted as 0.
fn image_tuples(images: &[ImageRef]) -> (r: Vec<(String, u32, u32)>)
    ensures
        image_views(r@) == image_ref_views(images@),
{
    let mut r: Vec<(String, u32, u32)> = Vec::new();
    let mut i: usize = 0;
    while i < images.len()
        invariant
            i <= images@.len(),
            r@.len() == i,
            forall|k: int| 0 <= k < i ==> (#[trigger] r@[k]).0@ == images@[k].url@
                && r@[k].1 == (match images@[k].width { Some(w) => w, None => 0u32 })
                && r@[k].2 == (match images@[k].height { Some(h) => h, None => 0u32 }),
        decreases images.len() - i,
    {
        let im = &images[i];
        let w: u32 = match im.width { Some(w) => w, None => 0 };
        let h: u32 = match im.height { Some(h) => h, None => 0 };
        r.push((im.url.clone(), w, h));
        i = i + 1;
    }
    assert(image_views(r@) =~= image_ref_views(images@));
    r
}

/// Map the reported player state into the snapshot the Now Playing pane shows.
pub fn snapshot_from_context(ctx: PlaybackContext) -> (np: NowPlaying)
    ensures
        snapshot_ok(ctx, np),
{
    let ghost c = ctx;
    let volume: Option<u8> = match ctx.volume_percent {
        Some(v) => Some(if v < 100 { v as u8 } else { 100u8 }),
        None => None,
    };
    let progress_ms: u128 = match ctx.progress_ms {
        Some(p) => ms_of(p),
        None => 0,
    };
    let (title, artists, album, duration_ms, track_uri, album_image_url) = match ctx.item {
        Some(Playable::Track { name, artists, album, duration_ms, uri, images }) => {
            let tuples = image_tuples(&images);
            let art = pick_image_url(&tuples);
            (name, join_artists(&artists), Some(album), ms_of(duration_ms), uri, art)
        },
        Some(Playable::Episode { name, duration_ms }) => {
            let mut names: Vec<String> = Vec::new();
            names.push(String::from_str("(podcast)"));
            assert(views(names@) =~= seq!["(podcast)"@]);
            proof {
                let ghost empty: Seq<(Seq<char>, u32, u32)> = Seq::empty();
                assert(art_choice(empty, None));
            }
            (name, join_artists(&names), None, ms_of(duration_ms), None, None)
        },
        Some(Playable::Unknown(v)) => {
            let (title, names, album, dur) = track_from_json(&v);
            assert(views(names@) =~= names@.map_values(|s: String| s@));
            let images = album_images_from_json(&v);
            let art = pick_image_url(&images);
            (title, join_artists(&names), album, dur, track_id_from_json(&v), art)
        },
        None => {
            let names: Vec<String> = Vec::new();
            assert(views(names@) =~= Seq::<Seq<char>>::empty());
            proof {
                let ghost empty: Seq<(Seq<char>, u32, u32)> = Seq::empty();
                assert(art_choice(empty, None));
            }
            (String::from_str("(no track info while playing)"), join_artists(&names), None, 0, None, None)
        },
    };
    NowPlaying {
        is_playing: ctx.is_playing,
        title,
        artists,
        album,
        progress_ms,
        duration_ms,
        device: ctx.device,
        volume,
        track_uri,
        album_image_url,
    }
}

// ---- the play queue --------------------------------------------------------------

/// Whether a character is an ASCII letter or digit.
pub open spec fn ascii_alnum(c: char) -> bool {
    ('0' <= c && c <= '9') || ('a' <= c && c <= 'z') || ('A' <= c && c <= 'Z')
}

/// The result of `TrackId::from_uri` on a URI: the bare track id, or the parse error's text. The
/// URI is `spotify`, a separator (`:` or `/`), the type, the same separator and the id, split at
/// the last separator; the type must be `track` and the id ASCII letters and digits.
pub open spec fn track_id_parse(uri: Seq<char>) -> Result<Seq<char>, Seq<char>> {
    if uri.len() < 8 || uri.take(7) != "spotify"@ || !(uri[7] == ':' || uri[7] == '/') {
        Err("InvalidPrefix"@)
    } else {
        let rest = uri.skip(8);
        match last_index_of(rest, uri[7]) {
            None => Err("InvalidFormat"@),
            Some(mid) => if rest.take(mid) != "track"@ {
                Err("InvalidType"@)
            } else if forall|i: int| 0 <= i < rest.len() - (mid + 1) ==> ascii_alnum(#[trigger] rest.skip(mid + 1)[i]) {
                Ok(rest.skip(mid + 1))
            } else {
                Err("InvalidId"@)
            },
        }
    }
}

/// The view of a parse result.
pub open spec fn parse_view(r: Result<String, String>) -> Result<Seq<char>, Seq<char>> {
    match r {
        Ok(id) => Ok(id@),
        Err(e) => Err(e@),
    }
}

/// `rspotify`'s `TrackId::from_uri` (through `parse_uri` and the track id's alphanumeric check):
/// the track id of a `spotify:track:…` URI, or the error's text (`IdError`'s variant name).
#[verifier::external_body]
fn parse_track_uri(uri: &str) -> (r: Result<String, String>)
    ensures
        parse_view(r) == track_id_parse(uri@),
{
    match rspotify::model::TrackId::from_uri(uri) {
        Ok(id) => Ok(id.id().to_string()),
        Err(e) => Err(e.to_string()),
    }
}

/// The track id of a URI, or the parse error's text.
pub fn track_id_of(uri: &str) -> (r: Result<String, String>)
    ensures
        parse_view(r) == track_id_parse(uri@),
{
    parse_track_uri(uri)
}

/// What `queue_from_parsed(parsed, uris, selected)` returns.
pub open spec fn queue_ok(
    parsed: Seq<Result<Seq<char>, Seq<char>>>,
    uris: Seq<Seq<char>>,
    selected: int,
    r: Result<(Seq<Seq<char>>, Option<Seq<char>>), Seq<char>>,
) -> bool {
    if exists|i: int| 0 <= i < parsed.len() && parsed[i] is Err {
        r == Err::<(Seq<Seq<char>>, Option<Seq<char>>), Seq<char>>("failed to parse a track URI"@)
    } else {
        r matches Ok((ids, offset))
            && ids.len() == parsed.len()
            && (forall|i: int| 0 <= i < parsed.len() ==> parsed[i] == Ok::<Seq<char>, Seq<char>>(#[trigger] ids[i]))
            && offset == (if 0 <= selected < uris.len() { Some(uris[selected]) } else { None })
    }
}

/// The view of a queue result.
pub open spec fn queue_view(r: Result<(Vec<String>, Option<String>), String>) -> Result<(Seq<Seq<char>>, Option<Seq<char>>), Seq<char>> {
    match r {
        Ok((ids, offset)) => Ok((views(ids@), opt_view(offset))),
        Err(e) => Err(e@),
    }
}

/// The views of a list of parse results.
pub open spec fn parse_views(parsed: Seq<Result<String, String>>) -> Seq<Result<Seq<char>, Seq<char>>> {
    parsed.map_values(|r: Result<String, String>| parse_view(r))
}

/// Assemble the play queue from the parsed ids of `uris`: every id when all parsed, and the
/// offset of the selected URI (none when `selected` is past the end). A single failed parse fails
/// the whole queue rather than silently dropping a track.
pub fn queue_from_parsed(parsed: &[Result<String, String>], uris: &[String], selected: usize) -> (r: Result<(Vec<String>, Option<String>), String>)
    ensures
        queue_ok(parse_views(parsed@), views(uris@), selected as int, queue_view(r)),
{
    let mut ids: Vec<String> = Vec::new();
    let mut i: usize = 0;
    while i < parsed.len()
        invariant
            i <= parsed@.len(),
            ids@.len() == i,
            forall|k: int| 0 <= k < i ==> parsed@[k] == Ok::<String, String>(#[trigger] ids@[k]),
        decreases parsed.len() - i,
    {
        match &parsed[i] {
            Ok(id) => ids.push(id.clone()),
            Err(_) => {
                proof {
                    assert(parse_views(parsed@)[i as int] is Err);
                }
                return Err(String::from_str("failed to parse a track URI"));
            },
        }
        i = i + 1;
    }
    let offset = if selected < uris.len() { Some(uris[selected].clone()) } else { None };
    proof {
        assert forall|k: int| 0 <= k < parsed@.len() implies parse_views(parsed@)[k] == Ok::<Seq<char>, Seq<char>>(#[trigger] views(ids@)[k]) by {
            assert(parsed@[k] == Ok::<String, String>(ids@[k]));
        }
        assert forall|k: int| 0 <= k < parse_views(parsed@).len() implies !(parse_views(parsed@)[k] is Err) by {
            assert(parsed@[k] == Ok::<String, String>(ids@[k]));
        }
    }
    Ok((ids, offset))
}

/// Parse every URI into a track id and compute the play offset for the selected index. Every hit
/// is queued (not just the selected one) so next/previous have somewhere to go.
pub fn queue_from_uris(uris: &[String], selected: usize) -> (r: Result<(Vec<String>, Option<String>), String>)
    ensures
        queue_ok(views(uris@).map_values(|u: Seq<char>| track_id_parse(u)), views(uris@), selected as int, queue_view(r)),
{
    let mut parsed: Vec<Result<String, String>> = Vec::new();
    let mut i: usize = 0;
    while i < uris.len()
        invariant
            i <= uris@.len(),
            parsed@.len() == i,
            forall|k: int| 0 <= k < i ==> parse_view(#[trigger] parsed@[k]) == track_id_parse(uris@[k]@),
        decreases uris.len() - i,
    {
        parsed.push(parse_track_uri(uris[i].as_str()));
        i = i + 1;
    }
    let r = queue_from_parsed(&parsed, uris, selected);
    assert(parse_views(parsed@) =~= views(uris@).map_values(|u: Seq<char>| track_id_parse(u)));
    r
}

// ---- the poll and the transport controls ----------------------------------------

/// Consecutive poll failures after which auto-refresh stops (avoids retrying an invalid token
/// forever).
pub const MAX_POLL_FAILURES: u32 = 3;

/// The playback part of the dashboard state: the last snapshot, the status line, the poll failure
/// count, and the once-per-track saved-state and cover-art bookkeeping.
#[derive(Debug)]
pub struct Player {
    /// The most recent snapshot (`None` when nothing is playing).
    pub now: Option<NowPlaying>,
    /// The status line showing the latest operation result or error.
    pub status: String,
    /// Consecutive poll failures.
    pub poll_failures: u32,
    /// Whether the current track is saved in the library (`None` if undetermined).
    pub saved: Option<bool>,
    /// Whether the saved state was queried for the current track (once per track).
    pub saved_checked: bool,
    /// The cover-art URL the displayed art corresponds to.
    pub art_url: Option<String>,
}

/// What the caller does after a poll was applied.
#[derive(Debug, Clone, Copy, PartialEq, Eq, Structural)]
pub enum PollFollowUp {
    /// Something is playing: refresh the saved state and the cover art.
    Refresh,
    /// Nothing is playing: drop the displayed cover art.
    DropArt,
    /// The poll failed: nothing more to do.
    Nothing,
}

/// What the caller does about the cover art.
#[derive(Debug)]
pub enum ArtUpdate {
    /// The URL did not change: keep what is shown.
    Keep,
    /// The current item has no art: drop what is shown.
    Clear,
    /// Fetch and show the art at this URL.
    Fetch(String),
}

/// The track URI of a snapshot.
pub open spec fn uri_of(now: Option<NowPlaying>) -> Option<String> {
    match now {
        Some(n) => n.track_uri,
        None => None,
    }
}

/// The status after a successful poll: a stale warning left by earlier failures is cleared, any
/// other message (the user's last operation) stays.
pub open spec fn recovered_status(was_failing: bool, status: Seq<char>) -> Seq<char> {
    if was_failing && status_kind_spec(status) == StatusKind::Warn { Seq::empty() } else { status }
}

/// The status after a failed poll, given the new failure count and the error text.
pub open spec fn poll_error_status(failures: nat, e: Seq<char>) -> Seq<char> {
    if failures >= MAX_POLL_FAILURES {
        theme::WARN@ + " auto-refresh stopped ("@ + e + "). Press r to retry / q to quit"@
    } else {
        theme::WARN@ + " refresh failed: "@ + e
    }
}

fn opt_string_eq(a: &Option<String>, b: &Option<String>) -> (r: bool)
    ensures
        r == (opt_view(*a) == opt_view(*b)),
{
    match (a, b) {
        (Some(x), Some(y)) => *x == *y,
        (None, None) => true,
        _ => false,
    }
}

impl Player {
    /// The state before the first poll.
    pub fn new(status: String) -> (p: Player)
        ensures
            p.now is None,
            p.status == status,
            p.poll_failures == 0,
            p.saved is None,
            !p.saved_checked,
            p.art_url is None,
    {
        Player { now: None, status, poll_failures: 0, saved: None, saved_checked: false, art_url: None }
    }

    /// Whether the current snapshot says it is playing.
    pub fn is_playing(&self) -> (b: bool)
        ensures
            b == (self.now matches Some(n) && n.is_playing),
    {
        match &self.now {
            Some(n) => n.is_playing,
            None => false,
        }
    }

    fn clear_stale_warning(&mut self, was_failing: bool)
        ensures
            final(self).status@ == recovered_status(was_failing, old(self).status@),
            final(self).now == old(self).now,
            final(self).poll_failures == old(self).poll_failures,
            final(self).saved == old(self).saved,
            final(self).saved_checked == old(self).saved_checked,
            final(self).art_url == old(self).art_url,
    {
        if was_failing && status_kind(self.status.as_str()) == StatusKind::Warn {
            self.status = String::new();
        }
    }

    /// Apply the outcome of a playback poll (`Ok(None)`: nothing is playing; `Err`: the error's
    /// text). A track change discards the saved state so it is queried again; a success resets the
    /// failure count and clears a stale warning; a failure counts up and, at the threshold, says
    /// that auto-refresh stopped.
    pub fn apply_poll(&mut self, outcome: Result<Option<NowPlaying>, String>) -> (next: PollFollowUp)
        ensures
            match outcome {
                Ok(Some(np)) => {
                    &&& next == PollFollowUp::Refresh
                    &&& final(self).now == Some(np)
                    &&& final(self).poll_failures == 0
                    &&& final(self).status@ == recovered_status(old(self).poll_failures > 0, old(self).status@)
                    &&& final(self).art_url == old(self).art_url
                    &&& if opt_view(np.track_uri) != opt_view(uri_of(old(self).now)) {
                        final(self).saved is None && !final(self).saved_checked
                    } else {
                        final(self).saved == old(self).saved && final(self).saved_checked == old(self).saved_checked
                    }
                },
                Ok(None) => {
                    &&& next == PollFollowUp::DropArt
                    &&& final(self).now is None
                    &&& final(self).poll_failures == 0
                    &&& final(self).status@ == recovered_status(old(self).poll_failures > 0, old(self).status@)
                    &&& final(self).saved is None
                    &&& !final(self).saved_checked
                    &&& final(self).art_url is None
                },
                Err(e) => {
                    &&& next == PollFollowUp::Nothing
                    &&& final(self).poll_failures == (if old(self).poll_failures < u32::MAX { old(self).poll_failures + 1 } else { u32::MAX as int })
                    &&& final(self).status@ == poll_error_status(final(self).poll_failures as nat, e@)
                    &&& final(self).now == old(self).now
                    &&& final(self).saved == old(self).saved
                    &&& final(self).saved_checked == old(self).saved_checked
                    &&& final(self).art_url == old(self).art_url
                },
            },
    {
        let was_failing = self.poll_failures > 0;
        match outcome {
            Ok(Some(np)) => {
                let prev_uri = match &self.now {
                    Some(n) => n.track_uri.clone(),
                    None => None,
                };
                if !opt_string_eq(&np.track_uri, &prev_uri) {
                    self.saved = None;
                    self.saved_checked = false;
                }
                self.now = Some(np);
                self.poll_failures = 0;
                self.clear_stale_warning(was_failing);
                PollFollowUp::Refresh
            },
            Ok(None) => {
                self.now = None;
                self.saved = None;
                self.saved_checked = false;
                self.art_url = None;
                self.poll_failures = 0;
                self.clear_stale_warning(was_failing);
                PollFollowUp::DropArt
            },
            Err(e) => {
                self.poll_failures = self.poll_failures.saturating_add(1);
                let mut m = String::from_str(theme::WARN);
                if self.poll_failures >= MAX_POLL_FAILURES {
                    push_str(&mut m, " auto-refresh stopped (");
                    push_str(&mut m, e.as_str());
                    push_str(&mut m, "). Press r to retry / q to quit");
                } else {
                    push_str(&mut m, " refresh failed: ");
                    push_str(&mut m, e.as_str());
                }
                self.status = m;
                PollFollowUp::Nothing
            },
        }
    }

    /// Decide whether to query the current track's saved state: at most once per track, never for
    /// an item without a track URI, and a URI that does not parse is marked as checked without a
    /// query. Returns the track id to query.
    pub fn saved_lookup(&mut self) -> (id: Option<String>)
        ensures
            final(self).now == old(self).now,
            final(self).status == old(self).status,
            final(self).saved == old(self).saved,
            final(self).art_url == old(self).art_url,
            final(self).poll_failures == old(self).poll_failures,
            old(self).saved_checked ==> id is None && final(self).saved_checked,
            !old(self).saved_checked ==> match uri_of(old(self).now) {
                None => id is None && !final(self).saved_checked,
                Some(u) => match track_id_parse(u@) {
                    Ok(t) => id matches Some(i) && i@ == t && !final(self).saved_checked,
                    Err(_) => id is None && final(self).saved_checked,
                },
            },
    {
        if self.saved_checked {
            return None;
        }
        let uri = match &self.now {
            Some(n) => match &n.track_uri {
                Some(u) => u.clone(),
                None => return None,
            },
            None => return None,
        };
        match parse_track_uri(uri.as_str()) {
            Ok(id) => Some(id),
            Err(_) => {
                self.saved_checked = true;
                None
            },
        }
    }

    /// Record the answer of a saved-state query (`None` when the query failed): the track counts
    /// as checked either way, and the last flag returned becomes the saved state.
    pub fn apply_saved(&mut self, flags: Option<Vec<bool>>)
        ensures
            final(self).saved_checked,
            final(self).saved == match flags {
                Some(f) => if f@.len() > 0 { Some(f@.last()) } else { None },
                None => old(self).saved,
            },
            final(self).now == old(self).now,
            final(self).status == old(self).status,
            final(self).art_url == old(self).art_url,
            final(self).poll_failures == old(self).poll_failures,
    {
        self.saved_checked = true;
        match flags {
            Some(mut f) => {
                self.saved = f.pop();
            },
            None => {},
        }
    }

    /// Decide what to do about the cover art: only a change of the current item's art URL causes a
    /// fetch (once per URL, success or not).
    pub fn art_update(&mut self) -> (u: ArtUpdate)
        ensures
            final(self).art_url == (match old(self).now { Some(n) => n.album_image_url, None => None }),
            final(self).now == old(self).now,
            final(self).status == old(self).status,
            final(self).saved == old(self).saved,
            final(self).saved_checked == old(self).saved_checked,
            final(self).poll_failures == old(self).poll_failures,
            opt_view(final(self).art_url) == opt_view(old(self).art_url) ==> u is Keep,
            opt_view(final(self).art_url) != opt_view(old(self).art_url) ==> match final(self).art_url {
                Some(url) => u matches ArtUpdate::Fetch(f) && f == url,
                None => u is Clear,
            },
    {
        let url = match &self.now {
            Some(n) => n.album_image_url.clone(),
            None => None,
        };
        if opt_string_eq(&url, &self.art_url) {
            self.art_url = url;
            return ArtUpdate::Keep;
        }
        self.art_url = url.clone();
        match url {
            Some(u) => ArtUpdate::Fetch(u),
            None => ArtUpdate::Clear,
        }
    }

    /// Report a cover-art fetch failure on the status line.
    pub fn art_failed(&mut self, error: &str)
        ensures
            final(self).status@ == theme::WARN@ + " failed to fetch cover art: "@ + error@,
            final(self).now == old(self).now,
            final(self).art_url == old(self).art_url,
            final(self).saved == old(self).saved,
            final(self).saved_checked == old(self).saved_checked,
            final(self).poll_failures == old(self).poll_failures,
    {
        let mut m = String::from_str(theme::WARN);
        push_str(&mut m, " failed to fetch cover art: ");
        push_str(&mut m, error);
        self.status = m;
    }

    /// The volume to set for a `+`/`-` press: the current volume moved by `delta` and clamped to
    /// 0..=100. Without a known device volume the status says so and nothing is set.
    pub fn volume_target(&mut self, delta: i16) -> (r: Option<u8>)
        ensures
            final(self).now == old(self).now,
            final(self).saved == old(self).saved,
            final(self).saved_checked == old(self).saved_checked,
            final(self).art_url == old(self).art_url,
            final(self).poll_failures == old(self).poll_failures,
            match old(self).now {
                Some(n) if n.volume is Some => {
                    let v = n.volume->0 as int + delta as int;
                    &&& r == Some((if v < 0 { 0 } else if v > 100 { 100 } else { v }) as u8)
                    &&& final(self).status == old(self).status
                },
                _ => r is None
                    && final(self).status@ == theme::WARN@ + " device volume is unavailable (press d to select a device)"@,
            },
    {
        let cur = match &self.now {
            Some(n) => n.volume,
            None => None,
        };
        match cur {
            Some(c) => {
                let v: i32 = c as i32 + delta as i32;
                let t: i32 = if v < 0 { 0 } else if v > 100 { 100 } else { v };
                Some(t as u8)
            },
            None => {
                let mut m = String::from_str(theme::WARN);
                push_str(&mut m, " device volume is unavailable (press d to select a device)");
                self.status = m;
                None
            },
        }
    }

    /// The position to seek to for a `←`/`→` press: the locally interpolated progress
    /// (`elapsed_ms` after the last poll) moved by `delta_ms` and clamped to the track. With nothing
    /// playing the status says so.
    pub fn seek_plan(&mut self, elapsed_ms: u128, delta_ms: i64) -> (r: Option<u128>)
        ensures
            final(self).now == old(self).now,
            final(self).saved == old(self).saved,
            final(self).saved_checked == old(self).saved_checked,
            final(self).art_url == old(self).art_url,
            final(self).poll_failures == old(self).poll_failures,
            match old(self).now {
                Some(n) => {
                    &&& r == Some(seek_spec(
                        interpolate_spec(n.progress_ms as nat, elapsed_ms as nat, n.duration_ms as nat, n.is_playing),
                        n.duration_ms as nat,
                        delta_ms as int,
                    ) as u128)
                    &&& final(self).status == old(self).status
                },
                None => r is None && final(self).status@ == theme::WARN@ + " nothing is playing"@,
            },
    {
        match &self.now {
            Some(n) => {
                let current = interpolate_progress(n.progress_ms, elapsed_ms, n.duration_ms, n.is_playing);
                Some(seek_target(current, n.duration_ms, delta_ms))
            },
            None => {
                let mut m = String::from_str(theme::WARN);
                push_str(&mut m, " nothing is playing");
                self.status = m;
                None
            },
        }
    }

    /// A seek succeeded: progress jumps to `target` at once (no forced poll, so propagation delay
    /// cannot make it appear to rewind) and the status says where.
    pub fn seek_done(&mut self, target: u128)
        ensures
            final(self).status@ == theme::SEEK@ + " Seek "@ + format_ms_spec(target as nat),
            match old(self).now {
                Some(n) => final(self).now matches Some(m) && m.progress_ms == target
                    && m.duration_ms == n.duration_ms && m.is_playing == n.is_playing && m.title == n.title
                    && m.artists == n.artists && m.album == n.album && m.device == n.device
                    && m.volume == n.volume && m.track_uri == n.track_uri && m.album_image_url == n.album_image_url,
                None => final(self).now is None,
            },
            final(self).saved == old(self).saved,
            final(self).saved_checked == old(self).saved_checked,
            final(self).art_url == old(self).art_url,
            final(self).poll_failures == old(self).poll_failures,
    {
        match &mut self.now {
            Some(n) => {
                n.progress_ms = target;
            },
            None => {},
        }
        let mut m = String::from_str(theme::SEEK);
        push_str(&mut m, " Seek ");
        let t = format_ms(target);
        push_str(&mut m, t.as_str());
        self.status = m;
    }

    /// The track to save or unsave for an `s` press and which way: the opposite of the current saved
    /// state, an undetermined state counting as "not saved". Without a parseable track URI the
    /// status says why.
    pub fn save_plan(&mut self) -> (r: Option<(String, bool)>)
        ensures
            final(self).now == old(self).now,
            final(self).saved == old(self).saved,
            final(self).saved_checked == old(self).saved_checked,
            final(self).art_url == old(self).art_url,
            final(self).poll_failures == old(self).poll_failures,
            match uri_of(old(self).now) {
                None => r is None
                    && final(self).status@ == theme::WARN@ + " cannot save the current track (track info is unknown)"@,
                Some(u) => match track_id_parse(u@) {
                    Ok(id) => r matches Some((i, want)) && i@ == id
                        && want == !(old(self).saved == Some(true))
                        && final(self).status == old(self).status,
                    Err(e) => r is None
                        && final(self).status@ == theme::WARN@ + " failed to parse the track URI: "@ + e,
                },
            },
    {
        let uri = match &self.now {
            Some(n) => n.track_uri.clone(),
            None => None,
        };
        let uri = match uri {
            Some(u) => u,
            None => {
                let mut m = String::from_str(theme::WARN);
                push_str(&mut m, " cannot save the current track (track info is unknown)");
                self.status = m;
                return None;
            },
        };
        match parse_track_uri(uri.as_str()) {
            Ok(id) => {
                let want = match self.saved {
                    Some(true) => false,
                    _ => true,
                };
                Some((id, want))
            },
            Err(e) => {
                let mut m = String::from_str(theme::WARN);
                push_str(&mut m, " failed to parse the track URI: ");
                push_str(&mut m, e.as_str());
                self.status = m;
                None
            },
        }
    }

    /// A save (`want == true`) or unsave succeeded: the saved state follows and the status says so.
    pub fn save_done(&mut self, want: bool)
        ensures
            final(self).saved == Some(want),
            final(self).saved_checked,
            final(self).status@ == (if want {
                theme::HEART@ + " Saved to your library"@
            } else {
                theme::HEART_O@ + " Removed from your library"@
            }),
            final(self).now == old(self).now,
            final(self).art_url == old(self).art_url,
            final(self).poll_failures == old(self).poll_failures,
    {
        self.saved = Some(want);
        self.saved_checked = true;
        let mut m = String::new();
        if want {
            push_str(&mut m, theme::HEART);
            push_str(&mut m, " Saved to your library");
        } else {
            push_str(&mut m, theme::HEART_O);
            push_str(&mut m, " Removed from your library");
        }
        self.status = m;
    }

    /// Report a failed operation on the status line: `what` names the operation (`seek`,
    /// `save operation`), and `hint` is appended when given.
    pub fn op_failed(&mut self, what: &str, error: &str, hint: bool)
        ensures
            final(self).status@ == theme::WARN@ + " "@ + what@ + " failed: "@ + error@
                + (if hint { " (press d to select and activate a device)"@ } else { Seq::empty() }),
            final(self).now == old(self).now,
            final(self).saved == old(self).saved,
            final(self).saved_checked == old(self).saved_checked,
            final(self).art_url == old(self).art_url,
            final(self).poll_failures == old(self).poll_failures,
    {
        let mut m = String::from_str(theme::WARN);
        push_str(&mut m, " ");
        push_str(&mut m, what);
        push_str(&mut m, " failed: ");
        push_str(&mut m, error);
        if hint {
            push_str(&mut m, " (press d to select and activate a device)");
        }
        self.status = m;
    }
}

/// The status shown after a successful play/pause toggle (`was_playing`: it was playing before).
pub fn toggle_message(was_playing: bool) -> (r: String)
    ensures
        r@ == (if was_playing { theme::PAUSE@ + " Paused"@ } else { theme::PLAY@ + " Playing"@ }),
{
    let mut m = String::new();
    if was_playing {
        push_str(&mut m, theme::PAUSE);
        push_str(&mut m, " Paused");
    } else {
        push_str(&mut m, theme::PLAY);
        push_str(&mut m, " Playing");
    }
    m
}

/// The status shown after skipping forward (`true`) or back.
pub fn skip_message(forward: bool) -> (r: String)
    ensures
        r@ == (if forward { theme::NEXT@ + " Next track"@ } else { theme::PREV@ + " Previous track"@ }),
{
    let mut m = String::new();
    if forward {
        push_str(&mut m, theme::NEXT);
        push_str(&mut m, " Next track");
    } else {
        push_str(&mut m, theme::PREV);
        push_str(&mut m, " Previous track");
    }
    m
}

/// The status shown after setting the volume.
pub fn volume_message(v: u8) -> (r: String)
    ensures
        r@ == theme::VOLUME@ + " Volume "@ + decimal(v as nat) + "%"@,
{
    let mut m = String::from_str(theme::VOLUME);
    push_str(&mut m, " Volume ");
    push_decimal(&mut m, v as u128);
    push_str(&mut m, "%");
    m
}


/// A failed poll always leaves a warning on the status line, and at the threshold it says that
/// auto-refresh stopped.
pub proof fn lemma_poll_errors_read_as_warnings(failures: nat, e: Seq<char>)
    ensures
        status_kind_spec(poll_error_status(failures, e)) == StatusKind::Warn,
{
    if failures >= MAX_POLL_FAILURES {
        let rest = " auto-refresh stopped ("@ + e + "). Press r to retry / q to quit"@;
        assert(poll_error_status(failures, e) =~= theme::WARN@ + rest);
        crate::view::lemma_warn_prefix_is_warning(rest);
    } else {
        let rest = " refresh failed: "@ + e;
        assert(poll_error_status(failures, e) =~= theme::WARN@ + rest);
        crate::view::lemma_warn_prefix_is_warning(rest);
    }
}

} // verus!
