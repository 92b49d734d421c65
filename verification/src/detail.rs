//! Detail pane data model: the tracks that belong to the selected library item (album tracks,
//! playlist items, artist top tracks, or a track's own album) as flat, playable rows.

use vstd::prelude::*;

use crate::browse::{PlayTarget, TargetKind};
use crate::format::{join_artists, join_artists_spec};
use crate::text::{chars_eq, chars_of, decimal, push_decimal, push_str, views};

verus! {

/// Number of detail rows fetched (first page only).
pub const DETAIL_LIMIT: u32 = 50;

/// One playable track row in the detail pane.
#[derive(Debug)]
pub struct DetailRow {
    /// Album track number for album contexts; playlist/artist rows use their 1-based list position.
    pub track_no: Option<u32>,
    pub title: String,
    pub artists: String,
    pub duration_ms: u128,
    pub uri: String,
}

/// A loaded detail: the context header title plus its track rows.
#[derive(Debug)]
pub struct DetailData {
    pub title: String,
    pub rows: Vec<DetailRow>,
    /// The full track count when the list was truncated to the first page, `None` when the full
    /// list is shown.
    pub truncated_total: Option<u32>,
}

/// State of the always-visible detail pane. All rows are selectable (no headers), so selection is
/// a clamped index. `key` is the library-item URI the current rows correspond to.
#[derive(Debug)]
pub struct DetailState {
    pub key: Option<String>,
    pub title: String,
    pub rows: Vec<DetailRow>,
    pub selected: usize,
    pub message: Option<String>,
}

/// The message `DetailState::set` shows for `rows` rows with the given truncation.
pub open spec fn set_message(n_rows: nat, truncated_total: Option<u32>) -> Option<Seq<char>> {
    if n_rows == 0 {
        Some("No tracks"@)
    } else {
        match truncated_total {
            Some(total) => Some("first "@ + decimal(n_rows) + " of "@ + decimal(total as nat) + " tracks — ↑↓ select / Enter play"@),
            None => None,
        }
    }
}

/// The view of an optional string.
pub open spec fn opt_view(s: Option<String>) -> Option<Seq<char>> {
    match s {
        Some(x) => Some(x@),
        None => None,
    }
}

impl Default for DetailState {
    /// The "nothing loaded yet" state.
    fn default() -> (s: Self)
        ensures
            s.key is None,
            s.title@.len() == 0,
            s.rows@.len() == 0,
            s.selected == 0,
            s.message is None,
    {
        DetailState { key: None, title: String::new(), rows: Vec::new(), selected: 0, message: None }
    }
}

impl DetailState {
    /// Populate from a loaded detail, resetting the selection to the top. An empty track list and a
    /// truncated (first-page-only) list are both messaged.
    pub fn set(&mut self, key: String, data: DetailData)
        ensures
            final(self).key == Some(key),
            final(self).title == data.title,
            final(self).rows == data.rows,
            final(self).selected == 0,
            opt_view(final(self).message) == set_message(data.rows@.len(), data.truncated_total),
    {
        self.message = if data.rows.len() == 0 {
            Some(String::from_str("No tracks"))
        } else {
            match data.truncated_total {
                Some(total) => {
                    let mut m = String::from_str("first ");
                    push_decimal(&mut m, data.rows.len() as u128);
                    push_str(&mut m, " of ");
                    push_decimal(&mut m, total as u128);
                    push_str(&mut m, " tracks — ↑↓ select / Enter play");
                    Some(m)
                },
                None => None,
            }
        };
        self.key = Some(key);
        self.title = data.title;
        self.rows = data.rows;
        self.selected = 0;
    }

    /// Record a load failure for `key` (keeps the key so it is not retried every tick, and shows
    /// the message so the failure is never silent).
    pub fn set_error(&mut self, key: String, message: String)
        ensures
            final(self).key == Some(key),
            final(self).title@.len() == 0,
            final(self).rows@.len() == 0,
            final(self).selected == 0,
            final(self).message == Some(message),
    {
        self.key = Some(key);
        self.title = String::new();
        self.rows = Vec::new();
        self.selected = 0;
        self.message = Some(message);
    }

    /// Clear the pane when there is nothing to show a detail for.
    pub fn clear(&mut self, message: Option<String>)
        ensures
            final(self).key is None,
            final(self).title@.len() == 0,
            final(self).rows@.len() == 0,
            final(self).selected == 0,
            final(self).message == message,
    {
        self.key = None;
        self.title = String::new();
        self.rows = Vec::new();
        self.selected = 0;
        self.message = message;
    }

    /// Move the selection down one row, stopping at the last row.
    pub fn select_next(&mut self)
        ensures
            *final(self) == (DetailState { selected: final(self).selected, ..*old(self) }),
            final(self).rows == old(self).rows,
            final(self).key == old(self).key,
            final(self).message == old(self).message,
            final(self).selected == (if old(self).selected + 1 < old(self).rows@.len() {
                old(self).selected + 1
            } else {
                old(self).selected as int
            }),
    {
        if self.selected < self.rows.len() && self.selected + 1 < self.rows.len() {
            self.selected = self.selected + 1;
        }
    }

    /// Move the selection up one row, stopping at the first row.
    pub fn select_prev(&mut self)
        ensures
            *final(self) == (DetailState { selected: final(self).selected, ..*old(self) }),
            final(self).rows == old(self).rows,
            final(self).key == old(self).key,
            final(self).message == old(self).message,
            final(self).selected == (if old(self).selected > 0 { old(self).selected - 1 } else { 0 }),
    {
        self.selected = if self.selected > 0 { self.selected - 1 } else { 0 };
    }
}

/// `Some(total)` when the context has more tracks than the single page fetched, `None` when
/// everything fits.
pub fn truncated_total(total: u32, fetched: usize) -> (r: Option<u32>)
    ensures
        r == (if total as nat > fetched as nat { Some(total) } else { None }),
{
    if total as u64 > fetched as u64 { Some(total) } else { None }
}

/// A duration in milliseconds, negative values counted as zero.
pub open spec fn nonneg_ms(ms: i64) -> nat {
    if ms > 0 { ms as nat } else { 0 }
}

/// An album-context row: keeps the album track number. `None` for tracks without a URI.
pub fn album_track_row(
    track_number: u32,
    title: String,
    artists: &[String],
    duration_ms: i64,
    uri: Option<String>,
) -> (r: Option<DetailRow>)
    ensures
        match r {
            Some(row) => uri == Some(row.uri) && row.track_no == Some(track_number) && row.title == title
                && row.artists@ == join_artists_spec(views(artists@)) && row.duration_ms == nonneg_ms(duration_ms),
            None => uri is None,
        },
{
    let uri = match uri {
        Some(u) => u,
        None => return None,
    };
    Some(DetailRow {
        track_no: Some(track_number),
        title,
        artists: join_artists(artists),
        duration_ms: if duration_ms > 0 { duration_ms as u128 } else { 0 },
        uri,
    })
}

/// A list-context row (playlist item or artist top track), numbered by its 1-based list position.
/// `None` for tracks without a playable URI.
pub fn list_track_row(
    index: usize,
    title: String,
    artists: &[String],
    duration_ms: i64,
    uri: Option<String>,
) -> (r: Option<DetailRow>)
    requires
        index < u32::MAX,
    ensures
        match r {
            Some(row) => uri == Some(row.uri) && row.track_no == Some((index + 1) as u32) && row.title == title
                && row.artists@ == join_artists_spec(views(artists@)) && row.duration_ms == nonneg_ms(duration_ms),
            None => uri is None,
        },
{
    let uri = match uri {
        Some(u) => u,
        None => return None,
    };
    Some(DetailRow {
        track_no: Some((index + 1) as u32),
        title,
        artists: join_artists(artists),
        duration_ms: if duration_ms > 0 { duration_ms as u128 } else { 0 },
        uri,
    })
}

// ---- assembling a loaded detail ----------------------------------------------------

/// A track of an album page, as the API reports it.
#[derive(Debug)]
pub struct AlbumTrack {
    pub track_number: u32,
    pub name: String,
    pub artists: Vec<String>,
    pub duration_ms: i64,
    pub uri: Option<String>,
}

/// A track of a list context (a playlist item or an artist top track), as the API reports it.
#[derive(Debug)]
pub struct ListTrack {
    pub name: String,
    pub artists: Vec<String>,
    pub duration_ms: i64,
    pub uri: Option<String>,
}

/// The displayed values of a detail row.
pub struct DetailRowView {
    pub track_no: Option<u32>,
    pub title: Seq<char>,
    pub artists: Seq<char>,
    pub duration_ms: nat,
    pub uri: Seq<char>,
}

/// The values of a row.
pub open spec fn detail_row_view(r: DetailRow) -> DetailRowView {
    DetailRowView { track_no: r.track_no, title: r.title@, artists: r.artists@, duration_ms: r.duration_ms as nat, uri: r.uri@ }
}

/// The values of a list of rows.
pub open spec fn detail_rows_view(rows: Seq<DetailRow>) -> Seq<DetailRowView> {
    rows.map_values(|r: DetailRow| detail_row_view(r))
}

/// The rows of an album page: every track with a URI, keeping its album track number.
pub open spec fn album_rows_spec(tracks: Seq<AlbumTrack>) -> Seq<DetailRowView>
    decreases tracks.len(),
{
    if tracks.len() == 0 {
        Seq::empty()
    } else {
        let prev = album_rows_spec(tracks.drop_last());
        let t = tracks.last();
        match t.uri {
            Some(u) => prev.push(DetailRowView {
                track_no: Some(t.track_number),
                title: t.name@,
                artists: join_artists_spec(views(t.artists@)),
                duration_ms: nonneg_ms(t.duration_ms),
                uri: u@,
            }),
            None => prev,
        }
    }
}

/// The rows of a list context: every track with a URI, numbered by its 1-based position in the
/// list (skipped entries still take their position).
pub open spec fn list_rows_spec(items: Seq<Option<ListTrack>>) -> Seq<DetailRowView>
    decreases items.len(),
{
    if items.len() == 0 {
        Seq::empty()
    } else {
        let prev = list_rows_spec(items.drop_last());
        match items.last() {
            Some(t) => match t.uri {
                Some(u) => prev.push(DetailRowView {
                    track_no: Some(items.len() as u32),
                    title: t.name@,
                    artists: join_artists_spec(views(t.artists@)),
                    duration_ms: nonneg_ms(t.duration_ms),
                    uri: u@,
                }),
                None => prev,
            },
            None => prev,
        }
    }
}

/// The detail of an album: `title` over the album's tracks from one page; when the album has more
/// tracks than the page holds, the full count is kept for a truncation notice.
pub fn album_detail(title: String, tracks: Vec<AlbumTrack>, total: u32) -> (d: DetailData)
    ensures
        d.title == title,
        detail_rows_view(d.rows@) == album_rows_spec(tracks@),
        d.truncated_total == (if total as nat > tracks@.len() { Some(total) } else { None }),
{
    let mut rows: Vec<DetailRow> = Vec::new();
    let mut i: usize = 0;
    while i < tracks.len()
        invariant
            i <= tracks@.len(),
            detail_rows_view(rows@) == album_rows_spec(tracks@.take(i as int)),
        decreases tracks.len() - i,
    {
        let t = &tracks[i];
        assert(tracks@.take(i + 1).drop_last() =~= tracks@.take(i as int));
        assert(tracks@.take(i + 1).last() == tracks@[i as int]);
        match album_track_row(t.track_number, t.name.clone(), t.artists.as_slice(), t.duration_ms, t.uri.clone()) {
            Some(row) => {
                let ghost before = rows@;
                rows.push(row);
                assert(detail_rows_view(rows@) =~= detail_rows_view(before).push(detail_row_view(row)));
            },
            None => {},
        }
        i = i + 1;
    }
    assert(tracks@.take(tracks@.len() as int) =~= tracks@);
    let truncated_total = truncated_total(total, tracks.len());
    DetailData { title, rows, truncated_total }
}

/// The detail of a list context (playlist or artist top tracks): `title` over the tracks, each
/// numbered by its list position; entries that are not playable tracks (`None`, or no URI) are
/// skipped. `truncated_total` is the truncation notice's count, if any.
pub fn list_detail(title: String, items: Vec<Option<ListTrack>>, truncated_total: Option<u32>) -> (d: DetailData)
    requires
        items@.len() < u32::MAX,
    ensures
        d.title == title,
        detail_rows_view(d.rows@) == list_rows_spec(items@),
        d.truncated_total == truncated_total,
{
    let mut rows: Vec<DetailRow> = Vec::new();
    let mut i: usize = 0;
    while i < items.len()
        invariant
            i <= items@.len() < u32::MAX,
            detail_rows_view(rows@) == list_rows_spec(items@.take(i as int)),
        decreases items.len() - i,
    {
        assert(items@.take(i + 1).drop_last() =~= items@.take(i as int));
        assert(items@.take(i + 1).last() == items@[i as int]);
        match &items[i] {
            Some(t) => match list_track_row(i, t.name.clone(), t.artists.as_slice(), t.duration_ms, t.uri.clone()) {
                Some(row) => {
                    let ghost before = rows@;
                    rows.push(row);
                    assert(detail_rows_view(rows@) =~= detail_rows_view(before).push(detail_row_view(row)));
                },
                None => {},
            },
            None => {},
        }
        i = i + 1;
    }
    assert(items@.take(items@.len() as int) =~= items@);
    DetailData { title, rows, truncated_total }
}

/// The detail of a track without an album context (e.g. a local track): the track alone, so the
/// pane is not blank.
pub fn lone_track_detail(name: String, track_number: u32, artists: &[String], duration_ms: i64, uri: String) -> (d: DetailData)
    ensures
        d.title == name,
        d.truncated_total is None,
        detail_rows_view(d.rows@) == seq![DetailRowView {
            track_no: Some(track_number),
            title: name@,
            artists: join_artists_spec(views(artists@)),
            duration_ms: nonneg_ms(duration_ms),
            uri: uri@,
        }],
{
    let row = DetailRow {
        track_no: Some(track_number),
        title: name.clone(),
        artists: join_artists(artists),
        duration_ms: if duration_ms > 0 { duration_ms as u128 } else { 0 },
        uri,
    };
    let mut rows: Vec<DetailRow> = Vec::new();
    rows.push(row);
    assert(detail_rows_view(rows@) =~= seq![detail_row_view(row)]);
    DetailData { title: name, rows, truncated_total: None }
}


impl DetailRow {
    /// A copy of this row.
    pub fn duplicate(&self) -> (r: DetailRow)
        ensures
            r == *self,
    {
        DetailRow {
            track_no: self.track_no,
            title: self.title.clone(),
            artists: self.artists.clone(),
            duration_ms: self.duration_ms,
            uri: self.uri.clone(),
        }
    }
}

impl DetailData {
    /// A copy of this detail (a cached detail is shown without fetching it again).
    pub fn duplicate(&self) -> (r: DetailData)
        ensures
            r.title == self.title,
            r.rows@ == self.rows@,
            r.truncated_total == self.truncated_total,
    {
        let mut rows: Vec<DetailRow> = Vec::new();
        let mut i: usize = 0;
        while i < self.rows.len()
            invariant
                i <= self.rows@.len(),
                rows@ == self.rows@.take(i as int),
            decreases self.rows.len() - i,
        {
            rows.push(self.rows[i].duplicate());
            assert(self.rows@.take(i + 1) =~= self.rows@.take(i as int).push(self.rows@[i as int]));
            i = i + 1;
        }
        assert(self.rows@.take(self.rows@.len() as int) =~= self.rows@);
        DetailData { title: self.title.clone(), rows, truncated_total: self.truncated_total }
    }
}

// ---- the detail cache -----------------------------------------------------------

/// Loaded details by item URI, so a revisited item is shown without fetching it again. When it
/// holds `DETAIL_CACHE_MAX` entries, the next insertion empties it first.
#[derive(Debug)]
pub struct DetailCache {
    entries: Vec<(String, DetailData)>,
}

impl DetailCache {
    /// No key occurs twice.
    #[verifier::type_invariant]
    spec fn wf(&self) -> bool {
        cache_wf(self.entries@)
    }

    /// How many details are cached.
    pub closed spec fn len(&self) -> nat {
        self.entries@.len()
    }

    /// Whether a detail is cached under `k`.
    pub closed spec fn has(&self, k: Seq<char>) -> bool {
        cache_has(self.entries@, k)
    }

    /// The detail cached under `k` (meaningful when `has(k)`).
    pub closed spec fn at(&self, k: Seq<char>) -> DetailData {
        cache_at(self.entries@, k)
    }

    /// An empty cache.
    pub fn new() -> (c: DetailCache)
        ensures
            c.len() == 0,
            forall|k: Seq<char>| !c.has(k),
    {
        DetailCache { entries: Vec::new() }
    }

    /// How many details are cached.
    pub fn count(&self) -> (n: usize)
        ensures
            n == self.len(),
    {
        self.entries.len()
    }

    /// The index of the entry for `key` in `entries`, if any.
    fn find_in(entries: &Vec<(String, DetailData)>, key: &str) -> (r: Option<usize>)
        ensures
            match r {
                Some(i) => i < entries@.len() && entries@[i as int].0@ == key@,
                None => forall|j: int| 0 <= j < entries@.len() ==> entries@[j].0@ != key@,
            },
    {
        let kv = chars_of(key);
        let mut i: usize = 0;
        while i < entries.len()
            invariant
                i <= entries@.len(),
                kv@ == key@,
                forall|j: int| 0 <= j < i ==> entries@[j].0@ != key@,
            decreases entries.len() - i,
        {
            if chars_eq(&chars_of(entries[i].0.as_str()), &kv) {
                return Some(i);
            }
            i = i + 1;
        }
        None
    }

    /// A copy of the detail cached under `key`, if any.
    pub fn get(&self, key: &str) -> (r: Option<DetailData>)
        ensures
            r is Some <==> self.has(key@),
            r matches Some(d) ==> d.title == self.at(key@).title && d.rows@ == self.at(key@).rows@
                && d.truncated_total == self.at(key@).truncated_total,
    {
        proof { use_type_invariant(self); }
        match Self::find_in(&self.entries, key) {
            Some(i) => {
                proof { lemma_cache_at(self.entries@, i as int); }
                Some(self.entries[i].1.duplicate())
            },
            None => None,
        }
    }

    /// Cache `data` under `key`, replacing what was there; a full cache is emptied first.
    pub fn insert(&mut self, key: String, data: DetailData)
        ensures
            final(self).at(key@) == data,
            cache_inserted(*old(self), *final(self), key@, data),
    {
        proof { use_type_invariant(&*self); }
        let ghost k0 = key@;
        let ghost e0 = self.entries@;
        let mut e: Vec<(String, DetailData)> = Vec::new();
        std::mem::swap(&mut e, &mut self.entries);
        if e.len() >= crate::dashboard::DETAIL_CACHE_MAX {
            e = Vec::new();
        }
        let ghost mid = e@;
        assert(cache_wf(mid));
        match Self::find_in(&e, key.as_str()) {
            Some(i) => {
                e.set(i, (key, data));
                proof {
                    assert(cache_wf(e@));
                    assert forall|k: Seq<char>| k != k0 implies (cache_has(e@, k) <==> cache_has(mid, k)) by {
                        if cache_has(e@, k) {
                            let j = choose|j: int| 0 <= j < e@.len() && #[trigger] e@[j].0@ == k;
                            assert(mid[j].0@ == k);
                        }
                        if cache_has(mid, k) {
                            let j = choose|j: int| 0 <= j < mid.len() && #[trigger] mid[j].0@ == k;
                            assert(e@[j].0@ == k);
                        }
                    }
                    assert forall|k: Seq<char>| k != k0 && cache_has(e@, k) implies cache_at(e@, k) == cache_at(mid, k) by {
                        let j = choose|j: int| 0 <= j < e@.len() && #[trigger] e@[j].0@ == k;
                        lemma_cache_at(e@, j);
                        assert(mid[j].0@ == k);
                        lemma_cache_at(mid, j);
                    }
                    lemma_cache_at(e@, i as int);
                }
            },
            None => {
                e.push((key, data));
                proof {
                    let n = mid.len() as int;
                    assert(cache_wf(e@));
                    assert forall|k: Seq<char>| k != k0 implies (cache_has(e@, k) <==> cache_has(mid, k)) by {
                        if cache_has(e@, k) {
                            let j = choose|j: int| 0 <= j < e@.len() && #[trigger] e@[j].0@ == k;
                            assert(j < n);
                            assert(mid[j].0@ == k);
                        }
                        if cache_has(mid, k) {
                            let j = choose|j: int| 0 <= j < mid.len() && #[trigger] mid[j].0@ == k;
                            assert(e@[j].0@ == k);
                        }
                    }
                    assert forall|k: Seq<char>| k != k0 && cache_has(e@, k) implies cache_at(e@, k) == cache_at(mid, k) by {
                        let j = choose|j: int| 0 <= j < e@.len() && #[trigger] e@[j].0@ == k;
                        assert(j < n);
                        lemma_cache_at(e@, j);
                        assert(mid[j].0@ == k);
                        lemma_cache_at(mid, j);
                    }
                    lemma_cache_at(e@, n);
                }
            },
        }
        proof {
            if e0.len() < crate::dashboard::DETAIL_CACHE_MAX {
                assert(mid == e0);
            } else {
                assert forall|k: Seq<char>| k != k0 implies !cache_has(mid, k) by {}
            }
        }
        self.entries = e;
    }

    /// Forget the detail cached under `key` (so it is fetched again).
    pub fn remove(&mut self, key: &str)
        ensures
            !final(self).has(key@),
            final(self).len() <= old(self).len(),
            forall|k: Seq<char>| k != key@ ==> (final(self).has(k) <==> old(self).has(k)),
            forall|k: Seq<char>| k != key@ && final(self).has(k) ==> final(self).at(k) == old(self).at(k),
    {
        proof { use_type_invariant(&*self); }
        let ghost c0 = self.entries@;
        let mut e: Vec<(String, DetailData)> = Vec::new();
        std::mem::swap(&mut e, &mut self.entries);
        match Self::find_in(&e, key) {
            Some(i) => {
                let _ = e.remove(i);
                proof {
                    let ii = i as int;
                    assert(cache_wf(e@)) by {
                        assert forall|a: int, b: int| 0 <= a < b < e@.len() implies e@[a].0@ != e@[b].0@ by {
                            let a0 = if a < ii { a } else { a + 1 };
                            let b0 = if b < ii { b } else { b + 1 };
                            assert(e@[a] == c0[a0]);
                            assert(e@[b] == c0[b0]);
                        }
                    }
                    assert forall|k: Seq<char>| k != key@ implies (cache_has(e@, k) <==> cache_has(c0, k)) by {
                        if cache_has(e@, k) {
                            let j = choose|j: int| 0 <= j < e@.len() && #[trigger] e@[j].0@ == k;
                            if j < ii {
                                assert(c0[j].0@ == k);
                            } else {
                                assert(c0[j + 1].0@ == k);
                            }
                        }
                        if cache_has(c0, k) {
                            let j = choose|j: int| 0 <= j < c0.len() && #[trigger] c0[j].0@ == k;
                            assert(j != ii);
                            if j < ii {
                                assert(e@[j].0@ == k);
                            } else {
                                assert(e@[j - 1].0@ == k);
                            }
                        }
                    }
                    assert(!cache_has(e@, key@)) by {
                        if cache_has(e@, key@) {
                            let j = choose|j: int| 0 <= j < e@.len() && #[trigger] e@[j].0@ == key@;
                            if j < ii {
                                assert(c0[j].0@ == key@);
                            } else {
                                assert(c0[j + 1].0@ == key@);
                            }
                        }
                    }
                    assert forall|k: Seq<char>| k != key@ && cache_has(e@, k) implies cache_at(e@, k) == cache_at(c0, k) by {
                        let j = choose|j: int| 0 <= j < e@.len() && #[trigger] e@[j].0@ == k;
                        lemma_cache_at(e@, j);
                        if j < ii {
                            assert(c0[j].0@ == k);
                            lemma_cache_at(c0, j);
                        } else {
                            assert(c0[j + 1].0@ == k);
                            lemma_cache_at(c0, j + 1);
                        }
                    }
                }
            },
            None => {},
        }
        self.entries = e;
    }
}

/// Whether two details hold the same title, rows and truncation.
pub open spec fn same_detail(a: DetailData, b: DetailData) -> bool {
    a.title == b.title && a.rows@ == b.rows@ && a.truncated_total == b.truncated_total
}

/// The cache `c1` after `data` was cached under `key` in `c0`: the entry is there (replacing any
/// earlier one), a full cache was emptied first, and every other entry is as it was.
pub open spec fn cache_inserted(c0: DetailCache, c1: DetailCache, key: Seq<char>, data: DetailData) -> bool {
    &&& c1.has(key) && same_detail(c1.at(key), data)
    &&& c0.len() >= crate::dashboard::DETAIL_CACHE_MAX ==> c1.len() == 1
    &&& c0.len() < crate::dashboard::DETAIL_CACHE_MAX ==> c1.len() <= c0.len() + 1
    &&& forall|k: Seq<char>| k != key ==> (c1.has(k) <==> (c0.len() < crate::dashboard::DETAIL_CACHE_MAX && c0.has(k)))
    &&& forall|k: Seq<char>| k != key && c1.has(k) ==> c1.at(k) == c0.at(k)
}

/// No key occurs twice in `e`.
spec fn cache_wf(e: Seq<(String, DetailData)>) -> bool {
    forall|i: int, j: int| 0 <= i < j < e.len() ==> e[i].0@ != e[j].0@
}

/// Whether `e` holds an entry under `k`.
spec fn cache_has(e: Seq<(String, DetailData)>, k: Seq<char>) -> bool {
    exists|i: int| 0 <= i < e.len() && #[trigger] e[i].0@ == k
}

/// The detail `e` holds under `k`.
spec fn cache_at(e: Seq<(String, DetailData)>, k: Seq<char>) -> DetailData {
    e[choose|i: int| 0 <= i < e.len() && #[trigger] e[i].0@ == k].1
}

/// In entries without repeated keys, the entry at `i` is what its key looks up.
proof fn lemma_cache_at(e: Seq<(String, DetailData)>, i: int)
    requires
        cache_wf(e),
        0 <= i < e.len(),
    ensures
        cache_has(e, e[i].0@),
        cache_at(e, e[i].0@) == e[i].1,
{
    let k = e[i].0@;
    assert(e[i].0@ == k);
    let j = choose|j: int| 0 <= j < e.len() && #[trigger] e[j].0@ == k;
    assert(j == i);
}

/// What a failed detail load was trying to fetch, for its error message.
pub fn detail_subject(target: &PlayTarget) -> (r: &'static str)
    ensures
        r@ == match target@.0 {
            TargetKind::Album => "album tracks"@,
            TargetKind::Playlist => "playlist tracks"@,
            TargetKind::Artist => "artist top tracks"@,
            TargetKind::Track => "track"@,
        },
{
    match target {
        PlayTarget::Album(_) => "album tracks",
        PlayTarget::Playlist(_) => "playlist tracks",
        PlayTarget::Artist(_) => "artist top tracks",
        PlayTarget::Track(_) => "track",
    }
}

} // verus!
