//! Search dashboard data model: the result category tabs, the classified hits (reusing the library
//! pane's rows so results render, select and play through the same machinery), and the search
//! state machine (typing the query, then navigating the results).

use vstd::prelude::*;

use crate::browse::{
    first_selectable, first_selectable_spec, item_at, lemma_first_selectable_unique,
    next_selectable, next_selectable_ok, prev_selectable, prev_selectable_ok, row_views,
    selectable_at, selected_item_spec, track_item, album_item, artist_item, BrowseItem, ItemView,
    LibraryRow,
    PlayTarget, RowView, TargetKind,
};
use crate::detail::DetailState;
use crate::format::join_artists_spec;
use crate::keys::{Key, KeyCode};
use crate::text::{chars_of, push_char, push_str, slice_range, string_of, trim, trim_spec, views};
use crate::view::{focus_after_tab, Focus};

verus! {

/// Hits fetched per category and query (one page each).
pub const SEARCH_LIMIT: u32 = 10;

/// Items shown per category under the combined `Top` tab (a preview).
pub const TOP_SECTION_LIMIT: usize = 3;

/// Search result category tab. Order matches the header `[Top][Songs][Artists][Albums]`.
#[derive(Debug, Clone, Copy, PartialEq, Eq, Structural)]
pub enum SearchTab {
    Top,
    Songs,
    Artists,
    Albums,
}

/// Position of a search tab in header order.
pub open spec fn search_tab_index(t: SearchTab) -> nat {
    match t {
        SearchTab::Top => 0,
        SearchTab::Songs => 1,
        SearchTab::Artists => 2,
        SearchTab::Albums => 3,
    }
}

/// The search tab at position `i` in header order.
pub open spec fn search_tab_at(i: nat) -> SearchTab {
    if i == 0 {
        SearchTab::Top
    } else if i == 1 {
        SearchTab::Songs
    } else if i == 2 {
        SearchTab::Artists
    } else {
        SearchTab::Albums
    }
}

impl SearchTab {
    /// All tabs in header order (the basis for display and `[`/`]` switching).
    pub const ALL: [SearchTab; 4] = [SearchTab::Top, SearchTab::Songs, SearchTab::Artists, SearchTab::Albums];

    /// Short label shown in the tab header.
    pub fn label(self) -> (r: &'static str)
        ensures
            r@ == match self {
                SearchTab::Top => "Top"@,
                SearchTab::Songs => "Songs"@,
                SearchTab::Artists => "Artists"@,
                SearchTab::Albums => "Albums"@,
            },
    {
        match self {
            SearchTab::Top => "Top",
            SearchTab::Songs => "Songs",
            SearchTab::Artists => "Artists",
            SearchTab::Albums => "Albums",
        }
    }

    /// Position of this tab in [`SearchTab::ALL`].
    fn index(self) -> (i: usize)
        ensures
            i == search_tab_index(self),
    {
        match self {
            SearchTab::Top => 0,
            SearchTab::Songs => 1,
            SearchTab::Artists => 2,
            SearchTab::Albums => 3,
        }
    }

    /// The tab at position `i` (`i < 4`).
    fn at(i: usize) -> (t: SearchTab)
        requires
            i < 4,
        ensures
            t == search_tab_at(i as nat),
    {
        if i == 0 {
            SearchTab::Top
        } else if i == 1 {
            SearchTab::Songs
        } else if i == 2 {
            SearchTab::Artists
        } else {
            SearchTab::Albums
        }
    }

    /// The next tab (wraps around), used by `]`.
    pub fn next(self) -> (t: Self)
        ensures
            t == search_tab_at((search_tab_index(self) + 1) % 4),
    {
        Self::at((self.index() + 1) % 4)
    }

    /// The previous tab (wraps around), used by `[`.
    pub fn prev(self) -> (t: Self)
        ensures
            t == search_tab_at((search_tab_index(self) + 3) % 4),
    {
        Self::at((self.index() + 3) % 4)
    }
}

/// Moving to the next search tab and back (or back and forward) returns to the starting tab, and
/// four steps in one direction come full circle.
pub proof fn lemma_search_tab_cycle(t: SearchTab)
    ensures
        search_tab_at((search_tab_index(search_tab_at((search_tab_index(t) + 1) % 4)) + 3) % 4) == t,
        search_tab_at((search_tab_index(search_tab_at((search_tab_index(t) + 3) % 4)) + 1) % 4) == t,
        search_tab_at(search_tab_index(t)) == t,
{
}

// ---- results -----------------------------------------------------------------

/// Categorized search hits, each already mapped to a playable item. The default value is the empty
/// pre-search state.
#[derive(Debug)]
pub struct SearchResults {
    pub songs: Vec<BrowseItem>,
    pub artists: Vec<BrowseItem>,
    pub albums: Vec<BrowseItem>,
}

impl Default for SearchResults {
    fn default() -> (r: Self)
        ensures
            r.songs@.len() == 0,
            r.artists@.len() == 0,
            r.albums@.len() == 0,
    {
        SearchResults { songs: Vec::new(), artists: Vec::new(), albums: Vec::new() }
    }
}

/// Whether no category has a hit.
pub open spec fn no_hits(r: SearchResults) -> bool {
    r.songs@.len() == 0 && r.artists@.len() == 0 && r.albums@.len() == 0
}

/// The row views of a flat, header-less item list.
pub open spec fn item_views(items: Seq<BrowseItem>) -> Seq<RowView> {
    items.map_values(|it: BrowseItem| RowView::Item(it@))
}

/// One `Top` section: the header followed by at most `TOP_SECTION_LIMIT` items, or nothing when
/// the category is empty.
pub open spec fn top_section(header: Seq<char>, items: Seq<BrowseItem>) -> Seq<RowView> {
    if items.len() == 0 {
        Seq::empty()
    } else {
        let n = if items.len() < TOP_SECTION_LIMIT { items.len() as int } else { TOP_SECTION_LIMIT as int };
        seq![RowView::Header(header)] + item_views(items.take(n))
    }
}

/// The rows shown for `tab`: `Top` previews each non-empty category under its uppercase header;
/// every other tab is the flat item list of its category.
pub open spec fn search_rows_view(r: SearchResults, tab: SearchTab) -> Seq<RowView> {
    match tab {
        SearchTab::Top => top_section("SONGS"@, r.songs@) + top_section("ARTISTS"@, r.artists@)
            + top_section("ALBUMS"@, r.albums@),
        SearchTab::Songs => item_views(r.songs@),
        SearchTab::Artists => item_views(r.artists@),
        SearchTab::Albums => item_views(r.albums@),
    }
}

/// Appends `items[..n]` as item rows.
fn push_items(rows: &mut Vec<LibraryRow>, items: &[BrowseItem], n: usize)
    requires
        n <= items@.len(),
    ensures
        row_views(final(rows)@) == row_views(old(rows)@) + item_views(items@.take(n as int)),
{
    let ghost base = rows@;
    let mut j: usize = 0;
    while j < n
        invariant
            j <= n <= items@.len(),
            row_views(rows@) == row_views(base) + item_views(items@.take(j as int)),
        decreases n - j,
    {
        let ghost before = rows@;
        rows.push(LibraryRow::Item(items[j].duplicate()));
        assert(row_views(rows@) =~= row_views(before).push(RowView::Item(items@[j as int]@)));
        assert(item_views(items@.take(j + 1)) =~= item_views(items@.take(j as int)).push(RowView::Item(items@[j as int]@)));
        j = j + 1;
    }
}

/// Appends one `Top` section for a category.
fn push_top_section(rows: &mut Vec<LibraryRow>, header: &str, items: &[BrowseItem])
    ensures
        row_views(final(rows)@) == row_views(old(rows)@) + top_section(header@, items@),
{
    if items.len() == 0 {
        assert(row_views(rows@) + top_section(header@, items@) =~= row_views(rows@));
        return;
    }
    let ghost base = rows@;
    let mut h = String::new();
    push_str(&mut h, header);
    rows.push(LibraryRow::Header(h));
    assert(row_views(rows@) =~= row_views(base) + seq![RowView::Header(header@)]);
    let n: usize = if items.len() < TOP_SECTION_LIMIT { items.len() } else { TOP_SECTION_LIMIT };
    push_items(rows, items, n);
    assert(row_views(base) + seq![RowView::Header(header@)] + item_views(items@.take(n as int))
        =~= row_views(base) + top_section(header@, items@));
}

/// Wraps a flat item list as selectable rows (no header).
fn items_rows(items: &[BrowseItem]) -> (rows: Vec<LibraryRow>)
    ensures
        row_views(rows@) == item_views(items@),
{
    let mut rows: Vec<LibraryRow> = Vec::new();
    push_items(&mut rows, items, items.len());
    assert(row_views(Seq::<LibraryRow>::empty()) =~= Seq::<RowView>::empty());
    assert(items@.take(items@.len() as int) =~= items@);
    assert(Seq::<RowView>::empty() + item_views(items@) =~= item_views(items@));
    rows
}

/// Whether the target's URI equals `s`.
fn target_uri_is(t: &PlayTarget, s: &String) -> (b: bool)
    ensures
        b == (t@.1 == s@),
{
    match t {
        PlayTarget::Track(u) => *u == *s,
        PlayTarget::Playlist(u) => *u == *s,
        PlayTarget::Album(u) => *u == *s,
        PlayTarget::Artist(u) => *u == *s,
    }
}

impl SearchResults {
    /// True when no category returned any hit (drives the "no results" message).
    pub fn is_empty(&self) -> (b: bool)
        ensures
            b == no_hits(*self),
    {
        self.songs.len() == 0 && self.artists.len() == 0 && self.albums.len() == 0
    }

    /// The rows to display for `tab`.
    pub fn rows(&self, tab: SearchTab) -> (rows: Vec<LibraryRow>)
        ensures
            row_views(rows@) == search_rows_view(*self, tab),
    {
        match tab {
            SearchTab::Top => self.top_rows(),
            SearchTab::Songs => items_rows(&self.songs),
            SearchTab::Artists => items_rows(&self.artists),
            SearchTab::Albums => items_rows(&self.albums),
        }
    }

    /// The combined `Top` view: each non-empty category, capped to `TOP_SECTION_LIMIT`, under its
    /// uppercase header.
    fn top_rows(&self) -> (rows: Vec<LibraryRow>)
        ensures
            row_views(rows@) == search_rows_view(*self, SearchTab::Top),
    {
        let mut rows: Vec<LibraryRow> = Vec::new();
        assert(row_views(rows@) =~= Seq::<RowView>::empty());
        push_top_section(&mut rows, "SONGS", &self.songs);
        push_top_section(&mut rows, "ARTISTS", &self.artists);
        push_top_section(&mut rows, "ALBUMS", &self.albums);
        proof {
            reveal_strlit("SONGS");
            reveal_strlit("ARTISTS");
            reveal_strlit("ALBUMS");
        }
        assert(row_views(rows@) =~= search_rows_view(*self, SearchTab::Top));
        rows
    }

    /// URIs of every song hit, in order (the play queue for track playback).
    pub fn song_uris(&self) -> (uris: Vec<String>)
        ensures
            uris@.len() == self.songs@.len(),
            forall|i: int| 0 <= i < uris@.len() ==> #[trigger] uris@[i]@ == self.songs@[i].target@.1,
    {
        let mut uris: Vec<String> = Vec::new();
        let mut i: usize = 0;
        while i < self.songs.len()
            invariant
                i <= self.songs@.len(),
                uris@.len() == i,
                forall|k: int| 0 <= k < i ==> #[trigger] uris@[k]@ == self.songs@[k].target@.1,
            decreases self.songs.len() - i,
        {
            let mut u = String::new();
            push_str(&mut u, self.songs[i].target.uri());
            uris.push(u);
            i = i + 1;
        }
        uris
    }

    /// The position of the first song whose URI is `uri`, if any (the play offset).
    pub fn song_index(&self, uri: &str) -> (r: Option<usize>)
        ensures
            match r {
                Some(i) => i < self.songs@.len() && self.songs@[i as int].target@.1 == uri@
                    && forall|k: int| 0 <= k < i ==> self.songs@[k].target@.1 != uri@,
                None => forall|k: int| 0 <= k < self.songs@.len() ==> self.songs@[k].target@.1 != uri@,
            },
    {
        let mut needle = String::new();
        push_str(&mut needle, uri);
        let mut i: usize = 0;
        while i < self.songs.len()
            invariant
                i <= self.songs@.len(),
                needle@ == uri@,
                forall|k: int| 0 <= k < i ==> self.songs@[k].target@.1 != uri@,
            decreases self.songs.len() - i,
        {
            if target_uri_is(&self.songs[i].target, &needle) {
                return Some(i);
            }
            i = i + 1;
        }
        None
    }
}

// ---- mapping fetched hits ------------------------------------------------------

/// A track hit as the search API returns it. Local tracks have no URI.
#[derive(Debug)]
pub struct TrackHit {
    pub name: String,
    pub artists: Vec<String>,
    pub uri: Option<String>,
}

/// An artist hit.
#[derive(Debug)]
pub struct ArtistHit {
    pub name: String,
    pub uri: String,
}

/// An album hit. An album without an id has no URI.
#[derive(Debug)]
pub struct AlbumHit {
    pub name: String,
    pub artists: Vec<String>,
    pub uri: Option<String>,
}

/// The result of one typed search call.
#[derive(Debug)]
pub enum SearchHits {
    Tracks(Vec<TrackHit>),
    Artists(Vec<ArtistHit>),
    Albums(Vec<AlbumHit>),
}

/// The item views of a list of items.
pub open spec fn items_view(items: Seq<BrowseItem>) -> Seq<ItemView> {
    items.map_values(|it: BrowseItem| it@)
}

/// The items made from track hits: every hit with a URI, in order, subtitled by its artists.
pub open spec fn track_hit_views(hits: Seq<TrackHit>) -> Seq<ItemView>
    decreases hits.len(),
{
    if hits.len() == 0 {
        Seq::empty()
    } else {
        let prev = track_hit_views(hits.drop_last());
        let h = hits.last();
        match h.uri {
            Some(u) => prev.push(ItemView {
                title: h.name@,
                subtitle: join_artists_spec(views(h.artists@)),
                target: (TargetKind::Track, u@),
            }),
            None => prev,
        }
    }
}

/// The items made from album hits: every hit with a URI, in order, subtitled by its artists.
pub open spec fn album_hit_views(hits: Seq<AlbumHit>) -> Seq<ItemView>
    decreases hits.len(),
{
    if hits.len() == 0 {
        Seq::empty()
    } else {
        let prev = album_hit_views(hits.drop_last());
        let h = hits.last();
        match h.uri {
            Some(u) => prev.push(ItemView {
                title: h.name@,
                subtitle: join_artists_spec(views(h.artists@)),
                target: (TargetKind::Album, u@),
            }),
            None => prev,
        }
    }
}

/// The items made from artist hits, one per hit.
pub open spec fn artist_hit_views(hits: Seq<ArtistHit>) -> Seq<ItemView> {
    hits.map_values(|h: ArtistHit| ItemView { title: h.name@, subtitle: "Artist"@, target: (TargetKind::Artist, h.uri@) })
}

/// Track hits as playable items: every hit with a URI, in order (local tracks have none).
pub fn track_hit_items(hits: &[TrackHit]) -> (items: Vec<BrowseItem>)
    ensures
        items_view(items@) == track_hit_views(hits@),
{
    let mut items: Vec<BrowseItem> = Vec::new();
    let mut i: usize = 0;
    while i < hits.len()
        invariant
            i <= hits@.len(),
            items_view(items@) == track_hit_views(hits@.take(i as int)),
        decreases hits.len() - i,
    {
        let h = &hits[i];
        assert(hits@.take(i + 1).drop_last() =~= hits@.take(i as int));
        assert(hits@.take(i + 1).last() == hits@[i as int]);
        match &h.uri {
            Some(u) => {
                let it = track_item(h.name.clone(), h.artists.as_slice(), u.clone());
                let ghost before = items@;
                items.push(it);
                assert(items_view(items@) =~= items_view(before).push(it@));
            },
            None => {},
        }
        i = i + 1;
    }
    assert(hits@.take(hits@.len() as int) =~= hits@);
    items
}

/// Map track hits to playable items (hits without a URI are skipped). A result of another kind is
/// an error, so a mismatch is never disguised as "no songs found".
pub fn track_items(result: SearchHits) -> (r: Result<Vec<BrowseItem>, String>)
    ensures
        match result {
            SearchHits::Tracks(hits) => r matches Ok(items) && items_view(items@) == track_hit_views(hits@),
            _ => r matches Err(e) && e@ == "unexpected search result (expected tracks)"@,
        },
{
    match result {
        SearchHits::Tracks(hits) => Ok(track_hit_items(&hits)),
        _ => Err(String::from_str("unexpected search result (expected tracks)")),
    }
}

/// Map artist hits to playable items (context playback of the artist). A result of another kind
/// is an error.
pub fn artist_items(result: SearchHits) -> (r: Result<Vec<BrowseItem>, String>)
    ensures
        match result {
            SearchHits::Artists(hits) => r matches Ok(items) && items_view(items@) == artist_hit_views(hits@),
            _ => r matches Err(e) && e@ == "unexpected search result (expected artists)"@,
        },
{
    let hits = match result {
        SearchHits::Artists(hits) => hits,
        _ => {
            return Err(String::from_str("unexpected search result (expected artists)"));
        },
    };
    let mut items: Vec<BrowseItem> = Vec::new();
    let mut i: usize = 0;
    while i < hits.len()
        invariant
            i <= hits@.len(),
            items_view(items@) == artist_hit_views(hits@.take(i as int)),
        decreases hits.len() - i,
    {
        let h = &hits[i];
        let it = artist_item(h.name.clone(), h.uri.clone());
        let ghost before = items@;
        items.push(it);
        assert(items_view(items@) =~= items_view(before).push(it@));
        assert(artist_hit_views(hits@.take(i + 1)) =~= artist_hit_views(hits@.take(i as int)).push(it@));
        i = i + 1;
    }
    assert(hits@.take(hits@.len() as int) =~= hits@);
    Ok(items)
}

/// Map album hits to playable items (hits without a URI are skipped). A result of another kind is
/// an error.
pub fn album_items(result: SearchHits) -> (r: Result<Vec<BrowseItem>, String>)
    ensures
        match result {
            SearchHits::Albums(hits) => r matches Ok(items) && items_view(items@) == album_hit_views(hits@),
            _ => r matches Err(e) && e@ == "unexpected search result (expected albums)"@,
        },
{
    let hits = match result {
        SearchHits::Albums(hits) => hits,
        _ => {
            return Err(String::from_str("unexpected search result (expected albums)"));
        },
    };
    let mut items: Vec<BrowseItem> = Vec::new();
    let mut i: usize = 0;
    while i < hits.len()
        invariant
            i <= hits@.len(),
            items_view(items@) == album_hit_views(hits@.take(i as int)),
        decreases hits.len() - i,
    {
        let h = &hits[i];
        assert(hits@.take(i + 1).drop_last() =~= hits@.take(i as int));
        assert(hits@.take(i + 1).last() == hits@[i as int]);
        match &h.uri {
            Some(u) => {
                let it = album_item(h.name.clone(), h.artists.as_slice(), u.clone());
                let ghost before = items@;
                items.push(it);
                assert(items_view(items@) =~= items_view(before).push(it@));
            },
            None => {},
        }
        i = i + 1;
    }
    assert(hits@.take(hits@.len() as int) =~= hits@);
    Ok(items)
}

// ---- the search state ------------------------------------------------------------

/// Phase of the search: typing the query, or navigating the classified results.
#[derive(Debug, Clone, Copy, PartialEq, Eq, Structural)]
pub enum SearchPhase {
    Input,
    Results,
}

/// State of the search dashboard. `focus` selects between the results list (`Library`) and the
/// highlight detail (`Detail`).
#[derive(Debug)]
pub struct SearchState {
    pub query: String,
    pub phase: SearchPhase,
    pub tab: SearchTab,
    pub results: SearchResults,
    /// Rows for the current `tab`, rebuilt on search and on tab switch.
    pub rows: Vec<LibraryRow>,
    pub selected: usize,
    pub focus: Focus,
    pub message: Option<String>,
    /// The right-hand highlight detail for the selected result.
    pub detail: DetailState,
}

/// Whether a detail pane is in its cleared state with the given message.
pub open spec fn detail_cleared(d: DetailState, message: Option<String>) -> bool {
    &&& d.key is None
    &&& d.title@.len() == 0
    &&& d.rows@.len() == 0
    &&& d.selected == 0
    &&& d.message == message
}

/// The selection a freshly built row list starts at: its first selectable row, or 0.
pub open spec fn snapped_selection(rows: Seq<LibraryRow>, selected: usize) -> bool {
    match first_selectable_spec(rows) {
        Some(i) => selected == i,
        None => selected == 0,
    }
}

/// The note shown when a search found nothing.
pub open spec fn no_results_message(query: Seq<char>) -> Seq<char> {
    "No results for \""@ + query + "\""@
}

/// Index of the first selectable row, or 0 when there is none.
fn first_or_zero(rows: &[LibraryRow]) -> (i: usize)
    ensures
        snapped_selection(rows@, i),
{
    let first = first_selectable(rows);
    proof { lemma_first_selectable_unique(rows@, first); }
    match first {
        Some(i) => i,
        None => 0,
    }
}

impl SearchState {
    /// The idle state: an empty query in the input phase.
    pub fn new() -> (s: Self)
        ensures
            s.query@.len() == 0,
            s.phase == SearchPhase::Input,
            s.tab == SearchTab::Top,
            no_hits(s.results),
            s.rows@.len() == 0,
            s.selected == 0,
            s.focus == Focus::Library,
            s.message is None,
            detail_cleared(s.detail, None),
    {
        SearchState {
            query: String::new(),
            phase: SearchPhase::Input,
            tab: SearchTab::Top,
            results: SearchResults::default(),
            rows: Vec::new(),
            selected: 0,
            focus: Focus::Library,
            message: None,
            detail: DetailState::default(),
        }
    }

    /// Populate from a completed search: keep the query, switch to the results phase on the `Top`
    /// tab with the results list focused, and snap the selection to the first selectable row. An
    /// empty result set is messaged so the pane is never silently blank.
    pub fn set_results(&mut self, query: String, results: SearchResults)
        ensures
            final(self).query == query,
            final(self).results == results,
            final(self).phase == SearchPhase::Results,
            final(self).tab == SearchTab::Top,
            final(self).focus == Focus::Library,
            row_views(final(self).rows@) == search_rows_view(results, SearchTab::Top),
            snapped_selection(final(self).rows@, final(self).selected),
            no_hits(results) ==> (final(self).message matches Some(m) && m@ == no_results_message(query@)),
            !no_hits(results) ==> final(self).message is None,
            detail_cleared(final(self).detail, None),
    {
        self.message = if results.is_empty() {
            let mut m = String::from_str("No results for \"");
            push_str(&mut m, query.as_str());
            push_str(&mut m, "\"");
            Some(m)
        } else {
            None
        };
        self.query = query;
        self.results = results;
        self.tab = SearchTab::Top;
        self.focus = Focus::Library;
        self.phase = SearchPhase::Results;
        self.rows = self.results.rows(self.tab);
        self.selected = first_or_zero(&self.rows);
        self.detail.clear(None);
    }

    /// Switch the category tab, rebuild the rows, and snap the selection to the first selectable
    /// row.
    pub fn set_tab(&mut self, tab: SearchTab)
        ensures
            final(self).tab == tab,
            final(self).results == old(self).results,
            final(self).query == old(self).query,
            final(self).phase == old(self).phase,
            final(self).focus == old(self).focus,
            final(self).message == old(self).message,
            final(self).detail == old(self).detail,
            row_views(final(self).rows@) == search_rows_view(old(self).results, tab),
            snapped_selection(final(self).rows@, final(self).selected),
    {
        self.tab = tab;
        self.rows = self.results.rows(tab);
        self.selected = first_or_zero(&self.rows);
    }

    /// Return to the input phase to edit the query, discarding the old results and detail so a
    /// stale list is never shown against a new query. The query itself is kept for editing.
    pub fn back_to_input(&mut self)
        ensures
            final(self).phase == SearchPhase::Input,
            final(self).query == old(self).query,
            final(self).tab == old(self).tab,
            no_hits(final(self).results),
            final(self).rows@.len() == 0,
            final(self).selected == 0,
            final(self).focus == Focus::Library,
            final(self).message is None,
            detail_cleared(final(self).detail, None),
    {
        self.phase = SearchPhase::Input;
        self.results = SearchResults::default();
        self.rows = Vec::new();
        self.selected = 0;
        self.focus = Focus::Library;
        self.message = None;
        self.detail.clear(None);
    }

    /// The currently selected result item (`None` on a header row or an empty list).
    pub fn selected_item(&self) -> (r: Option<&BrowseItem>)
        ensures
            match r {
                Some(it) => selected_item_spec(self.rows@, self.selected as int) == Some(*it),
                None => selected_item_spec(self.rows@, self.selected as int) is None,
            },
    {
        item_at(&self.rows, self.selected)
    }

    /// Move the selection to the next selectable row (stays put if there is none below).
    pub fn select_next(&mut self)
        ensures
            *final(self) == (SearchState { selected: final(self).selected, ..*old(self) }),
            final(self).rows == old(self).rows,
            final(self).results == old(self).results,
            final(self).tab == old(self).tab,
            final(self).phase == old(self).phase,
            next_selectable_ok(old(self).rows@, old(self).selected as int, Some(final(self).selected))
                || (next_selectable_ok(old(self).rows@, old(self).selected as int, None)
                    && final(self).selected == old(self).selected),
    {
        match next_selectable(&self.rows, self.selected) {
            Some(i) => self.selected = i,
            None => {},
        }
    }

    /// Move the selection to the previous selectable row (stays put if there is none above).
    pub fn select_prev(&mut self)
        ensures
            *final(self) == (SearchState { selected: final(self).selected, ..*old(self) }),
            final(self).rows == old(self).rows,
            final(self).results == old(self).results,
            final(self).tab == old(self).tab,
            final(self).phase == old(self).phase,
            prev_selectable_ok(old(self).rows@, old(self).selected as int, Some(final(self).selected))
                || (prev_selectable_ok(old(self).rows@, old(self).selected as int, None)
                    && final(self).selected == old(self).selected),
    {
        match prev_selectable(&self.rows, self.selected) {
            Some(i) => self.selected = i,
            None => {},
        }
    }
}

impl Default for SearchState {
    fn default() -> (s: Self)
        ensures
            s.query@.len() == 0,
            s.phase == SearchPhase::Input,
            s.tab == SearchTab::Top,
            no_hits(s.results),
            s.rows@.len() == 0,
            s.selected == 0,
            s.focus == Focus::Library,
            s.message is None,
            detail_cleared(s.detail, None),
    {
        Self::new()
    }
}

// ---- keys -------------------------------------------------------------------------

/// What a key press in the search screen asks the caller to do.
#[derive(Debug)]
pub enum SearchAction {
    Nothing,
    /// Leave the search screen.
    Close,
    /// Run the search for this query.
    Search(String),
    /// Play the song hits as a queue, starting at `start` (so next/previous walk the hits).
    PlaySongs { uris: Vec<String>, start: usize },
    /// Play this target as a context (an artist or an album).
    Play(PlayTarget),
    /// Play the highlighted row of the detail pane.
    PlayDetail,
}

/// What playing the selected result asks for.
pub open spec fn play_selected_ok(r: SearchResults, item: Option<BrowseItem>, a: SearchAction) -> bool {
    match item {
        None => a is Nothing,
        Some(it) => match it.target {
            PlayTarget::Track(u) => a matches SearchAction::PlaySongs { uris, start }
                && uris@.len() == r.songs@.len()
                && (forall|i: int| 0 <= i < uris@.len() ==> #[trigger] uris@[i]@ == r.songs@[i].target@.1)
                && ((exists|i: int| 0 <= i < r.songs@.len() && r.songs@[i].target@.1 == u@) ==> (
                    start < r.songs@.len() && r.songs@[start as int].target@.1 == u@
                    && forall|k: int| 0 <= k < start ==> r.songs@[k].target@.1 != u@))
                && (!(exists|i: int| 0 <= i < r.songs@.len() && r.songs@[i].target@.1 == u@) ==> start == 0),
            _ => a matches SearchAction::Play(t) && t == it.target,
        },
    }
}

/// What a key press does while the query is being typed, from state `s0` to `s1`, asking for `a`.
pub open spec fn input_key_ok(s0: SearchState, s1: SearchState, key: Key, a: SearchAction) -> bool {
    match key.code {
        KeyCode::Esc => a is Close && s1 == s0,
        KeyCode::Enter => s1 == s0 && if trim_spec(s0.query@).len() > 0 {
            a matches SearchAction::Search(q) && q == s0.query
        } else {
            a is Nothing
        },
        KeyCode::Backspace => a is Nothing && s1.query@ == (if s0.query@.len() > 0 {
            s0.query@.drop_last()
        } else {
            s0.query@
        }) && s1.phase == s0.phase && s1.results == s0.results,
        KeyCode::Char(c) => a is Nothing && if key.ctrl {
            s1 == s0
        } else {
            s1.query@ == s0.query@.push(c) && s1.phase == s0.phase
                && s1.results == s0.results
        },
        _ => a is Nothing && s1 == s0,
    }
}

/// What a key press does on the results, from state `s0` to `s1`, asking for `a`.
pub open spec fn results_key_ok(s0: SearchState, s1: SearchState, key: Key, detail_visible: bool, a: SearchAction) -> bool {
    match key.code {
        KeyCode::Esc => a is Nothing && s1.phase == SearchPhase::Input && no_hits(s1.results)
            && s1.rows@.len() == 0 && s1.query == s0.query,
        KeyCode::Enter => if s0.focus == Focus::Library {
            play_selected_ok(s0.results, selected_item_spec(s0.rows@, s0.selected as int), a)
                && s1 == s0
        } else {
            a is PlayDetail && s1 == s0
        },
        KeyCode::Tab => a is Nothing && s1.focus == focus_after_tab(s0.focus, detail_visible)
            && s1.rows == s0.rows && s1.selected == s0.selected,
        KeyCode::Char(c) => a is Nothing && if c == '[' && !key.ctrl {
            s1.tab == search_tab_at((search_tab_index(s0.tab) + 3) % 4)
                && row_views(s1.rows@) == search_rows_view(s0.results, s1.tab)
                && snapped_selection(s1.rows@, s1.selected)
        } else if c == ']' && !key.ctrl {
            s1.tab == search_tab_at((search_tab_index(s0.tab) + 1) % 4)
                && row_views(s1.rows@) == search_rows_view(s0.results, s1.tab)
                && snapped_selection(s1.rows@, s1.selected)
        } else {
            s1 == s0
        },
        KeyCode::Up => a is Nothing && if s0.focus == Focus::Library {
            s1 == (SearchState { selected: s1.selected, ..s0 }) && (
                prev_selectable_ok(s0.rows@, s0.selected as int, Some(s1.selected))
                || (prev_selectable_ok(s0.rows@, s0.selected as int, None) && s1.selected == s0.selected))
        } else {
            s1 == (SearchState {
                detail: DetailState {
                    selected: if s0.detail.selected > 0 { (s0.detail.selected - 1) as usize } else { 0 },
                    ..s0.detail
                },
                ..s0
            })
        },
        KeyCode::Down => a is Nothing && if s0.focus == Focus::Library {
            s1 == (SearchState { selected: s1.selected, ..s0 }) && (
                next_selectable_ok(s0.rows@, s0.selected as int, Some(s1.selected))
                || (next_selectable_ok(s0.rows@, s0.selected as int, None) && s1.selected == s0.selected))
        } else {
            s1 == (SearchState {
                detail: DetailState {
                    selected: if s0.detail.selected + 1 < s0.detail.rows@.len() {
                        (s0.detail.selected + 1) as usize
                    } else {
                        s0.detail.selected
                    },
                    ..s0.detail
                },
                ..s0
            })
        },
        _ => a is Nothing && s1 == s0,
    }
}

/// What a key press in the search screen does, from state `s0` to `s1`, asking for `a`.
pub open spec fn search_key_ok(s0: SearchState, s1: SearchState, key: Key, detail_visible: bool, a: SearchAction) -> bool {
    match s0.phase {
        SearchPhase::Input => input_key_ok(s0, s1, key, a),
        SearchPhase::Results => results_key_ok(s0, s1, key, detail_visible, a),
    }
}

impl SearchState {
    /// Handle a key press. While typing, characters edit the query, `Enter` searches (a blank
    /// query is ignored) and `Esc` leaves. On the results, `↑`/`↓` move the selection of the
    /// focused pane, `[`/`]` switch the category tab, `tab` moves the focus, `Enter` plays and
    /// `Esc` goes back to editing the query.
    pub fn key_action(&mut self, key: Key, detail_visible: bool) -> (a: SearchAction)
        ensures
            search_key_ok(*old(self), *final(self), key, detail_visible, a),
    {
        match self.phase {
            SearchPhase::Input => self.input_key(key),
            SearchPhase::Results => self.results_key(key, detail_visible),
        }
    }

    fn input_key(&mut self, key: Key) -> (a: SearchAction)
        requires
            old(self).phase == SearchPhase::Input,
        ensures
            input_key_ok(*old(self), *final(self), key, a),
    {
        match key.code {
            KeyCode::Esc => SearchAction::Close,
            KeyCode::Enter => {
                let t = trim(&chars_of(self.query.as_str()));
                if t.len() > 0 {
                    SearchAction::Search(self.query.clone())
                } else {
                    SearchAction::Nothing
                }
            },
            KeyCode::Backspace => {
                let v = chars_of(self.query.as_str());
                if v.len() > 0 {
                    let kept = slice_range(&v, 0, v.len() - 1);
                    assert(kept@ =~= self.query@.drop_last());
                    self.query = string_of(&kept);
                }
                SearchAction::Nothing
            },
            KeyCode::Char(c) => {
                if !key.ctrl {
                    push_char(&mut self.query, c);
                }
                SearchAction::Nothing
            },
            _ => SearchAction::Nothing,
        }
    }

    fn play_selected(&self) -> (a: SearchAction)
        ensures
            play_selected_ok(self.results, selected_item_spec(self.rows@, self.selected as int), a),
    {
        let it = match self.selected_item() {
            Some(it) => it,
            None => return SearchAction::Nothing,
        };
        match &it.target {
            PlayTarget::Track(u) => {
                let uris = self.results.song_uris();
                let start = match self.results.song_index(u.as_str()) {
                    Some(i) => i,
                    None => 0,
                };
                SearchAction::PlaySongs { uris, start }
            },
            _ => SearchAction::Play(it.target.duplicate()),
        }
    }

    fn results_key(&mut self, key: Key, detail_visible: bool) -> (a: SearchAction)
        requires
            old(self).phase == SearchPhase::Results,
        ensures
            results_key_ok(*old(self), *final(self), key, detail_visible, a),
    {
        match key.code {
            KeyCode::Esc => {
                self.back_to_input();
                SearchAction::Nothing
            },
            KeyCode::Enter => {
                if self.focus == Focus::Library {
                    self.play_selected()
                } else {
                    SearchAction::PlayDetail
                }
            },
            KeyCode::Tab => {
                self.focus = self.focus.next(detail_visible);
                SearchAction::Nothing
            },
            KeyCode::Up => {
                if self.focus == Focus::Library {
                    self.select_prev();
                } else {
                    self.detail.select_prev();
                }
                SearchAction::Nothing
            },
            KeyCode::Down => {
                if self.focus == Focus::Library {
                    self.select_next();
                } else {
                    self.detail.select_next();
                }
                SearchAction::Nothing
            },
            KeyCode::Char(c) => {
                if c == '[' && !key.ctrl {
                    let t = self.tab.prev();
                    self.set_tab(t);
                } else if c == ']' && !key.ctrl {
                    let t = self.tab.next();
                    self.set_tab(t);
                }
                SearchAction::Nothing
            },
            _ => SearchAction::Nothing,
        }
    }
}


/// A search with any hit lands the selection on a playable result (the `Top` tab shows the first
/// non-empty category's header followed by its first hit), so the results pane never starts on a
/// header.
pub proof fn lemma_results_land_on_item(r: SearchResults, rows: Seq<LibraryRow>, selected: usize)
    requires
        !no_hits(r),
        row_views(rows) == search_rows_view(r, SearchTab::Top),
        snapped_selection(rows, selected),
        rows.len() <= usize::MAX,
    ensures
        selected_item_spec(rows, selected as int) is Some,
{
    assert(search_rows_view(r, SearchTab::Top).len() >= 2 && search_rows_view(r, SearchTab::Top)[1] is Item) by {
        if r.songs@.len() > 0 {
            assert(top_section("SONGS"@, r.songs@)[1] is Item);
        } else if r.artists@.len() > 0 {
            assert(top_section("SONGS"@, r.songs@) =~= Seq::<RowView>::empty());
            assert(top_section("ARTISTS"@, r.artists@)[1] is Item);
        } else {
            assert(top_section("SONGS"@, r.songs@) =~= Seq::<RowView>::empty());
            assert(top_section("ARTISTS"@, r.artists@) =~= Seq::<RowView>::empty());
            assert(top_section("ALBUMS"@, r.albums@)[1] is Item);
        }
    }
    assert(rows.len() == row_views(rows).len());
    assert(row_views(rows)[1] == rows[1]@);
    assert(selectable_at(rows, 1));
    crate::browse::lemma_snapped_selection_is_an_item(rows, selected);
}


/// The label of a search tab.
pub open spec fn search_tab_label(t: SearchTab) -> Seq<char> {
    match t {
        SearchTab::Top => "Top"@,
        SearchTab::Songs => "Songs"@,
        SearchTab::Artists => "Artists"@,
        SearchTab::Albums => "Albums"@,
    }
}

/// Concatenation of the header cells for search tabs `0..n` (the current one bracketed).
pub open spec fn search_header_upto(current: SearchTab, n: nat) -> Seq<char>
    decreases n,
{
    if n == 0 {
        Seq::empty()
    } else {
        let t = search_tab_at((n - 1) as nat);
        let cell = if t == current { "["@ + search_tab_label(t) + "]"@ } else { " "@ + search_tab_label(t) + " "@ };
        search_header_upto(current, (n - 1) as nat) + cell
    }
}

/// The results pane tab header, e.g. `[Top] Songs  Artists  Albums `, with the current tab
/// bracketed (the same layout as the library header).
pub fn search_tab_header(current: SearchTab) -> (r: String)
    ensures
        r@ == search_header_upto(current, 4),
{
    let mut r = String::new();
    let mut i: usize = 0;
    while i < 4
        invariant
            i <= 4,
            r@ == search_header_upto(current, i as nat),
        decreases 4 - i,
    {
        let t = SearchTab::at(i);
        if t == current {
            push_str(&mut r, "[");
            push_str(&mut r, t.label());
            push_str(&mut r, "]");
        } else {
            push_str(&mut r, " ");
            push_str(&mut r, t.label());
            push_str(&mut r, " ");
        }
        i = i + 1;
    }
    r
}

} // verus!
