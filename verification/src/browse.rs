//! Library pane data model: tabs, rows (section headers and playable items), the per-tab cache,
//! selection that skips headers, and the combined `All` tab builder.

use vstd::prelude::*;

use crate::format::{join_artists, join_artists_spec};
use crate::text::{decimal, join, join_spec, push_decimal, push_str, views};

verus! {

/// Library tab. Order matches the header `[All][Artists][Albums][Playlists][Tracks]`.
#[derive(Debug, Clone, Copy, PartialEq, Eq, Structural)]
pub enum BrowseTab {
    All,
    Artists,
    Albums,
    Playlists,
    Tracks,
}

/// Position of a tab in header order.
pub open spec fn tab_index(t: BrowseTab) -> nat {
    match t {
        BrowseTab::All => 0,
        BrowseTab::Artists => 1,
        BrowseTab::Albums => 2,
        BrowseTab::Playlists => 3,
        BrowseTab::Tracks => 4,
    }
}

/// The tab at position `i` in header order.
pub open spec fn tab_at(i: nat) -> BrowseTab {
    if i == 0 {
        BrowseTab::All
    } else if i == 1 {
        BrowseTab::Artists
    } else if i == 2 {
        BrowseTab::Albums
    } else if i == 3 {
        BrowseTab::Playlists
    } else {
        BrowseTab::Tracks
    }
}

/// The label shown for a tab.
pub open spec fn tab_label(t: BrowseTab) -> Seq<char> {
    match t {
        BrowseTab::All => "All"@,
        BrowseTab::Artists => "Artists"@,
        BrowseTab::Albums => "Albums"@,
        BrowseTab::Playlists => "Playlists"@,
        BrowseTab::Tracks => "Tracks"@,
    }
}

impl BrowseTab {
    /// All tabs in header order (the basis for display and `[`/`]` switching).
    pub const ALL: [BrowseTab; 5] = [
        BrowseTab::All,
        BrowseTab::Artists,
        BrowseTab::Albums,
        BrowseTab::Playlists,
        BrowseTab::Tracks,
    ];

    /// Short label shown in the tab header.
    pub fn label(self) -> (r: &'static str)
        ensures
            r@ == tab_label(self),
    {
        match self {
            BrowseTab::All => "All",
            BrowseTab::Artists => "Artists",
            BrowseTab::Albums => "Albums",
            BrowseTab::Playlists => "Playlists",
            BrowseTab::Tracks => "Tracks",
        }
    }

    /// Position of this tab in [`BrowseTab::ALL`].
    pub fn index(self) -> (i: usize)
        ensures
            i == tab_index(self),
            i < 5,
    {
        match self {
            BrowseTab::All => 0,
            BrowseTab::Artists => 1,
            BrowseTab::Albums => 2,
            BrowseTab::Playlists => 3,
            BrowseTab::Tracks => 4,
        }
    }

    /// The tab at position `i` (`i < 5`).
    fn at(i: usize) -> (t: BrowseTab)
        requires
            i < 5,
        ensures
            t == tab_at(i as nat),
    {
        if i == 0 {
            BrowseTab::All
        } else if i == 1 {
            BrowseTab::Artists
        } else if i == 2 {
            BrowseTab::Albums
        } else if i == 3 {
            BrowseTab::Playlists
        } else {
            BrowseTab::Tracks
        }
    }

    /// The next tab (wraps around), used by `]`.
    pub fn next(self) -> (t: Self)
        ensures
            t == tab_at((tab_index(self) + 1) % 5),
    {
        Self::at((self.index() + 1) % 5)
    }

    /// The previous tab (wraps around), used by `[`.
    pub fn prev(self) -> (t: Self)
        ensures
            t == tab_at((tab_index(self) + 4) % 5),
    {
        Self::at((self.index() + 4) % 5)
    }
}

// ---- items and rows ----------------------------------------------------------

/// How to play an item. Tracks play a single URI; the rest use context playback.
#[derive(Debug)]
pub enum PlayTarget {
    Track(String),
    Playlist(String),
    Album(String),
    Artist(String),
}

/// Which kind of Spotify object a target is.
pub enum TargetKind {
    Track,
    Playlist,
    Album,
    Artist,
}

impl View for PlayTarget {
    type V = (TargetKind, Seq<char>);

    open spec fn view(&self) -> (TargetKind, Seq<char>) {
        match self {
            PlayTarget::Track(u) => (TargetKind::Track, u@),
            PlayTarget::Playlist(u) => (TargetKind::Playlist, u@),
            PlayTarget::Album(u) => (TargetKind::Album, u@),
            PlayTarget::Artist(u) => (TargetKind::Artist, u@),
        }
    }
}

impl PlayTarget {
    /// The Spotify URI backing this target. Used as the detail pane's cache key.
    pub fn uri(&self) -> (r: &str)
        ensures
            r@ == self@.1,
    {
        match self {
            PlayTarget::Track(u) => u.as_str(),
            PlayTarget::Playlist(u) => u.as_str(),
            PlayTarget::Album(u) => u.as_str(),
            PlayTarget::Artist(u) => u.as_str(),
        }
    }

    /// A copy of this target.
    pub fn duplicate(&self) -> (r: PlayTarget)
        ensures
            r == *self,
    {
        match self {
            PlayTarget::Track(u) => PlayTarget::Track(u.clone()),
            PlayTarget::Playlist(u) => PlayTarget::Playlist(u.clone()),
            PlayTarget::Album(u) => PlayTarget::Album(u.clone()),
            PlayTarget::Artist(u) => PlayTarget::Artist(u.clone()),
        }
    }
}

/// One playable entry in the library list.
#[derive(Debug)]
pub struct BrowseItem {
    pub title: String,
    pub subtitle: String,
    pub target: PlayTarget,
}

/// The mathematical value of a [`BrowseItem`].
pub struct ItemView {
    pub title: Seq<char>,
    pub subtitle: Seq<char>,
    pub target: (TargetKind, Seq<char>),
}

impl View for BrowseItem {
    type V = ItemView;

    open spec fn view(&self) -> ItemView {
        ItemView { title: self.title@, subtitle: self.subtitle@, target: self.target@ }
    }
}

impl BrowseItem {
    /// A copy of this item.
    pub fn duplicate(&self) -> (r: BrowseItem)
        ensures
            r == *self,
    {
        BrowseItem { title: self.title.clone(), subtitle: self.subtitle.clone(), target: self.target.duplicate() }
    }
}

/// A playlist entry: the subtitle is its track count.
pub fn playlist_item(name: String, total: u32, uri: String) -> (it: BrowseItem)
    ensures
        it@ == (ItemView {
            title: name@,
            subtitle: decimal(total as nat) + " tracks"@,
            target: (TargetKind::Playlist, uri@),
        }),
{
    let mut subtitle = String::new();
    push_decimal(&mut subtitle, total as u128);
    push_str(&mut subtitle, " tracks");
    BrowseItem { title: name, subtitle, target: PlayTarget::Playlist(uri) }
}

/// A track entry: the subtitle lists its artists.
pub fn track_item(name: String, artists: &[String], uri: String) -> (it: BrowseItem)
    ensures
        it@ == (ItemView {
            title: name@,
            subtitle: join_artists_spec(views(artists@)),
            target: (TargetKind::Track, uri@),
        }),
{
    BrowseItem { title: name, subtitle: join_artists(artists), target: PlayTarget::Track(uri) }
}

/// An album entry: the subtitle lists its artists.
pub fn album_item(name: String, artists: &[String], uri: String) -> (it: BrowseItem)
    ensures
        it@ == (ItemView {
            title: name@,
            subtitle: join_artists_spec(views(artists@)),
            target: (TargetKind::Album, uri@),
        }),
{
    BrowseItem { title: name, subtitle: join_artists(artists), target: PlayTarget::Album(uri) }
}

/// An artist entry (played as a context).
pub fn artist_item(name: String, uri: String) -> (it: BrowseItem)
    ensures
        it@ == (ItemView { title: name@, subtitle: "Artist"@, target: (TargetKind::Artist, uri@) }),
{
    BrowseItem { title: name, subtitle: String::from_str("Artist"), target: PlayTarget::Artist(uri) }
}

/// A row in the library list. Only `Item` rows are selectable/playable; `Header` rows label a
/// section and are skipped during selection.
#[derive(Debug)]
pub enum LibraryRow {
    Header(String),
    Item(BrowseItem),
}

/// The mathematical value of a [`LibraryRow`].
pub enum RowView {
    Header(Seq<char>),
    Item(ItemView),
}

impl View for LibraryRow {
    type V = RowView;

    open spec fn view(&self) -> RowView {
        match self {
            LibraryRow::Header(h) => RowView::Header(h@),
            LibraryRow::Item(it) => RowView::Item(it@),
        }
    }
}

/// The views of a list of rows.
pub open spec fn row_views(rows: Seq<LibraryRow>) -> Seq<RowView> {
    rows.map_values(|r: LibraryRow| r@)
}

impl LibraryRow {
    /// Whether the row can be selected and played.
    pub fn is_selectable(&self) -> (b: bool)
        ensures
            b == (self is Item),
    {
        match self {
            LibraryRow::Item(_) => true,
            LibraryRow::Header(_) => false,
        }
    }

    /// A copy of this row.
    pub fn duplicate(&self) -> (r: LibraryRow)
        ensures
            r == *self,
    {
        match self {
            LibraryRow::Header(h) => LibraryRow::Header(h.clone()),
            LibraryRow::Item(it) => LibraryRow::Item(it.duplicate()),
        }
    }
}

// ---- selection ----------------------------------------------------------------

/// Whether row `i` exists and is selectable.
pub open spec fn selectable_at(rows: Seq<LibraryRow>, i: int) -> bool {
    0 <= i < rows.len() && rows[i] is Item
}

/// What `first_selectable` returns.
pub open spec fn first_selectable_ok(rows: Seq<LibraryRow>, r: Option<usize>) -> bool {
    match r {
        Some(i) => selectable_at(rows, i as int) && forall|j: int| 0 <= j < i ==> !selectable_at(rows, j),
        None => forall|j: int| !selectable_at(rows, j),
    }
}

/// Index of the first selectable row, if any.
pub fn first_selectable(rows: &[LibraryRow]) -> (r: Option<usize>)
    ensures
        first_selectable_ok(rows@, r),
{
    let mut i: usize = 0;
    while i < rows.len()
        invariant
            i <= rows.len(),
            forall|j: int| 0 <= j < i ==> !selectable_at(rows@, j),
        decreases rows.len() - i,
    {
        if rows[i].is_selectable() {
            return Some(i);
        }
        i = i + 1;
    }
    None
}

/// What `next_selectable(rows, from)` returns: the first selectable row strictly after `from`.
pub open spec fn next_selectable_ok(rows: Seq<LibraryRow>, from: int, r: Option<usize>) -> bool {
    match r {
        Some(i) => from < i && selectable_at(rows, i as int)
            && forall|j: int| from < j < i ==> !selectable_at(rows, j),
        None => forall|j: int| from < j ==> !selectable_at(rows, j),
    }
}

/// Index of the first selectable row strictly after `from`, if any.
pub fn next_selectable(rows: &[LibraryRow], from: usize) -> (r: Option<usize>)
    ensures
        next_selectable_ok(rows@, from as int, r),
{
    if from >= rows.len() {
        return None;
    }
    let mut i: usize = from + 1;
    while i < rows.len()
        invariant
            from < i <= rows.len(),
            forall|j: int| from < j < i ==> !selectable_at(rows@, j),
        decreases rows.len() - i,
    {
        if rows[i].is_selectable() {
            return Some(i);
        }
        i = i + 1;
    }
    None
}

/// What `prev_selectable(rows, from)` returns: the last selectable row strictly before `from`.
pub open spec fn prev_selectable_ok(rows: Seq<LibraryRow>, from: int, r: Option<usize>) -> bool {
    match r {
        Some(i) => i < from && selectable_at(rows, i as int)
            && forall|j: int| i < j < from ==> !selectable_at(rows, j),
        None => forall|j: int| j < from ==> !selectable_at(rows, j),
    }
}

/// Index of the last selectable row strictly before `from`, if any.
pub fn prev_selectable(rows: &[LibraryRow], from: usize) -> (r: Option<usize>)
    ensures
        prev_selectable_ok(rows@, from as int, r),
{
    let mut i: usize = if from < rows.len() { from } else { rows.len() };
    while i > 0
        invariant
            i <= rows.len(),
            i <= from,
            forall|j: int| i <= j < from ==> !selectable_at(rows@, j),
        decreases i,
    {
        if rows[i - 1].is_selectable() {
            return Some(i - 1);
        }
        i = i - 1;
    }
    None
}

// ---- loaded tabs and the cache ----------------------------------------------

/// The result of loading a tab: the rows plus an optional non-fatal note (e.g. the `All` tab
/// loaded but one category failed).
#[derive(Debug)]
pub struct Loaded {
    pub rows: Vec<LibraryRow>,
    pub note: Option<String>,
}

/// Wrap a flat item list as selectable rows with no header and no note.
pub fn items_only(items: Vec<BrowseItem>) -> (l: Loaded)
    ensures
        l.note is None,
        l.rows@.len() == items@.len(),
        forall|i: int| 0 <= i < items@.len() ==> #[trigger] l.rows@[i] == LibraryRow::Item(items@[i]),
{
    let mut rows: Vec<LibraryRow> = Vec::new();
    let mut i: usize = 0;
    while i < items.len()
        invariant
            i <= items@.len(),
            rows@.len() == i,
            forall|k: int| 0 <= k < i ==> #[trigger] rows@[k] == LibraryRow::Item(items@[k]),
        decreases items.len() - i,
    {
        rows.push(LibraryRow::Item(items[i].duplicate()));
        i = i + 1;
    }
    Loaded { rows, note: None }
}

/// Per-tab fetch results within the session. Switching tabs does not re-fetch; only an explicit
/// reload discards and re-fetches. An empty list is a valid cache (it still means "already fetched").
#[derive(Debug)]
pub struct BrowseCache {
    all: Option<Loaded>,
    artists: Option<Loaded>,
    albums: Option<Loaded>,
    playlists: Option<Loaded>,
    tracks: Option<Loaded>,
}

impl BrowseCache {
    /// The cached load for `tab`, if any.
    pub closed spec fn slot(&self, tab: BrowseTab) -> Option<Loaded> {
        match tab {
            BrowseTab::All => self.all,
            BrowseTab::Artists => self.artists,
            BrowseTab::Albums => self.albums,
            BrowseTab::Playlists => self.playlists,
            BrowseTab::Tracks => self.tracks,
        }
    }

    /// An empty cache.
    pub fn new() -> (c: BrowseCache)
        ensures
            forall|t: BrowseTab| c.slot(t) is None,
    {
        BrowseCache { all: None, artists: None, albums: None, playlists: None, tracks: None }
    }

    /// Return the cached load (rows + note) if present.
    pub fn get(&self, tab: BrowseTab) -> (r: Option<&Loaded>)
        ensures
            match r {
                Some(l) => self.slot(tab) == Some(*l),
                None => self.slot(tab) is None,
            },
    {
        match tab {
            BrowseTab::All => self.all.as_ref(),
            BrowseTab::Artists => self.artists.as_ref(),
            BrowseTab::Albums => self.albums.as_ref(),
            BrowseTab::Playlists => self.playlists.as_ref(),
            BrowseTab::Tracks => self.tracks.as_ref(),
        }
    }

    /// Store the load for `tab`.
    pub fn set(&mut self, tab: BrowseTab, loaded: Loaded)
        ensures
            final(self).slot(tab) == Some(loaded),
            forall|t: BrowseTab| t != tab ==> final(self).slot(t) == old(self).slot(t),
    {
        match tab {
            BrowseTab::All => self.all = Some(loaded),
            BrowseTab::Artists => self.artists = Some(loaded),
            BrowseTab::Albums => self.albums = Some(loaded),
            BrowseTab::Playlists => self.playlists = Some(loaded),
            BrowseTab::Tracks => self.tracks = Some(loaded),
        }
    }

    /// Discard the cache for the given tab (forces the next fetch).
    pub fn clear(&mut self, tab: BrowseTab)
        ensures
            final(self).slot(tab) is None,
            forall|t: BrowseTab| t != tab ==> final(self).slot(t) == old(self).slot(t),
    {
        match tab {
            BrowseTab::All => self.all = None,
            BrowseTab::Artists => self.artists = None,
            BrowseTab::Albums => self.albums = None,
            BrowseTab::Playlists => self.playlists = None,
            BrowseTab::Tracks => self.tracks = None,
        }
    }
}

/// A read gives back what the last write to that tab stored; writes to other tabs leave it alone.
pub proof fn lemma_cache_read_after_write(c0: BrowseCache, c1: BrowseCache, tab: BrowseTab, other: BrowseTab, loaded: Loaded)
    requires
        c1.slot(tab) == Some(loaded),
        forall|t: BrowseTab| t != tab ==> c1.slot(t) == c0.slot(t),
    ensures
        c1.slot(tab) == Some(loaded),
        other != tab ==> c1.slot(other) == c0.slot(other),
{
}

// ---- the library pane -------------------------------------------------------

/// State of the always-visible library pane.
#[derive(Debug)]
pub struct LibraryState {
    pub tab: BrowseTab,
    pub rows: Vec<LibraryRow>,
    pub selected: usize,
    pub message: Option<String>,
}

impl Default for LibraryState {
    /// Starts empty on the `All` tab with a loading note so the first frame is never silently blank.
    fn default() -> (s: Self)
        ensures
            s.tab == BrowseTab::All,
            s.rows@.len() == 0,
            s.selected == 0,
            s.message matches Some(m) && m@ == "Loading…"@,
    {
        LibraryState { tab: BrowseTab::All, rows: Vec::new(), selected: 0, message: Some(String::from_str("Loading…")) }
    }
}

/// The row a selection index denotes, when it is a playable item.
pub open spec fn selected_item_spec(rows: Seq<LibraryRow>, selected: int) -> Option<BrowseItem> {
    if 0 <= selected < rows.len() {
        match rows[selected] {
            LibraryRow::Item(it) => Some(it),
            LibraryRow::Header(_) => None,
        }
    } else {
        None
    }
}

/// The selection `set_rows` snaps to.
pub open spec fn snapped(rows: Seq<LibraryRow>, sel: usize) -> bool {
    (exists|j: int| selectable_at(rows, j)) ==> first_selectable_ok(rows, Some(sel))
        && ((forall|j: int| !selectable_at(rows, j)) ==> sel == 0)
}

/// The item at `selected`, if it is an item row.
pub fn item_at(rows: &[LibraryRow], selected: usize) -> (r: Option<&BrowseItem>)
    ensures
        match r {
            Some(it) => selected_item_spec(rows@, selected as int) == Some(*it),
            None => selected_item_spec(rows@, selected as int) is None,
        },
{
    if selected < rows.len() {
        match &rows[selected] {
            LibraryRow::Item(it) => Some(it),
            LibraryRow::Header(_) => None,
        }
    } else {
        None
    }
}

impl LibraryState {
    /// Replace the rows, snap the selection to the first selectable row, and set the message.
    pub fn set_rows(&mut self, rows: Vec<LibraryRow>, message: Option<String>)
        ensures
            final(self).rows == rows,
            final(self).message == message,
            final(self).tab == old(self).tab,
            match first_selectable_spec(rows@) {
                Some(i) => final(self).selected == i,
                None => final(self).selected == 0,
            },
    {
        let first = first_selectable(&rows);
        proof { lemma_first_selectable_unique(rows@, first); }
        self.selected = match first {
            Some(i) => i,
            None => 0,
        };
        self.rows = rows;
        self.message = message;
    }

    /// The currently selected item (`None` when the selection is on a header or the list is empty).
    pub fn selected_item(&self) -> (r: Option<&BrowseItem>)
        ensures
            match r {
                Some(it) => selected_item_spec(self.rows@, self.selected as int) == Some(*it),
                None => selected_item_spec(self.rows@, self.selected as int) is None,
            },
    {
        item_at(&self.rows, self.selected)
    }

    /// Move the selection to the next selectable row (stays put if there is none below).
    pub fn select_next(&mut self)
        ensures
            final(self).rows == old(self).rows,
            final(self).tab == old(self).tab,
            final(self).message == old(self).message,
            next_selectable_ok(old(self).rows@, old(self).selected as int, Some(final(self).selected))
                || (next_selectable_ok(old(self).rows@, old(self).selected as int, None)
                    && final(self).selected == old(self).selected),
    {
        match next_selectable(&self.rows, self.selected) {
            Some(i) => self.selected = i,
            None => {},
        }
    }

    /// Move the selection to the previous selectable row (stays put if there is none above).
    pub fn select_prev(&mut self)
        ensures
            final(self).rows == old(self).rows,
            final(self).tab == old(self).tab,
            final(self).message == old(self).message,
            prev_selectable_ok(old(self).rows@, old(self).selected as int, Some(final(self).selected))
                || (prev_selectable_ok(old(self).rows@, old(self).selected as int, None)
                    && final(self).selected == old(self).selected),
    {
        match prev_selectable(&self.rows, self.selected) {
            Some(i) => self.selected = i,
            None => {},
        }
    }
}

// ---- the combined `All` tab -------------------------------------------------

/// One category of the combined `All` tab: the uppercase row header, the human label used in a
/// failure note, and the fetch outcome for that category (the error message on failure).
pub struct Section {
    pub header: String,
    pub label: String,
    pub items: Result<Vec<BrowseItem>, String>,
}

/// Item rows for a list of items.
pub open spec fn item_rows(items: Seq<BrowseItem>) -> Seq<LibraryRow> {
    items.map_values(|it: BrowseItem| LibraryRow::Item(it))
}

/// The rows of the `All` tab built from `secs`: each non-empty category under its header.
pub open spec fn all_rows(secs: Seq<Section>) -> Seq<LibraryRow>
    decreases secs.len(),
{
    if secs.len() == 0 {
        Seq::empty()
    } else {
        let prev = all_rows(secs.drop_last());
        let last = secs.last();
        match last.items {
            Ok(items) => if items@.len() > 0 {
                prev.push(LibraryRow::Header(last.header)) + item_rows(items@)
            } else {
                prev
            },
            Err(_) => prev,
        }
    }
}

/// The items among `rows`, in order (headers left out).
pub open spec fn row_items(rows: Seq<LibraryRow>) -> Seq<BrowseItem>
    decreases rows.len(),
{
    if rows.len() == 0 {
        Seq::empty()
    } else {
        match rows.last() {
            LibraryRow::Item(it) => row_items(rows.drop_last()).push(it),
            LibraryRow::Header(_) => row_items(rows.drop_last()),
        }
    }
}

/// The headers among `rows`, in order.
pub open spec fn row_headers(rows: Seq<LibraryRow>) -> Seq<String>
    decreases rows.len(),
{
    if rows.len() == 0 {
        Seq::empty()
    } else {
        match rows.last() {
            LibraryRow::Header(h) => row_headers(rows.drop_last()).push(h),
            LibraryRow::Item(_) => row_headers(rows.drop_last()),
        }
    }
}

/// Every item of the categories that loaded, category after category, in order.
pub open spec fn loaded_items(secs: Seq<Section>) -> Seq<BrowseItem>
    decreases secs.len(),
{
    if secs.len() == 0 {
        Seq::empty()
    } else {
        match secs.last().items {
            Ok(items) => loaded_items(secs.drop_last()) + items@,
            Err(_) => loaded_items(secs.drop_last()),
        }
    }
}

/// The headers of the categories that loaded with at least one item, in order.
pub open spec fn loaded_headers(secs: Seq<Section>) -> Seq<String>
    decreases secs.len(),
{
    if secs.len() == 0 {
        Seq::empty()
    } else {
        match secs.last().items {
            Ok(items) => if items@.len() > 0 {
                loaded_headers(secs.drop_last()).push(secs.last().header)
            } else {
                loaded_headers(secs.drop_last())
            },
            Err(_) => loaded_headers(secs.drop_last()),
        }
    }
}

proof fn lemma_row_items_concat(a: Seq<LibraryRow>, b: Seq<LibraryRow>)
    ensures
        row_items(a + b) == row_items(a) + row_items(b),
        row_headers(a + b) == row_headers(a) + row_headers(b),
    decreases b.len(),
{
    if b.len() == 0 {
        assert(a + b =~= a);
        assert(row_items(a) + row_items(b) =~= row_items(a));
        assert(row_headers(a) + row_headers(b) =~= row_headers(a));
    } else {
        lemma_row_items_concat(a, b.drop_last());
        assert((a + b).drop_last() =~= a + b.drop_last());
        assert((a + b).last() == b.last());
        match b.last() {
            LibraryRow::Item(it) => {
                assert(row_items(a) + row_items(b) =~= (row_items(a) + row_items(b.drop_last())).push(it));
                assert(row_headers(a) + row_headers(b) =~= row_headers(a) + row_headers(b.drop_last()));
            },
            LibraryRow::Header(h) => {
                assert(row_items(a) + row_items(b) =~= row_items(a) + row_items(b.drop_last()));
                assert(row_headers(a) + row_headers(b) =~= (row_headers(a) + row_headers(b.drop_last())).push(h));
            },
        }
    }
}

proof fn lemma_item_rows_items(items: Seq<BrowseItem>)
    ensures
        row_items(item_rows(items)) == items,
        row_headers(item_rows(items)) == Seq::<String>::empty(),
    decreases items.len(),
{
    if items.len() > 0 {
        lemma_item_rows_items(items.drop_last());
        assert(item_rows(items).drop_last() =~= item_rows(items.drop_last()));
        assert(item_rows(items).last() == LibraryRow::Item(items.last()));
        assert(items.drop_last().push(items.last()) =~= items);
    } else {
        assert(item_rows(items) =~= Seq::<LibraryRow>::empty());
    }
}

/// The `All` rows keep every item of every category that loaded, in category order and in each
/// category's own order, and show one header per non-empty loaded category: nothing is dropped,
/// reordered or added.
pub proof fn lemma_all_rows_keep_every_item(secs: Seq<Section>)
    ensures
        row_items(all_rows(secs)) == loaded_items(secs),
        row_headers(all_rows(secs)) == loaded_headers(secs),
        row_items(all_rows(secs)).len() == loaded_items(secs).len(),
    decreases secs.len(),
{
    if secs.len() > 0 {
        let p = secs.drop_last();
        lemma_all_rows_keep_every_item(p);
        let prev = all_rows(p);
        match secs.last().items {
            Ok(items) => {
                if items@.len() > 0 {
                    let hdr = prev.push(LibraryRow::Header(secs.last().header));
                    lemma_row_items_concat(hdr, item_rows(items@));
                    lemma_item_rows_items(items@);
                    assert(hdr.drop_last() =~= prev);
                    assert(row_items(hdr) == row_items(prev));
                    assert(row_headers(hdr) == row_headers(prev).push(secs.last().header));
                    assert(row_items(hdr) + items@ =~= loaded_items(p) + items@);
                    assert(row_headers(hdr) + Seq::<String>::empty() =~= row_headers(hdr));
                } else {
                    assert(loaded_items(p) + items@ =~= loaded_items(p));
                }
            },
            Err(_) => {},
        }
    }
}

/// The labels of the categories that failed, in order.
pub open spec fn failed_labels(secs: Seq<Section>) -> Seq<String>
    decreases secs.len(),
{
    if secs.len() == 0 {
        Seq::empty()
    } else {
        let prev = failed_labels(secs.drop_last());
        match secs.last().items {
            Ok(_) => prev,
            Err(_) => prev.push(secs.last().label),
        }
    }
}

/// What `build_all(secs)` returns.
pub open spec fn build_all_ok(secs: Seq<Section>, r: Result<Loaded, String>) -> bool {
    let rows = all_rows(secs);
    let failed = failed_labels(secs);
    let joined = join_spec(views(failed), ", "@);
    if rows.len() == 0 && failed.len() > 0 {
        r matches Err(e) && e@ == "failed to load the library ("@ + joined + ")"@
    } else {
        r matches Ok(l) && l.rows@ == rows && (if failed.len() == 0 {
            l.note is None
        } else {
            l.note matches Some(n) && n@ == "could not load: "@ + joined
        })
    }
}

/// Fold fetched sections into the `All` rows: each non-empty category under its header, failures
/// collected into a note. If every category errored (nothing loaded and at least one failure) it
/// is a hard error.
pub fn build_all(sections: &[Section]) -> (r: Result<Loaded, String>)
    ensures
        build_all_ok(sections@, r),
{
    let mut rows: Vec<LibraryRow> = Vec::new();
    let mut failed: Vec<String> = Vec::new();
    let mut i: usize = 0;
    while i < sections.len()
        invariant
            i <= sections@.len(),
            rows@ == all_rows(sections@.take(i as int)),
            failed@ == failed_labels(sections@.take(i as int)),
        decreases sections.len() - i,
    {
        let sec = &sections[i];
        assert(sections@.take(i + 1).drop_last() =~= sections@.take(i as int));
        assert(sections@.take(i + 1).last() == sections@[i as int]);
        match &sec.items {
            Ok(items) => {
                if items.len() > 0 {
                    rows.push(LibraryRow::Header(sec.header.clone()));
                    let ghost base = rows@;
                    let mut j: usize = 0;
                    while j < items.len()
                        invariant
                            j <= items@.len(),
                            rows@ == base + item_rows(items@.take(j as int)),
                        decreases items.len() - j,
                    {
                        rows.push(LibraryRow::Item(items[j].duplicate()));
                        assert(item_rows(items@.take(j + 1)) =~= item_rows(items@.take(j as int)).push(LibraryRow::Item(items@[j as int])));
                        j = j + 1;
                    }
                    assert(items@.take(items@.len() as int) =~= items@);
                }
            },
            Err(_) => {
                failed.push(sec.label.clone());
            },
        }
        i = i + 1;
    }
    assert(sections@.take(sections@.len() as int) =~= sections@);
    if rows.len() == 0 && failed.len() > 0 {
        let mut e = String::from_str("failed to load the library (");
        let j = join(&failed, ", ");
        push_str(&mut e, j.as_str());
        push_str(&mut e, ")");
        return Err(e);
    }
    let note = if failed.len() > 0 {
        let mut n = String::from_str("could not load: ");
        let j = join(&failed, ", ");
        push_str(&mut n, j.as_str());
        Some(n)
    } else {
        None
    };
    Ok(Loaded { rows, note })
}

/// The index of the first selectable row, as a function of the rows.
pub open spec fn first_selectable_spec(rows: Seq<LibraryRow>) -> Option<usize> {
    if exists|j: int| selectable_at(rows, j) {
        Some(choose|i: usize| selectable_at(rows, i as int) && forall|j: int| 0 <= j < i ==> !selectable_at(rows, j))
    } else {
        None
    }
}

/// `first_selectable` computes exactly `first_selectable_spec`.
pub proof fn lemma_first_selectable_unique(rows: Seq<LibraryRow>, r: Option<usize>)
    requires
        first_selectable_ok(rows, r),
    ensures
        r == first_selectable_spec(rows),
{
    match r {
        Some(i) => {
            assert(selectable_at(rows, i as int));
            let c = choose|c: usize| selectable_at(rows, c as int) && forall|j: int| 0 <= j < c ==> !selectable_at(rows, j);
            assert(selectable_at(rows, c as int) && forall|j: int| 0 <= j < c ==> !selectable_at(rows, j));
            if c < i {
                assert(!selectable_at(rows, c as int));
            }
            if i < c {
                assert(!selectable_at(rows, i as int));
            }
        },
        None => {},
    }
}


/// Switching to the next tab and back (or back and then forward) returns to the starting tab.
pub proof fn lemma_tab_cycle(t: BrowseTab)
    ensures
        tab_at((tab_index(tab_at((tab_index(t) + 1) % 5)) + 4) % 5) == t,
        tab_at((tab_index(tab_at((tab_index(t) + 4) % 5)) + 1) % 5) == t,
{
}

/// After the rows are replaced, the selection sits on a playable item whenever the list has one.
pub proof fn lemma_snapped_selection_is_an_item(rows: Seq<LibraryRow>, selected: usize)
    requires
        match first_selectable_spec(rows) {
            Some(i) => selected == i,
            None => selected == 0,
        },
        exists|j: int| selectable_at(rows, j),
        rows.len() <= usize::MAX,
    ensures
        selected_item_spec(rows, selected as int) is Some,
{
    let j = choose|j: int| selectable_at(rows, j);
    assert(exists|i: usize| selectable_at(rows, i as int) && forall|k: int| 0 <= k < i ==> !selectable_at(rows, k)) by {
        lemma_first_item_exists(rows, j);
    }
}

proof fn lemma_first_item_exists(rows: Seq<LibraryRow>, j: int)
    requires
        selectable_at(rows, j),
        rows.len() <= usize::MAX,
    ensures
        exists|i: usize| selectable_at(rows, i as int) && forall|k: int| 0 <= k < i ==> !selectable_at(rows, k),
    decreases j,
{
    if exists|k: int| 0 <= k < j && selectable_at(rows, k) {
        let k = choose|k: int| 0 <= k < j && selectable_at(rows, k);
        lemma_first_item_exists(rows, k);
    } else {
        assert(selectable_at(rows, (j as usize) as int));
    }
}

/// Moving the selection up or down never leaves a playable item: it moves to another item or
/// stays where it is.
pub proof fn lemma_moves_stay_on_items(rows: Seq<LibraryRow>, from: usize, to: usize)
    requires
        selectable_at(rows, from as int),
        next_selectable_ok(rows, from as int, Some(to))
            || (next_selectable_ok(rows, from as int, None) && to == from)
            || prev_selectable_ok(rows, from as int, Some(to))
            || (prev_selectable_ok(rows, from as int, None) && to == from),
    ensures
        selectable_at(rows, to as int),
        selected_item_spec(rows, to as int) is Some,
{
}

} // verus!
