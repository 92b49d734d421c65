use spotterm::browse::{BrowseItem, LibraryRow, PlayTarget};
use spotterm::keys::{Key, KeyCode};
use spotterm::search::{
    album_items, artist_items, track_items, AlbumHit, ArtistHit, SearchAction, SearchHits,
    SearchPhase, SearchResults, SearchState, SearchTab, TrackHit,
};
use spotterm::view::Focus;

fn item(title: &str, target: PlayTarget) -> BrowseItem {
    BrowseItem { title: title.to_string(), subtitle: String::new(), target }
}

fn track(title: &str) -> BrowseItem {
    item(title, PlayTarget::Track(format!("spotify:track:{title}")))
}

fn artist(title: &str) -> BrowseItem {
    item(title, PlayTarget::Artist(format!("spotify:artist:{title}")))
}

fn album(title: &str) -> BrowseItem {
    item(title, PlayTarget::Album(format!("spotify:album:{title}")))
}

fn row_labels(rows: &[LibraryRow]) -> Vec<String> {
    rows.iter()
        .map(|r| match r {
            LibraryRow::Header(h) => format!("#{h}"),
            LibraryRow::Item(it) => it.title.clone(),
        })
        .collect()
}

fn sample() -> SearchResults {
    SearchResults {
        songs: vec![track("s1"), track("s2"), track("s3"), track("s4")],
        artists: vec![artist("a1")],
        albums: vec![album("al1"), album("al2")],
    }
}

fn key(code: KeyCode) -> Key {
    Key::plain(code)
}

#[test]
fn tab_next_and_prev_wrap_in_header_order() {
    assert_eq!(SearchTab::Top.next(), SearchTab::Songs);
    assert_eq!(SearchTab::Albums.next(), SearchTab::Top);
    assert_eq!(SearchTab::Top.prev(), SearchTab::Albums);
    assert_eq!(SearchTab::Songs.prev(), SearchTab::Top);
}

#[test]
fn top_rows_preview_each_nonempty_category_under_headers() {
    let rows = sample().rows(SearchTab::Top);
    assert_eq!(
        row_labels(&rows),
        vec!["#SONGS", "s1", "s2", "s3", "#ARTISTS", "a1", "#ALBUMS", "al1", "al2"]
    );
}

#[test]
fn top_rows_skip_empty_categories() {
    let results = SearchResults { songs: vec![track("s1")], artists: vec![], albums: vec![] };
    assert_eq!(row_labels(&results.rows(SearchTab::Top)), vec!["#SONGS", "s1"]);
}

#[test]
fn dedicated_tab_is_a_flat_item_list() {
    let rows = sample().rows(SearchTab::Songs);
    assert_eq!(row_labels(&rows), vec!["s1", "s2", "s3", "s4"]);
    assert!(rows.iter().all(LibraryRow::is_selectable));
}

#[test]
fn set_results_snaps_selection_past_the_top_header() {
    let mut s = SearchState::new();
    s.set_results("q".to_string(), sample());
    assert_eq!(s.phase, SearchPhase::Results);
    assert_eq!(s.tab, SearchTab::Top);
    assert_eq!(s.selected, 1);
    assert_eq!(s.selected_item().map(|i| i.title.as_str()), Some("s1"));
}

#[test]
fn empty_results_are_messaged_not_silent() {
    let mut s = SearchState::new();
    s.set_results("zzz".to_string(), SearchResults::default());
    assert_eq!(s.message.as_deref(), Some("No results for \"zzz\""));
    assert!(s.selected_item().is_none());
}

#[test]
fn set_tab_rebuilds_rows_and_snaps_selection() {
    let mut s = SearchState::new();
    s.set_results("q".to_string(), sample());
    s.set_tab(SearchTab::Artists);
    assert_eq!(s.selected, 0);
    assert_eq!(s.selected_item().map(|i| i.title.as_str()), Some("a1"));
}

#[test]
fn selection_skips_headers_when_navigating_top() {
    let mut s = SearchState::new();
    s.set_results("q".to_string(), sample());
    s.select_next();
    s.select_next();
    s.select_next();
    assert_eq!(s.selected_item().map(|i| i.title.as_str()), Some("a1"));
}

#[test]
fn song_index_locates_the_selected_track_for_the_play_queue() {
    let r = sample();
    assert_eq!(r.song_uris().len(), 4);
    assert_eq!(r.song_index("spotify:track:s3"), Some(2));
    assert_eq!(r.song_index("spotify:track:missing"), None);
}

#[test]
fn back_to_input_discards_results() {
    let mut s = SearchState::new();
    s.set_results("q".to_string(), sample());
    s.back_to_input();
    assert_eq!(s.phase, SearchPhase::Input);
    assert!(s.rows.is_empty());
    assert!(s.results.is_empty());
}

#[test]
fn typing_edits_the_query_and_enter_searches() {
    let mut s = SearchState::new();
    for c in "daft".chars() {
        assert!(matches!(s.key_action(key(KeyCode::Char(c)), true), SearchAction::Nothing));
    }
    s.key_action(key(KeyCode::Backspace), true);
    assert_eq!(s.query, "daf");
    match s.key_action(key(KeyCode::Enter), true) {
        SearchAction::Search(q) => assert_eq!(q, "daf"),
        other => panic!("expected a search, got {other:?}"),
    }
}

#[test]
fn blank_query_is_ignored_and_esc_leaves() {
    let mut s = SearchState::new();
    s.key_action(key(KeyCode::Char(' ')), true);
    assert!(matches!(s.key_action(key(KeyCode::Enter), true), SearchAction::Nothing));
    assert!(matches!(s.key_action(key(KeyCode::Esc), true), SearchAction::Close));
}

#[test]
fn enter_on_a_song_queues_every_song_from_the_selection() {
    let mut s = SearchState::new();
    s.set_results("q".to_string(), sample());
    s.select_next();
    match s.key_action(key(KeyCode::Enter), true) {
        SearchAction::PlaySongs { uris, start } => {
            assert_eq!(uris.len(), 4);
            assert_eq!(uris[1], "spotify:track:s2");
            assert_eq!(start, 1);
        }
        other => panic!("expected song playback, got {other:?}"),
    }
}

#[test]
fn enter_on_an_album_plays_its_context_and_brackets_switch_tabs() {
    let mut s = SearchState::new();
    s.set_results("q".to_string(), sample());
    s.key_action(key(KeyCode::Char('[')), true);
    assert_eq!(s.tab, SearchTab::Albums);
    match s.key_action(key(KeyCode::Enter), true) {
        SearchAction::Play(PlayTarget::Album(u)) => assert_eq!(u, "spotify:album:al1"),
        other => panic!("expected album playback, got {other:?}"),
    }
    s.key_action(key(KeyCode::Tab), true);
    assert_eq!(s.focus, Focus::Detail);
    assert!(matches!(s.key_action(key(KeyCode::Enter), true), SearchAction::PlayDetail));
    s.key_action(key(KeyCode::Esc), true);
    assert_eq!(s.phase, SearchPhase::Input);
    assert_eq!(s.query, "q");
}

fn names(v: &[&str]) -> Vec<String> {
    v.iter().map(|s| s.to_string()).collect()
}

#[test]
fn hits_map_to_items_and_wrong_kinds_are_errors() {
    let tracks = track_items(SearchHits::Tracks(vec![
        TrackHit { name: "t1".to_string(), artists: names(&["A", "B"]), uri: Some("spotify:track:1".to_string()) },
        TrackHit { name: "local".to_string(), artists: names(&[]), uri: None },
    ]))
    .unwrap();
    assert_eq!(tracks.len(), 1);
    assert_eq!(tracks[0].subtitle, "A, B");
    let artists = artist_items(SearchHits::Artists(vec![ArtistHit { name: "ar".to_string(), uri: "spotify:artist:1".to_string() }])).unwrap();
    assert_eq!(artists[0].subtitle, "Artist");
    let albums = album_items(SearchHits::Albums(vec![AlbumHit { name: "al".to_string(), artists: names(&[]), uri: Some("spotify:album:1".to_string()) }])).unwrap();
    assert_eq!(albums[0].subtitle, "(unknown artist)");
    assert_eq!(track_items(SearchHits::Albums(vec![])).err().as_deref(), Some("unexpected search result (expected tracks)"));
    assert_eq!(artist_items(SearchHits::Tracks(vec![])).err().as_deref(), Some("unexpected search result (expected artists)"));
    assert_eq!(album_items(SearchHits::Artists(vec![])).err().as_deref(), Some("unexpected search result (expected albums)"));
}
