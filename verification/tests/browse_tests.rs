use spotterm::browse::{
    build_all, first_selectable, next_selectable, prev_selectable, BrowseCache, BrowseItem,
    BrowseTab, LibraryRow, LibraryState, Loaded, PlayTarget, Section,
};

fn item(title: &str) -> LibraryRow {
    LibraryRow::Item(bi(title))
}

fn header(text: &str) -> LibraryRow {
    LibraryRow::Header(text.to_string())
}

fn bi(title: &str) -> BrowseItem {
    BrowseItem {
        title: title.to_string(),
        subtitle: String::new(),
        target: PlayTarget::Track(format!("spotify:track:{title}")),
    }
}

fn row_titles(rows: &[LibraryRow]) -> Vec<String> {
    rows.iter()
        .map(|r| match r {
            LibraryRow::Header(h) => format!("#{h}"),
            LibraryRow::Item(it) => it.title.clone(),
        })
        .collect()
}

fn section(header: &str, label: &str, items: Result<Vec<BrowseItem>, String>) -> Section {
    Section { header: header.to_string(), label: label.to_string(), items }
}

#[test]
fn tab_next_wraps_in_header_order() {
    assert_eq!(BrowseTab::All.next(), BrowseTab::Artists);
    assert_eq!(BrowseTab::Tracks.next(), BrowseTab::All);
}

#[test]
fn tab_prev_wraps_in_header_order() {
    assert_eq!(BrowseTab::All.prev(), BrowseTab::Tracks);
    assert_eq!(BrowseTab::Artists.prev(), BrowseTab::All);
}

#[test]
fn first_selectable_skips_leading_header() {
    let rows = vec![header("ARTISTS"), item("a"), item("b")];
    assert_eq!(first_selectable(&rows), Some(1));
}

#[test]
fn first_selectable_none_when_all_headers() {
    let rows = vec![header("ARTISTS"), header("ALBUMS")];
    assert_eq!(first_selectable(&rows), None);
}

#[test]
fn next_and_prev_selectable_skip_headers() {
    let rows = vec![header("A"), item("a"), header("B"), item("b")];
    assert_eq!(next_selectable(&rows, 1), Some(3));
    assert_eq!(next_selectable(&rows, 3), None);
    assert_eq!(prev_selectable(&rows, 3), Some(1));
    assert_eq!(prev_selectable(&rows, 1), None);
}

#[test]
fn set_rows_snaps_selection_to_first_item() {
    let mut state = LibraryState::default();
    state.set_rows(vec![header("A"), item("a"), item("b")], None);
    assert_eq!(state.selected, 1);
    assert_eq!(state.selected_item().map(|i| i.title.as_str()), Some("a"));
}

#[test]
fn select_next_and_prev_skip_headers_and_clamp() {
    let mut state = LibraryState::default();
    state.set_rows(vec![header("A"), item("a"), header("B"), item("b")], None);
    assert_eq!(state.selected, 1);
    state.select_next();
    assert_eq!(state.selected, 3);
    state.select_next();
    assert_eq!(state.selected, 3);
    state.select_prev();
    assert_eq!(state.selected, 1);
    state.select_prev();
    assert_eq!(state.selected, 1);
}

#[test]
fn selected_item_none_on_header() {
    let state = LibraryState { rows: vec![header("A"), item("a")], selected: 0, ..LibraryState::default() };
    assert!(state.selected_item().is_none());
}

#[test]
fn build_all_groups_nonempty_sections_under_headers() {
    let loaded = build_all(&[
        section("ARTISTS", "Artists", Ok(vec![bi("Radiohead")])),
        section("ALBUMS", "Albums", Ok(vec![bi("In Rainbows")])),
        section("PLAYLISTS", "Playlists", Ok(vec![])),
        section("TRACKS", "Tracks", Ok(vec![bi("15 Step")])),
    ])
    .unwrap();
    assert_eq!(
        row_titles(&loaded.rows),
        vec!["#ARTISTS", "Radiohead", "#ALBUMS", "In Rainbows", "#TRACKS", "15 Step"],
    );
    assert!(loaded.note.is_none());
}

#[test]
fn build_all_notes_partial_failure_but_keeps_rows() {
    let loaded = build_all(&[
        section("ARTISTS", "Artists", Err("403".to_string())),
        section("ALBUMS", "Albums", Ok(vec![bi("In Rainbows")])),
        section("PLAYLISTS", "Playlists", Ok(vec![])),
        section("TRACKS", "Tracks", Ok(vec![bi("15 Step")])),
    ])
    .unwrap();
    assert_eq!(loaded.note.as_deref(), Some("could not load: Artists"));
    assert!(loaded.rows.iter().any(|r| matches!(r, LibraryRow::Header(h) if h == "ALBUMS")));
}

#[test]
fn build_all_hard_errors_only_when_everything_fails() {
    let err = build_all(&[
        section("ARTISTS", "Artists", Err("x".to_string())),
        section("ALBUMS", "Albums", Err("x".to_string())),
        section("PLAYLISTS", "Playlists", Err("x".to_string())),
        section("TRACKS", "Tracks", Err("x".to_string())),
    ]);
    assert!(err.is_err());
}

#[test]
fn build_all_empty_with_no_errors_is_ok_and_noteless() {
    let loaded = build_all(&[
        section("ARTISTS", "Artists", Ok(vec![])),
        section("ALBUMS", "Albums", Ok(vec![])),
        section("PLAYLISTS", "Playlists", Ok(vec![])),
        section("TRACKS", "Tracks", Ok(vec![])),
    ])
    .unwrap();
    assert!(loaded.rows.is_empty());
    assert!(loaded.note.is_none());
}

#[test]
fn build_all_hard_error_names_every_failed_category() {
    let err = build_all(&[
        section("ARTISTS", "Artists", Err("x".to_string())),
        section("TRACKS", "Tracks", Err("y".to_string())),
    ]);
    assert_eq!(err.err().as_deref(), Some("failed to load the library (Artists, Tracks)"));
}

#[test]
fn cache_read_gives_back_the_last_write_and_spares_other_tabs() {
    let mut cache = BrowseCache::new();
    assert!(cache.get(BrowseTab::Albums).is_none());
    cache.set(BrowseTab::Albums, Loaded { rows: vec![item("x")], note: Some("n".to_string()) });
    cache.set(BrowseTab::Tracks, Loaded { rows: vec![], note: None });
    let got = cache.get(BrowseTab::Albums).expect("cached");
    assert_eq!(row_titles(&got.rows), vec!["x"]);
    assert_eq!(got.note.as_deref(), Some("n"));
    cache.clear(BrowseTab::Albums);
    assert!(cache.get(BrowseTab::Albums).is_none());
    assert!(cache.get(BrowseTab::Tracks).is_some());
}

#[test]
fn tab_label_and_index_follow_header_order() {
    let labels: Vec<&str> = BrowseTab::ALL.iter().map(|t| t.label()).collect();
    assert_eq!(labels, vec!["All", "Artists", "Albums", "Playlists", "Tracks"]);
    for (i, t) in BrowseTab::ALL.iter().enumerate() {
        assert_eq!(t.index(), i);
        assert_eq!(t.next().prev(), *t);
    }
}

#[test]
fn playlist_item_subtitle_counts_tracks() {
    let it = spotterm::browse::playlist_item("Mix".to_string(), 42, "spotify:playlist:p".to_string());
    assert_eq!(it.subtitle, "42 tracks");
    assert_eq!(it.target.uri(), "spotify:playlist:p");
}
