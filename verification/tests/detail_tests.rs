use spotterm::detail::{
    album_detail, list_detail, lone_track_detail, truncated_total, AlbumTrack, DetailData,
    DetailRow, DetailState, ListTrack,
};

fn row(title: &str) -> DetailRow {
    DetailRow {
        track_no: Some(1),
        title: title.to_string(),
        artists: String::new(),
        duration_ms: 1000,
        uri: format!("spotify:track:{title}"),
    }
}

#[test]
fn set_empty_shows_no_tracks() {
    let mut s = DetailState::default();
    s.set("k".to_string(), DetailData { title: "Album".to_string(), rows: vec![], truncated_total: None });
    assert_eq!(s.message.as_deref(), Some("No tracks"));
    assert_eq!(s.key.as_deref(), Some("k"));
}

#[test]
fn set_truncated_reports_first_of_total() {
    let mut s = DetailState::default();
    s.set(
        "k".to_string(),
        DetailData { title: "Big Playlist".to_string(), rows: vec![row("a"), row("b")], truncated_total: Some(187) },
    );
    let msg = s.message.unwrap();
    assert!(msg.starts_with("first 2 of 187 tracks"), "got: {msg}");
}

#[test]
fn set_full_list_has_no_message() {
    let mut s = DetailState::default();
    s.set("k".to_string(), DetailData { title: "Album".to_string(), rows: vec![row("a")], truncated_total: None });
    assert!(s.message.is_none());
}

#[test]
fn set_error_keeps_key_and_message() {
    let mut s = DetailState::default();
    s.set_error("k".to_string(), "failed: boom".to_string());
    assert_eq!(s.key.as_deref(), Some("k"));
    assert_eq!(s.message.as_deref(), Some("failed: boom"));
    assert!(s.rows.is_empty());
}

#[test]
fn selection_clamps_within_rows() {
    let mut s = DetailState::default();
    s.set("k".to_string(), DetailData { title: "A".to_string(), rows: vec![row("a"), row("b")], truncated_total: None });
    s.select_prev();
    assert_eq!(s.selected, 0);
    s.select_next();
    assert_eq!(s.selected, 1);
    s.select_next();
    assert_eq!(s.selected, 1);
}

#[test]
fn truncated_total_only_when_more_than_fetched() {
    assert_eq!(truncated_total(50, 50), None);
    assert_eq!(truncated_total(51, 50), Some(51));
    assert_eq!(truncated_total(10, 20), None);
}

fn names(v: &[&str]) -> Vec<String> {
    v.iter().map(|s| s.to_string()).collect()
}

#[test]
fn album_detail_keeps_track_numbers_and_skips_tracks_without_uri() {
    let d = album_detail(
        "In Rainbows".to_string(),
        vec![
            AlbumTrack { track_number: 1, name: "15 Step".to_string(), artists: names(&["Radiohead"]), duration_ms: 237_000, uri: Some("spotify:track:a".to_string()) },
            AlbumTrack { track_number: 2, name: "Local".to_string(), artists: names(&[]), duration_ms: -5, uri: None },
            AlbumTrack { track_number: 4, name: "Weird Fishes".to_string(), artists: names(&["Radiohead", "X"]), duration_ms: -1, uri: Some("spotify:track:b".to_string()) },
        ],
        10,
    );
    assert_eq!(d.title, "In Rainbows");
    assert_eq!(d.rows.len(), 2);
    assert_eq!(d.rows[0].track_no, Some(1));
    assert_eq!(d.rows[1].track_no, Some(4));
    assert_eq!(d.rows[1].artists, "Radiohead, X");
    assert_eq!(d.rows[1].duration_ms, 0);
    assert_eq!(d.truncated_total, Some(10));
}

#[test]
fn list_detail_numbers_rows_by_list_position() {
    let d = list_detail(
        "Mix".to_string(),
        vec![
            Some(ListTrack { name: "a".to_string(), artists: names(&[]), duration_ms: 1000, uri: Some("spotify:track:a".to_string()) }),
            None,
            Some(ListTrack { name: "c".to_string(), artists: names(&["C"]), duration_ms: 2000, uri: Some("spotify:track:c".to_string()) }),
        ],
        None,
    );
    assert_eq!(d.rows.len(), 2);
    assert_eq!(d.rows[0].track_no, Some(1));
    assert_eq!(d.rows[1].track_no, Some(3));
    assert_eq!(d.rows[0].artists, "(unknown artist)");
    assert!(d.truncated_total.is_none());
}

#[test]
fn lone_track_detail_shows_the_track_itself() {
    let d = lone_track_detail("Song".to_string(), 7, &names(&["A"]), 60_000, "spotify:track:s".to_string());
    assert_eq!(d.title, "Song");
    assert_eq!(d.rows.len(), 1);
    assert_eq!(d.rows[0].track_no, Some(7));
    assert_eq!(d.rows[0].uri, "spotify:track:s");
}
