use spotterm::json::JsonValue;
use spotterm::playback::{
    queue_from_uris, skip_message, snapshot_from_context, toggle_message, track_id_of,
    volume_message, ArtUpdate, ImageRef, Playable, PlaybackContext, Player, PollFollowUp,
    MAX_POLL_FAILURES,
};
use spotterm::theme;
use spotterm::view::NowPlaying;

fn uri(id: &str) -> String {
    format!("spotify:track:{id}")
}

#[test]
fn queue_from_uris_queues_all_hits_and_offsets_to_selection() {
    let uris = vec![uri("4iV5W9uYEdYUVa79Axb7Rh"), uri("1301WleyT98MSxVHPZCA6M")];
    let (ids, offset) = queue_from_uris(&uris, 1).unwrap();
    assert_eq!(ids.len(), 2);
    assert_eq!(offset, Some(uris[1].clone()));
}

#[test]
fn queue_from_uris_rejects_an_unparseable_uri() {
    let uris = vec![uri("4iV5W9uYEdYUVa79Axb7Rh"), "not-a-uri".to_string()];
    assert!(queue_from_uris(&uris, 0).is_err());
}

#[test]
fn queue_from_uris_without_a_matching_selection_omits_the_offset() {
    let uris = vec![uri("4iV5W9uYEdYUVa79Axb7Rh")];
    let (ids, offset) = queue_from_uris(&uris, 9).unwrap();
    assert_eq!(ids.len(), 1);
    assert_eq!(offset, None);
}

#[test]
fn queue_ids_are_the_bare_track_ids() {
    let uris = vec![uri("4iV5W9uYEdYUVa79Axb7Rh")];
    let (ids, _) = queue_from_uris(&uris, 0).unwrap();
    assert_eq!(ids, vec!["4iV5W9uYEdYUVa79Axb7Rh".to_string()]);
    assert_eq!(track_id_of("spotify:track:1301WleyT98MSxVHPZCA6M").as_deref(), Ok("1301WleyT98MSxVHPZCA6M"));
    assert!(track_id_of("spotify:episode:512ojhOuo1ktJprKbVcKyQ").is_err());
}

fn ctx(item: Option<Playable>) -> PlaybackContext {
    PlaybackContext {
        device: "Desk".to_string(),
        volume_percent: Some(130),
        progress_ms: Some(-20),
        is_playing: true,
        item,
    }
}

#[test]
fn snapshot_maps_a_typed_track() {
    let np = snapshot_from_context(ctx(Some(Playable::Track {
        name: "Song".to_string(),
        artists: vec!["A".to_string(), "B".to_string()],
        album: "Alb".to_string(),
        duration_ms: 200_000,
        uri: Some("spotify:track:x".to_string()),
        images: vec![
            ImageRef { url: "big".to_string(), width: Some(640), height: Some(640) },
            ImageRef { url: "mid".to_string(), width: Some(300), height: None },
        ],
    })));
    assert_eq!(np.title, "Song");
    assert_eq!(np.artists, "A, B");
    assert_eq!(np.album.as_deref(), Some("Alb"));
    assert_eq!(np.volume, Some(100));
    assert_eq!(np.progress_ms, 0);
    assert_eq!(np.duration_ms, 200_000);
    assert_eq!(np.track_uri.as_deref(), Some("spotify:track:x"));
    assert_eq!(np.album_image_url.as_deref(), Some("mid"));
    assert_eq!(np.device, "Desk");
}

#[test]
fn snapshot_maps_episodes_unknown_items_and_nothing() {
    let ep = snapshot_from_context(ctx(Some(Playable::Episode { name: "Ep".to_string(), duration_ms: 5 })));
    assert_eq!(ep.artists, "(podcast)");
    assert_eq!(ep.album, None);
    assert_eq!(ep.track_uri, None);
    let raw = JsonValue::Object(vec![
        ("name".to_string(), JsonValue::Str("Raw".to_string())),
        ("uri".to_string(), JsonValue::Str("spotify:track:r".to_string())),
    ]);
    let unknown = snapshot_from_context(ctx(Some(Playable::Unknown(raw))));
    assert_eq!(unknown.title, "Raw");
    assert_eq!(unknown.artists, "(unknown artist)");
    assert_eq!(unknown.track_uri.as_deref(), Some("spotify:track:r"));
    let none = snapshot_from_context(ctx(None));
    assert_eq!(none.title, "(no track info while playing)");
    assert_eq!(none.album_image_url, None);
}

fn np(uri: Option<&str>, image: Option<&str>) -> NowPlaying {
    NowPlaying {
        is_playing: true,
        title: "T".to_string(),
        artists: "A".to_string(),
        album: None,
        progress_ms: 10_000,
        duration_ms: 20_000,
        device: "D".to_string(),
        volume: Some(98),
        track_uri: uri.map(|u| u.to_string()),
        album_image_url: image.map(|u| u.to_string()),
    }
}

#[test]
fn poll_failures_escalate_then_recovery_clears_the_warning() {
    let mut p = Player::new("Starting…".to_string());
    for i in 1..=MAX_POLL_FAILURES {
        assert_eq!(p.apply_poll(Err("boom".to_string())), PollFollowUp::Nothing);
        assert_eq!(p.poll_failures, i);
    }
    assert!(p.status.contains("auto-refresh stopped (boom)"));
    assert_eq!(p.apply_poll(Ok(Some(np(Some("spotify:track:a"), None)))), PollFollowUp::Refresh);
    assert_eq!(p.poll_failures, 0);
    assert!(p.status.is_empty());
}

#[test]
fn a_track_change_forgets_the_saved_state() {
    let mut p = Player::new(String::new());
    p.apply_poll(Ok(Some(np(Some("spotify:track:a"), None))));
    p.saved = Some(true);
    p.saved_checked = true;
    p.apply_poll(Ok(Some(np(Some("spotify:track:a"), None))));
    assert_eq!(p.saved, Some(true));
    p.apply_poll(Ok(Some(np(Some("spotify:track:b"), None))));
    assert_eq!(p.saved, None);
    assert!(!p.saved_checked);
    assert_eq!(p.apply_poll(Ok(None)), PollFollowUp::DropArt);
    assert!(p.now.is_none());
}

#[test]
fn saved_state_is_queried_once_per_track() {
    let mut p = Player::new(String::new());
    p.apply_poll(Ok(Some(np(Some("spotify:track:4iV5W9uYEdYUVa79Axb7Rh"), None))));
    assert_eq!(p.saved_lookup().as_deref(), Some("4iV5W9uYEdYUVa79Axb7Rh"));
    p.apply_saved(Some(vec![true]));
    assert_eq!(p.saved, Some(true));
    assert_eq!(p.saved_lookup(), None);
}

#[test]
fn art_is_fetched_once_per_url() {
    let mut p = Player::new(String::new());
    p.apply_poll(Ok(Some(np(None, Some("https://i.scdn.co/a")))));
    assert!(matches!(p.art_update(), ArtUpdate::Fetch(u) if u == "https://i.scdn.co/a"));
    assert!(matches!(p.art_update(), ArtUpdate::Keep));
    p.apply_poll(Ok(Some(np(None, None))));
    assert!(matches!(p.art_update(), ArtUpdate::Clear));
}

#[test]
fn controls_clamp_and_report() {
    let mut p = Player::new(String::new());
    assert_eq!(p.volume_target(5), None);
    assert!(p.status.contains("device volume is unavailable"));
    assert_eq!(p.seek_plan(0, 5_000), None);
    p.apply_poll(Ok(Some(np(Some("spotify:track:4iV5W9uYEdYUVa79Axb7Rh"), None))));
    assert_eq!(p.volume_target(5), Some(100));
    assert_eq!(p.volume_target(-100), Some(0));
    assert_eq!(p.seek_plan(3_000, 5_000), Some(18_000));
    assert_eq!(p.seek_plan(0, 50_000), Some(20_000));
    p.seek_done(18_000);
    assert_eq!(p.now.as_ref().map(|n| n.progress_ms), Some(18_000));
    assert_eq!(p.status, format!("{} Seek 0:18", theme::SEEK));
    let (id, want) = p.save_plan().expect("a track to save");
    assert_eq!(id, "4iV5W9uYEdYUVa79Axb7Rh");
    assert!(want);
    p.save_done(want);
    assert_eq!(p.status, format!("{} Saved to your library", theme::HEART));
    assert_eq!(p.save_plan().map(|(_, w)| w), Some(false));
    p.op_failed("seek", "boom", true);
    assert_eq!(p.status, format!("{} seek failed: boom (press d to select and activate a device)", theme::WARN));
    assert_eq!(toggle_message(true), format!("{} Paused", theme::PAUSE));
    assert_eq!(skip_message(false), format!("{} Previous track", theme::PREV));
    assert_eq!(volume_message(55), format!("{} Volume 55%", theme::VOLUME));
}
