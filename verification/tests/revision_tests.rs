use spotterm::auth::percent_decode;
use spotterm::match_name::{match_name, NameMatch};
use spotterm::auth::SCOPES;
use spotterm::browse::{BrowseItem, BrowseTab, LibraryRow, Loaded, PlayTarget};
use spotterm::config::{CLIENT_ID_VAR, REDIRECT_URI_VAR};
use spotterm::dashboard::{CallError, Dashboard, DetailLoad, Mode, ModeKind, Task, DETAIL_CACHE_MAX};
use spotterm::detail::{DetailCache, DetailData};
use spotterm::devices::DeviceEntry;
use spotterm::keys::{Key, KeyCode};
use spotterm::layout::{dashboard_areas, Rect};
use spotterm::playback::track_id_of;
use spotterm::rate_limit::RateLimitHit;
use spotterm::search::{SearchAction, SearchResults};
use spotterm::theme;
use spotterm::view::{device_row, detail_row, Focus};
use spotterm::format::display_width;

fn item(title: &str) -> BrowseItem {
    BrowseItem { title: title.to_string(), subtitle: String::new(), target: PlayTarget::Track(format!("spotify:track:{title}")) }
}

fn data(title: &str) -> DetailData {
    DetailData { title: title.to_string(), rows: Vec::new(), truncated_total: None }
}

#[test]
fn scopes_include_followed_artists() {
    assert!(SCOPES.contains(&"user-follow-read"));
    assert_eq!(SCOPES.len(), 7);
}

#[test]
fn config_reads_the_documented_variables() {
    assert_eq!(CLIENT_ID_VAR, "SPOTTERM_CLIENT_ID");
    assert_eq!(REDIRECT_URI_VAR, "SPOTTERM_REDIRECT_URI");
}

#[test]
fn a_rate_limit_arms_the_cooldown_and_shows_the_countdown() {
    let mut d = Dashboard::new(0);
    d.note_rate_limit(RateLimitHit { retry_after: Some(10) }, 1_000);
    assert_eq!(d.limiter.until_ms, Some(11_000));
    assert_eq!(d.player.status, format!("{} Rate limited by Spotify — retrying in 10s", theme::WARN));
    let mut d2 = Dashboard::new(0);
    d2.finish(Err(CallError { message: "429".to_string(), rate_limit: Some(RateLimitHit { retry_after: None }) }), String::new(), 0);
    assert_eq!(d2.limiter.until_ms, Some(2_000));
    assert_eq!(d2.player.status, format!("{} Rate limited by Spotify — retrying in 2s", theme::WARN));
}

#[test]
fn a_cooldown_blocks_polls_and_background_loads() {
    let mut d = Dashboard::new(0);
    d.note_rate_limit(RateLimitHit { retry_after: Some(5) }, 0);
    let t = d.tick_start(1_500);
    assert!(t.blocked && !t.poll && !t.poll_queue);
    assert_eq!(d.player.status, format!("{} Rate limited by Spotify — retrying in 3s", theme::WARN));
    assert!(d.library_load_due(t.blocked).is_none());
    assert!(d.library_detail_due(t.blocked).is_none());
    assert!(d.search_detail_due(t.blocked).is_none());
    let t2 = d.tick_start(5_000);
    assert!(!t2.blocked && t2.poll);
    assert_eq!(d.library_load_due(t2.blocked), Some(BrowseTab::All));
}

#[test]
fn details_come_from_the_cache_once_loaded() {
    let mut d = Dashboard::new(0);
    d.library_fetched(BrowseTab::Tracks, Ok(Loaded { rows: vec![LibraryRow::Item(item("a"))], note: None }));
    let load = d.library_detail_due(false).expect("a detail to load");
    assert!(matches!(&load.target, PlayTarget::Track(u) if u == "spotify:track:a"));
    assert!(!load.in_search);
    assert!(!d.detail_from_cache(&load));
    d.detail_fetched(load, Ok(data("A")));
    assert_eq!(d.detail.key.as_deref(), Some("spotify:track:a"));
    assert_eq!(d.detail.title, "A");
    assert!(d.library_detail_due(false).is_none());
    d.detail.clear(None);
    let again = d.library_detail_due(false).expect("a detail to load");
    assert!(d.detail_from_cache(&again));
    assert_eq!(d.detail.title, "A");
    d.forget_detail("spotify:track:a");
    let third = DetailLoad { target: PlayTarget::Track("spotify:track:a".to_string()), title: "a".to_string(), in_search: false };
    assert!(!d.detail_from_cache(&third));
    d.detail_fetched(third, Err("failed".to_string()));
    assert_eq!(d.detail.message.as_deref(), Some("failed"));
}

#[test]
fn the_detail_cache_empties_when_full() {
    let mut c = DetailCache::new();
    for i in 0..DETAIL_CACHE_MAX {
        c.insert(format!("k{i}"), data("x"));
    }
    assert_eq!(c.count(), DETAIL_CACHE_MAX);
    c.insert("k0".to_string(), data("y"));
    assert_eq!(c.count(), 1);
    assert_eq!(c.get("k0").map(|d| d.title), Some("y".to_string()));
    assert!(c.get("k1").is_none());
    c.insert("k0".to_string(), data("z"));
    assert_eq!(c.count(), 1);
    assert_eq!(c.get("k0").map(|d| d.title), Some("z".to_string()));
    c.remove("k0");
    assert_eq!(c.count(), 0);
}

#[test]
fn search_keys_reach_the_search_screen() {
    let mut d = Dashboard::new(0);
    d.handle_key(Key::plain(KeyCode::Char('/')));
    d.handle_key(Key::plain(KeyCode::Char('x')));
    d.handle_key(Key::plain(KeyCode::Enter));
    let results = SearchResults { songs: vec![item("a"), item("b")], artists: vec![], albums: vec![] };
    d.search_done("x".to_string(), Ok(results));
    let sel = |d: &Dashboard| match &d.mode {
        Mode::Search(s) => s.selected,
        _ => panic!("search closed"),
    };
    let first = sel(&d);
    assert!(matches!(d.handle_key(Key::plain(KeyCode::Down)), Task::Search(SearchAction::Nothing)));
    assert_eq!(sel(&d), first + 1);
    d.handle_key(Key::plain(KeyCode::Up));
    assert_eq!(sel(&d), first);
    let load = d.search_detail_due(false).expect("a search detail to load");
    assert!(load.in_search);
    d.detail_fetched(load, Ok(data("S")));
    match &d.mode {
        Mode::Search(s) => {
            assert_eq!(s.detail.title, "S");
            assert_eq!(s.focus, Focus::Library);
        },
        _ => panic!("search closed"),
    }
    assert!(d.detail.key.is_none());
}

fn dev(name: &str, restricted: bool) -> DeviceEntry {
    DeviceEntry { name: name.to_string(), id: Some(name.to_string()), type_label: "Speaker".to_string(), volume: None, is_active: false, is_restricted: restricted }
}

#[test]
fn device_picker_keys_move_the_selection_and_refusals_touch_nothing_else() {
    let mut d = Dashboard::new(0);
    d.devices_fetched(Ok(vec![dev("A", false), dev("TV", true)]));
    let sel = |d: &Dashboard| match &d.mode {
        Mode::Devices(s) => s.selected,
        _ => panic!("picker closed"),
    };
    assert_eq!(sel(&d), 0);
    d.handle_key(Key::plain(KeyCode::Down));
    assert_eq!(sel(&d), 1);
    d.handle_key(Key::plain(KeyCode::Down));
    assert_eq!(sel(&d), 1);
    d.polled(42);
    let status = d.player.status.clone();
    assert!(d.transfer_start().is_none());
    assert_eq!(d.player.status, status);
    assert_eq!(d.last_poll_ms, Some(42));
    match &d.mode {
        Mode::Devices(s) => assert_eq!(s.message.as_deref(), Some("'TV' is restricted and cannot be transferred to")),
        _ => panic!("picker closed"),
    }
    d.handle_key(Key::plain(KeyCode::Up));
    assert_eq!(sel(&d), 0);
    assert_eq!(d.mode.kind(), ModeKind::Devices);
}

#[test]
fn a_failed_search_play_is_reported() {
    let mut d = Dashboard::new(0);
    d.handle_key(Key::plain(KeyCode::Char('/')));
    d.search_played(Err(CallError { message: "no device".to_string(), rate_limit: None }), 0);
    assert_eq!(d.mode.kind(), ModeKind::Search);
    assert_eq!(d.player.status, format!("{} operation failed: no device (press d to select and activate a device)", theme::WARN));
}

#[test]
fn every_region_stays_inside_and_one_column_spans_the_width() {
    for (w, h) in [(100u16, 30u16), (40, 30), (59, 8), (60, 10), (20, 3)] {
        let inner = Rect::new(2, 1, w, h);
        for search in [false, true] {
            let a = dashboard_areas(inner, search);
            let inside = |r: Rect| r.x >= inner.x && r.y >= inner.y && r.right() <= inner.right() && r.bottom() <= inner.bottom();
            for r in [Some(a.now_playing), a.visualizer, a.search_bar, Some(a.library), a.detail, Some(a.status), Some(a.playbar), a.footer].into_iter().flatten() {
                assert!(inside(r), "{r:?} outside {inner:?}");
            }
            if w < 60 {
                assert_eq!((a.now_playing.x, a.now_playing.width), (inner.x, inner.width));
                assert_eq!((a.library.x, a.library.width), (inner.x, inner.width));
            }
        }
    }
}

#[test]
fn track_ids_follow_rspotify() {
    assert_eq!(track_id_of("spotify/track/abc123").as_deref(), Ok("abc123"));
    assert_eq!(track_id_of("spotify:episode:abc"), Err("InvalidType".to_string()));
    assert_eq!(track_id_of("http://x"), Err("InvalidPrefix".to_string()));
    assert_eq!(track_id_of("spotify:track"), Err("InvalidFormat".to_string()));
    assert_eq!(track_id_of("spotify:track:ab-c"), Err("InvalidId".to_string()));
}

#[test]
fn detail_and_device_rows_fit_their_width() {
    let r = detail_row(Some(3), "Song", "Artist", 185_000, false, 40);
    assert!(r.ends_with("3:05"));
    assert_eq!(display_width(&r), 38);
    let narrow = detail_row(Some(3), "Song", "Artist", 185_000, false, 4);
    assert_eq!(display_width(&narrow), 4);
    let dr = device_row("A very long speaker name indeed", "Speaker", Some(50), true, true, 20);
    assert!(display_width(&dr) <= 18);
}

fn png(width: u32, height: u32) -> Vec<u8> {
    let img = image::DynamicImage::ImageRgb8(image::RgbImage::new(width, height));
    let mut out = std::io::Cursor::new(Vec::new());
    img.write_to(&mut out, image::ImageFormat::Png).unwrap();
    out.into_inner()
}

#[test]
fn cover_art_decodes_within_the_size_cap() {
    let (img, w, h) = spotterm::art::decode_cover_art(png(2, 3)).unwrap();
    assert_eq!((w, h), (2, 3));
    assert_eq!((img.width(), img.height()), (2, 3));
    assert!(spotterm::art::decode_cover_art(png(spotterm::art::MAX_IMAGE_DIM + 1, 1)).is_err());
    assert!(spotterm::art::decode_cover_art(b"not an image".to_vec()).is_err());
}

#[test]
fn the_search_bar_sits_between_now_playing_and_the_library() {
    let a = dashboard_areas(Rect::new(0, 0, 100, 30), true);
    let sb = a.search_bar.unwrap();
    assert_eq!(sb.height, 1);
    assert!(a.now_playing.y < sb.y && sb.y < a.library.y);
    assert_eq!(a.now_playing.y + a.now_playing.height, sb.y);
    assert_eq!(sb.y + sb.height, a.library.y);
}

#[test]
fn a_draw_records_the_shown_panes() {
    let mut d = Dashboard::new(0);
    d.drawn(&dashboard_areas(Rect::new(0, 0, 100, 30), false));
    assert!(d.detail_visible && d.queue_visible);
    d.drawn(&dashboard_areas(Rect::new(0, 0, 40, 30), false));
    assert!(!d.detail_visible && !d.queue_visible);
}

#[test]
fn plain_ascii_state_comes_back_unchanged() {
    assert_eq!(percent_decode("Ab3-_.~xyz"), "Ab3-_.~xyz");
    assert_eq!(percent_decode("a%20b+c"), "a b c");
}

#[test]
fn a_blank_query_matches_nothing() {
    assert!(matches!(match_name(&["a", "b"], "   "), NameMatch::NotFound));
}
