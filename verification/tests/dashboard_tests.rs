use spotterm::browse::{BrowseItem, BrowseTab, LibraryRow, Loaded, PlayTarget};
use spotterm::cli::{Cli, Command};
use spotterm::config::{Config, DEFAULT_REDIRECT_URI};
use spotterm::dashboard::{CallError, Dashboard, Mode, ModeKind, Task, SEEK_STEP_MS, VOL_STEP};
use spotterm::devices::DeviceEntry;
use spotterm::keys::{Key, KeyCode};
use spotterm::search::SearchResults;
use spotterm::theme;
use spotterm::view::{Focus, StatusKind};

fn key(code: KeyCode) -> Key {
    Key::plain(code)
}

fn ch(c: char) -> Key {
    Key::plain(KeyCode::Char(c))
}

#[test]
fn ctrl_c_quits_from_every_screen() {
    let mut d = Dashboard::new(0);
    for opener in ['/', '?'] {
        d.handle_key(ch(opener));
        assert!(matches!(d.handle_key(Key { code: KeyCode::Char('c'), ctrl: true }), Task::Quit));
        d.mode = Mode::Normal;
    }
    assert!(matches!(d.handle_key(ch('q')), Task::Quit));
    assert!(matches!(d.handle_key(key(KeyCode::Esc)), Task::Quit));
}

#[test]
fn mode_kind_follows_the_screen() {
    let mut d = Dashboard::new(0);
    assert_eq!(d.mode.kind(), ModeKind::Normal);
    d.handle_key(ch('/'));
    assert_eq!(d.mode.kind(), ModeKind::Search);
    d.mode = Mode::Help;
    assert_eq!(d.mode.kind(), ModeKind::Help);
    assert!(matches!(d.handle_key(ch('x')), Task::Nothing));
    assert_eq!(d.mode.kind(), ModeKind::Normal);
}

#[test]
fn normal_keys_ask_for_the_right_work() {
    let mut d = Dashboard::new(0);
    assert!(matches!(d.handle_key(ch(' ')), Task::Toggle));
    assert!(matches!(d.handle_key(ch('n')), Task::Skip(true)));
    assert!(matches!(d.handle_key(ch('p')), Task::Skip(false)));
    assert!(matches!(d.handle_key(ch('+')), Task::Volume(v) if v == VOL_STEP));
    assert!(matches!(d.handle_key(ch('_')), Task::Volume(v) if v == -VOL_STEP));
    assert!(matches!(d.handle_key(key(KeyCode::Left)), Task::Seek(s) if s == -SEEK_STEP_MS));
    assert!(matches!(d.handle_key(ch('s')), Task::Save));
    assert!(matches!(d.handle_key(ch('d')), Task::OpenDevices));
    assert!(matches!(d.handle_key(ch(']')), Task::LoadLibrary(BrowseTab::Artists)));
    assert!(matches!(d.handle_key(ch('[')), Task::LoadLibrary(BrowseTab::Tracks)));
    assert!(matches!(d.handle_key(key(KeyCode::Enter)), Task::PlayLibrarySelection));
}

#[test]
fn tab_moves_focus_only_when_the_detail_pane_is_shown() {
    let mut d = Dashboard::new(0);
    d.handle_key(key(KeyCode::Tab));
    assert_eq!(d.focus, Focus::Library);
    d.detail_visible = true;
    d.handle_key(key(KeyCode::Tab));
    assert_eq!(d.focus, Focus::Detail);
    assert!(matches!(d.handle_key(ch('[')), Task::Nothing));
    assert!(matches!(d.handle_key(key(KeyCode::Enter)), Task::PlayDetailSelection));
    assert_eq!(d.drawn_focus(false), Focus::Library);
    assert_eq!(d.drawn_focus(true), Focus::Detail);
}

#[test]
fn refresh_resets_failures_and_refetches_the_focused_pane() {
    let mut d = Dashboard::new(0);
    d.player.poll_failures = 3;
    d.polled(10);
    d.library_fetched(BrowseTab::All, Ok(Loaded { rows: vec![], note: None }));
    assert!(!d.library_request(BrowseTab::All));
    assert!(matches!(d.handle_key(ch('r')), Task::LoadLibrary(BrowseTab::All)));
    assert_eq!(d.player.poll_failures, 0);
    assert!(d.last_poll_ms.is_none());
    assert!(d.library_request(BrowseTab::All));
    d.detail_visible = true;
    d.focus = Focus::Detail;
    d.detail.key = Some("spotify:album:x".to_string());
    assert!(matches!(d.handle_key(ch('r')), Task::ForgetDetail(k) if k == "spotify:album:x"));
    assert!(d.detail.key.is_none());
}

fn item(title: &str) -> BrowseItem {
    BrowseItem { title: title.to_string(), subtitle: String::new(), target: PlayTarget::Track(format!("spotify:track:{title}")) }
}

#[test]
fn library_loads_are_shown_and_cached_failures_shown_not_cached() {
    let mut d = Dashboard::new(0);
    assert!(d.library_request(BrowseTab::Albums));
    d.library_fetched(BrowseTab::Albums, Ok(Loaded { rows: vec![LibraryRow::Header("H".to_string()), LibraryRow::Item(item("a"))], note: None }));
    assert_eq!(d.library.tab, BrowseTab::Albums);
    assert_eq!(d.library.selected, 1);
    assert!(d.library_loaded);
    d.library_fetched(BrowseTab::Tracks, Err("failed to fetch saved tracks".to_string()));
    assert!(d.library.rows.is_empty());
    assert_eq!(d.library.message.as_deref(), Some("failed to fetch saved tracks"));
    assert!(d.library_request(BrowseTab::Tracks));
    assert!(!d.library_request(BrowseTab::Albums));
    assert_eq!(d.library.tab, BrowseTab::Albums);
}

#[test]
fn poll_timing_and_status_aging() {
    let mut d = Dashboard::new(0);
    assert!(d.poll_due(false, 0));
    d.polled(0);
    assert!(!d.poll_due(false, 1_999));
    assert!(d.poll_due(false, 2_000));
    assert!(!d.poll_due(true, 5_000));
    d.player.poll_failures = 3;
    assert!(!d.poll_due(false, 9_000));
    d.player.poll_failures = 0;
    d.tick_status(1_000);
    d.player.status = "hello".to_string();
    d.tick_status(2_000);
    d.tick_status(5_999);
    assert_eq!(d.player.status, "hello");
    d.tick_status(6_000);
    assert!(d.player.status.is_empty());
    d.queue_visible = true;
    d.after_draw(false);
    assert!(d.last_poll_ms.is_none());
}

#[test]
fn stopped_notice_outranks_the_status_line() {
    let mut d = Dashboard::new(0);
    assert_eq!(d.status_line(), ("Starting…".to_string(), StatusKind::Info));
    d.player.poll_failures = 3;
    let (text, kind) = d.status_line();
    assert_eq!(text, format!("{} auto-refresh is stopped. Press r to retry / q to quit", theme::WARN));
    assert_eq!(kind, StatusKind::Warn);
}

#[test]
fn control_outcomes_reach_the_status_line() {
    let mut d = Dashboard::new(0);
    d.polled(5);
    d.finish(Ok(()), "done".to_string(), 10);
    assert_eq!(d.player.status, "done");
    assert!(d.last_poll_ms.is_none());
    d.finish(Err(CallError { message: "no device".to_string(), rate_limit: None }), String::new(), 10);
    assert_eq!(d.player.status, format!("{} operation failed: no device (press d to select and activate a device)", theme::WARN));
    d.token_failed(CallError { message: "expired".to_string(), rate_limit: None }, 10);
    assert_eq!(d.player.status, format!("{} expired", theme::WARN));
}

fn dev(name: &str, id: Option<&str>) -> DeviceEntry {
    DeviceEntry { name: name.to_string(), id: id.map(|s| s.to_string()), type_label: "Speaker".to_string(), volume: None, is_active: false, is_restricted: false }
}

#[test]
fn device_picker_flow() {
    let mut d = Dashboard::new(0);
    d.devices_fetched(Err("boom".to_string()));
    assert_eq!(d.player.status, format!("{} failed to fetch the device list: boom", theme::WARN));
    d.devices_fetched(Ok(vec![dev("Cast", None), dev("Mac", Some("m"))]));
    assert_eq!(d.mode.kind(), ModeKind::Devices);
    assert!(d.transfer_start().is_none());
    match &d.mode {
        Mode::Devices(s) => assert_eq!(s.message.as_deref(), Some("'Cast' has no ID and cannot be transferred to")),
        _ => panic!("picker closed"),
    }
    d.handle_key(key(KeyCode::Down));
    assert_eq!(d.transfer_start(), Some(("m".to_string(), "Mac".to_string())));
    d.transfer_done(Err("nope".to_string()), "Mac");
    match &d.mode {
        Mode::Devices(s) => assert_eq!(s.message.as_deref(), Some("transfer failed: nope")),
        _ => panic!("picker closed"),
    }
    d.transfer_done(Ok(()), "Mac");
    assert_eq!(d.mode.kind(), ModeKind::Normal);
    assert_eq!(d.player.status, format!("{} Moved playback to 'Mac'", theme::PLAY));
    d.devices_fetched(Ok(vec![]));
    assert!(matches!(d.handle_key(key(KeyCode::Esc)), Task::Nothing));
    assert_eq!(d.mode.kind(), ModeKind::Normal);
}

#[test]
fn search_flow_through_the_dashboard() {
    let mut d = Dashboard::new(0);
    d.handle_key(ch('/'));
    for c in "abc".chars() {
        d.handle_key(ch(c));
    }
    let query = match d.handle_key(key(KeyCode::Enter)) {
        Task::Search(spotterm::search::SearchAction::Search(q)) => q,
        other => panic!("expected a search, got {other:?}"),
    };
    assert_eq!(query, "abc");
    d.search_done(query, Ok(SearchResults::default()));
    match &d.mode {
        Mode::Search(s) => assert_eq!(s.message.as_deref(), Some("No results for \"abc\"")),
        _ => panic!("search closed"),
    }
    d.search_played(Ok(()), 0);
    assert_eq!(d.mode.kind(), ModeKind::Normal);
    assert_eq!(d.player.status, format!("{} Playing", theme::PLAY));
}

#[test]
fn config_requires_a_client_id_and_defaults_the_redirect() {
    assert_eq!(
        Config::load(None, None).err().as_deref(),
        Some("SPOTTERM_CLIENT_ID is not set (check your environment)")
    );
    let c = Config::load(Some("id".to_string()), None).unwrap();
    assert_eq!(c.redirect_uri, DEFAULT_REDIRECT_URI);
    let c2 = Config::load(Some("id".to_string()), Some("http://x:1/cb".to_string())).unwrap();
    assert_eq!((c2.client_id.as_str(), c2.redirect_uri.as_str()), ("id", "http://x:1/cb"));
    let cli = Cli { command: Command::Tui };
    assert_eq!(cli.command, Command::Tui);
}
