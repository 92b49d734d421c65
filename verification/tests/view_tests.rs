use spotterm::browse::BrowseTab;
use spotterm::format::display_width;
use spotterm::layout::{
    dashboard_areas, stack_rows, Rect, MIN_FOOTER_HEIGHT, MIN_TWO_COL_WIDTH, MIN_VISUALIZER_HEIGHT,
};
use spotterm::theme;
use spotterm::view::{
    art_col_width, detail_error_message, detail_hint, detail_row, device_row, help_entries,
    interpolate_progress, library_hint, library_tab_header, render_lines, search_hint,
    search_row, seek_target, status_kind, Focus, NowPlaying, StatusKind,
};

/// True when `r` sits entirely inside `outer` (no boundary overflow).
fn within(outer: Rect, r: Rect) -> bool {
    r.x >= outer.x && r.y >= outer.y && r.right() <= outer.right() && r.bottom() <= outer.bottom()
}

#[test]
fn dashboard_normal_has_four_panes_and_stacked_bottom_rows() {
    let inner = Rect::new(0, 0, 100, 30);
    let a = dashboard_areas(inner, false);
    let vis = a.visualizer.expect("visualizer present when wide/tall");
    let detail = a.detail.expect("detail present when wide");
    let footer = a.footer.expect("footer present when tall");
    assert!(a.search_bar.is_none(), "no search bar when inactive");
    assert_eq!(vis.x, a.now_playing.x + a.now_playing.width);
    assert_eq!(vis.y, a.now_playing.y);
    assert_eq!(detail.x, a.library.x + a.library.width);
    assert_eq!(detail.y, a.library.y);
    assert!(a.now_playing.y < a.library.y);
    assert_eq!(a.status.height, 1);
    assert_eq!(a.playbar.height, 1);
    assert_eq!(footer.height, 1);
    assert_eq!(a.playbar.y, a.status.y + 1);
    assert_eq!(footer.y, a.playbar.y + 1);
    assert_eq!(footer.bottom(), inner.bottom());
}

#[test]
fn dashboard_narrow_collapses_to_single_column() {
    let inner = Rect::new(0, 0, 50, 30);
    let a = dashboard_areas(inner, false);
    assert!(a.visualizer.is_none(), "no visualizer when narrow");
    assert!(a.detail.is_none(), "no detail when narrow");
    assert_eq!(a.now_playing.width, inner.width);
    assert_eq!(a.library.width, inner.width);
}

#[test]
fn dashboard_short_drops_footer_before_visualizer() {
    let a = dashboard_areas(Rect::new(0, 0, 100, 11), false);
    assert!(a.footer.is_none(), "footer dropped below 12 rows");
    assert!(a.visualizer.is_some(), "visualizer kept at 11 rows");
    let b = dashboard_areas(Rect::new(0, 0, 100, 9), false);
    assert!(b.footer.is_none());
    assert!(b.visualizer.is_none(), "visualizer dropped below 10 rows");
}

#[test]
fn dashboard_search_inserts_bar_between_upper_and_lower() {
    let inner = Rect::new(0, 0, 100, 30);
    let a = dashboard_areas(inner, true);
    let bar = a.search_bar.expect("search bar present when active");
    assert_eq!(bar.height, 1);
    assert!(a.now_playing.y < bar.y);
    assert!(bar.y < a.library.y);
}

#[test]
fn dashboard_regions_stay_within_inner() {
    let inner = Rect::new(3, 2, 100, 30);
    let a = dashboard_areas(inner, true);
    for r in [
        Some(a.now_playing),
        a.visualizer,
        a.search_bar,
        Some(a.library),
        a.detail,
        Some(a.status),
        Some(a.playbar),
        a.footer,
    ]
    .into_iter()
    .flatten()
    {
        assert!(within(inner, r), "region {r:?} escapes inner {inner:?}");
    }
}

#[test]
fn dashboard_guarantees_status_then_playbar_on_tiny_heights() {
    let a0 = dashboard_areas(Rect::new(0, 0, 100, 0), false);
    assert_eq!(a0.status.height, 0, "no rows fit at height 0");
    assert_eq!(a0.playbar.height, 0);
    for h in 1..=4u16 {
        let a = dashboard_areas(Rect::new(0, 0, 100, h), false);
        assert!(a.status.height >= 1, "status must stay >= 1 at height {h}");
        assert!(a.status.bottom() <= h, "status overflows at height {h}");
        if h >= 2 {
            assert!(a.playbar.height >= 1, "playbar must stay >= 1 at height {h}");
            assert!(a.playbar.bottom() <= h, "playbar overflows at height {h}");
        }
    }
}

#[test]
fn dashboard_thresholds_are_inclusive_boundaries() {
    let wide = dashboard_areas(Rect::new(0, 0, MIN_TWO_COL_WIDTH, 30), false);
    assert!(wide.visualizer.is_some() && wide.detail.is_some());
    let narrow = dashboard_areas(Rect::new(0, 0, MIN_TWO_COL_WIDTH - 1, 30), false);
    assert!(narrow.visualizer.is_none() && narrow.detail.is_none());
    let with_footer = dashboard_areas(Rect::new(0, 0, 100, MIN_FOOTER_HEIGHT), false);
    assert!(with_footer.footer.is_some());
    let no_footer = dashboard_areas(Rect::new(0, 0, 100, MIN_FOOTER_HEIGHT - 1), false);
    assert!(no_footer.footer.is_none());
    let with_vis = dashboard_areas(Rect::new(0, 0, 100, MIN_VISUALIZER_HEIGHT), false);
    assert!(with_vis.visualizer.is_some());
    let no_vis = dashboard_areas(Rect::new(0, 0, 100, MIN_VISUALIZER_HEIGHT - 1), false);
    assert!(no_vis.visualizer.is_none());
}

#[test]
fn art_col_width_columnizes_only_when_wide_enough() {
    assert_eq!(art_col_width(100, 20, false), 0);
    assert_eq!(art_col_width(100, 50, true), 24);
    assert_eq!(art_col_width(40, 3, true), 6);
    assert_eq!(art_col_width(6, 10, true), 0);
}

#[test]
fn art_col_width_lets_text_width_stay_positive() {
    let pane_w = 100u16;
    let art = art_col_width(pane_w, 30, true);
    assert!(art > 0 && art < pane_w, "art column must leave room for text");
    assert!(pane_w - art > 0);
}

#[test]
fn stack_rows_allocates_from_top_and_drops_overflow() {
    let full = stack_rows(Rect::new(0, 0, 10, 5), 5);
    assert_eq!(full.len(), 5);
    assert!(full.iter().enumerate().all(|(i, r)| r.y == i as u16 && r.height == 1));
    assert_eq!(stack_rows(Rect::new(0, 0, 10, 3), 5).len(), 3);
    assert!(stack_rows(Rect::new(2, 1, 10, 0), 5).is_empty());
    let offset = stack_rows(Rect::new(3, 7, 10, 2), 5);
    assert_eq!(offset.len(), 2);
    assert_eq!((offset[0].x, offset[0].y), (3, 7));
    assert_eq!(offset[1].y, 8);
}

#[test]
fn now_playing_rows_keep_top_priority_at_footer_boundary() {
    let a = dashboard_areas(Rect::new(0, 0, 100, MIN_FOOTER_HEIGHT), false);
    let rows = stack_rows(a.now_playing, 5);
    assert_eq!(rows.len(), 4, "state/title/artist/album survive, only device drops");
    assert!(rows.iter().all(|r| r.height == 1), "no row is crushed to 0");
    for pair in rows.windows(2) {
        assert_eq!(pair[1].y, pair[0].y + 1, "rows stack contiguously");
    }
    assert!(rows.iter().all(|r| within(a.now_playing, *r)));
}

#[test]
fn now_playing_rows_survive_tiny_pane_heights() {
    for h in 1..=6u16 {
        let pane = Rect::new(0, 0, 40, h);
        let rows = stack_rows(pane, 5);
        assert_eq!(rows.len() as u16, h.min(5), "row count at height {h}");
        assert!(rows.iter().all(|r| r.height == 1), "no crush at height {h}");
    }
}

#[test]
fn interpolate_advances_only_while_playing() {
    assert_eq!(interpolate_progress(10_000, 3_000, 200_000, true), 13_000);
    assert_eq!(interpolate_progress(10_000, 3_000, 200_000, false), 10_000);
}

#[test]
fn interpolate_clamps_to_duration() {
    assert_eq!(interpolate_progress(195_000, 10_000, 200_000, true), 200_000);
    assert_eq!(interpolate_progress(195_000, 10_000, 0, true), 205_000);
}

fn sample(is_playing: bool) -> NowPlaying {
    NowPlaying {
        is_playing,
        title: "Song".to_string(),
        artists: "Artist".to_string(),
        album: Some("Album".to_string()),
        progress_ms: 60_000,
        duration_ms: 180_000,
        device: "MacBook Pro".to_string(),
        volume: Some(40),
        track_uri: Some("spotify:track:xxxx".to_string()),
        album_image_url: None,
    }
}

/// The progress bar's fill ratio for rendered lines (0.0 when the length is unknown).
fn ratio(progress_ms: u128, duration_ms: u128) -> f64 {
    if duration_ms == 0 {
        0.0
    } else {
        (progress_ms as f64 / duration_ms as f64).clamp(0.0, 1.0)
    }
}

#[test]
fn render_lines_shows_track_and_progress() {
    let n = sample(true);
    let out = render_lines(Some(&n), 0, 80, None);
    assert_eq!(out.state, format!("{} Playing", theme::PLAY));
    assert!(out.title.contains("Song"));
    assert!(out.artist.contains("Artist"));
    assert_eq!(out.progress_label, "1:00 / 3:00");
    assert_eq!(ratio(out.progress_ms, out.duration_ms), 60_000.0 / 180_000.0);
    assert!(out.device.contains("MacBook Pro"));
    assert!(out.device.contains("40%"));
}

#[test]
fn render_lines_prefixes_info_lines_with_icons() {
    let n = sample(true);
    let out = render_lines(Some(&n), 0, 80, None);
    assert!(out.title.starts_with(theme::MUSIC), "title needs music icon");
    assert!(out.artist.starts_with(theme::ARTIST), "artist needs artist icon");
    assert!(out.album.starts_with(theme::ALBUM), "album needs album icon");
    assert!(out.device.starts_with(theme::VOLUME), "device needs volume icon");
}

#[test]
fn render_lines_empty_state_when_nothing_playing() {
    let out = render_lines(None, 0, 80, None);
    assert_eq!(out.state, "Nothing is playing");
    assert!(out.artist.is_empty());
    assert_eq!(ratio(out.progress_ms, out.duration_ms), 0.0);
    assert!(!out.title.contains("spotterm"), "must not reference a removed CLI command");
    assert!(
        out.title.contains("/ to search") && out.title.contains("d to select"),
        "should point to real TUI keys (search / device)"
    );
}

#[test]
fn render_lines_shows_saved_marker() {
    let n = sample(true);
    assert!(render_lines(Some(&n), 0, 80, Some(true)).state.contains(theme::HEART));
    assert!(render_lines(Some(&n), 0, 80, Some(false)).state.contains(theme::HEART_O));
    let unknown = render_lines(Some(&n), 0, 80, None).state;
    assert!(!unknown.contains(theme::HEART) && !unknown.contains(theme::HEART_O));
}

#[test]
fn seek_target_advances_and_rewinds() {
    assert_eq!(seek_target(60_000, 180_000, 5_000), 65_000);
    assert_eq!(seek_target(60_000, 180_000, -5_000), 55_000);
}

#[test]
fn seek_target_clamps_bounds() {
    assert_eq!(seek_target(3_000, 180_000, -5_000), 0);
    assert_eq!(seek_target(178_000, 180_000, 5_000), 180_000);
    assert_eq!(seek_target(178_000, 0, 5_000), 183_000);
}

#[test]
fn search_row_joins_name_and_artists() {
    assert_eq!(search_row("Song", "Artist", 80), "Song — Artist");
    assert_eq!(search_row("Song", "", 80), "Song");
}

#[test]
fn search_row_truncates_with_symbol_margin() {
    let out = search_row("abcdefghij", "", 10);
    assert_eq!(out.chars().count(), 8);
    assert!(out.ends_with('…'));
}

#[test]
fn search_hint_varies_by_phase() {
    assert!(search_hint(true, 0).contains("Enter to search"));
    let results = search_hint(false, 3);
    assert!(results.starts_with("3 results"));
    assert!(results.contains("Enter play"));
}

#[test]
fn library_tab_header_brackets_current_only() {
    let out = library_tab_header(BrowseTab::All);
    assert!(out.contains("[All]"));
    assert!(out.contains(" Artists "));
    assert!(!out.contains("[Artists]"));
    for tab in BrowseTab::ALL {
        assert!(out.contains(tab.label()));
    }
}

#[test]
fn library_hint_reports_item_count() {
    assert!(library_hint(7).starts_with("7 items"));
    assert!(library_hint(7).contains("[ ] tab"));
}

#[test]
fn detail_row_right_aligns_duration_and_numbers() {
    let out = detail_row(Some(4), "Weird Fishes", "Radiohead", 318_000, false, 40);
    assert!(out.contains("4 Weird Fishes — Radiohead"));
    assert!(out.trim_end().ends_with("5:18"));
    assert!(display_width(&out) <= 38);
}

#[test]
fn detail_row_marks_current_track_with_play_glyph() {
    let out = detail_row(Some(1), "15 Step", "Radiohead", 237_000, true, 40);
    assert!(out.starts_with(theme::PLAY));
}

#[test]
fn detail_row_without_track_number_omits_it() {
    let out = detail_row(None, "Song", "", 60_000, false, 30);
    assert!(out.starts_with("Song"));
    assert!(out.trim_end().ends_with("1:00"));
}

#[test]
fn detail_hint_reports_track_count() {
    assert!(detail_hint(12).starts_with("12 tracks"));
    assert!(detail_hint(12).contains("Enter play"));
}

#[test]
fn detail_error_403_reads_as_restricted_not_failure() {
    let msg = detail_error_message(Some(403), "artist top tracks");
    assert!(msg.contains("artist top tracks"));
    assert!(msg.contains("restricted"));
    assert!(msg.contains("403"));
    assert!(!msg.contains("failed"));
}

#[test]
fn detail_error_404_reports_not_found() {
    assert_eq!(detail_error_message(Some(404), "playlist tracks"), "playlist tracks not found (404)");
}

#[test]
fn detail_error_other_status_shows_code() {
    assert_eq!(detail_error_message(Some(500), "album tracks"), "failed to load album tracks (HTTP 500)");
}

#[test]
fn detail_error_no_status_is_generic() {
    assert_eq!(detail_error_message(None, "track"), "failed to load track");
}

#[test]
fn device_row_active_marks_and_notes() {
    let out = device_row("MacBook Pro", "Computer", Some(65), true, false, 80);
    assert!(out.starts_with("● MacBook Pro [Computer]"));
    assert!(out.contains("vol 65%"));
    assert!(out.contains("(active)"));
}

#[test]
fn device_row_inactive_without_volume() {
    let out = device_row("Speaker", "Speaker", None, false, false, 80);
    assert!(out.starts_with("○ Speaker [Speaker]"));
    assert!(out.contains("vol -"));
    assert!(!out.contains("(active)"));
}

#[test]
fn device_row_restricted_is_annotated() {
    let out = device_row("TV", "Tv", Some(40), false, true, 80);
    assert!(out.starts_with("○ TV [Tv]"));
    assert!(out.contains("(restricted)"));
}

#[test]
fn device_row_truncates_with_symbol_margin() {
    let out = device_row("abcdefghij", "X", None, false, false, 10);
    assert!(display_width(&out) <= 8);
    assert!(out.ends_with('…'));
}

#[test]
fn focus_next_swaps_lower_panes_when_detail_visible() {
    assert_eq!(Focus::Library.next(true), Focus::Detail);
    assert_eq!(Focus::Detail.next(true), Focus::Library);
}

#[test]
fn focus_next_stays_on_library_when_detail_hidden() {
    assert_eq!(Focus::Library.next(false), Focus::Library);
    assert_eq!(Focus::Detail.next(false), Focus::Library);
}

#[test]
fn focus_effective_clamps_to_library_when_detail_hidden() {
    assert_eq!(Focus::Detail.effective(false), Focus::Library);
    assert_eq!(Focus::Library.effective(false), Focus::Library);
}

#[test]
fn focus_effective_keeps_stored_when_detail_visible() {
    assert_eq!(Focus::Detail.effective(true), Focus::Detail);
    assert_eq!(Focus::Library.effective(true), Focus::Library);
}

#[test]
fn help_entries_cover_all_keys() {
    let keys: Vec<&str> = help_entries().iter().map(|(k, _)| *k).collect();
    for k in ["space", "n / p", "← / →", "+ / -", "s", "/", "tab", "[ / ]", "↑ / ↓", "enter", "d", "r", "?", "q / Esc"] {
        assert!(keys.contains(&k), "help is missing {k}");
    }
    assert!(help_entries().iter().all(|(_, desc)| !desc.is_empty()));
}

#[test]
fn status_kind_classifies() {
    assert_eq!(status_kind(&format!("{} refresh failed: x", theme::WARN)), StatusKind::Warn);
    assert_eq!(status_kind(&format!("{} play", theme::PLAY)), StatusKind::Success);
    assert_eq!(status_kind(&format!("{} saved to your library", theme::HEART)), StatusKind::Success);
    assert_eq!(status_kind(&format!("{} seek 1:23", theme::SEEK)), StatusKind::Success);
    assert_eq!(status_kind("starting…"), StatusKind::Info);
}

#[test]
fn status_kind_recognizes_every_theme_prefix() {
    for icon in theme::OK_PREFIXES {
        assert_eq!(
            status_kind(&format!("{icon} action done")),
            StatusKind::Success,
            "ok prefix {icon:?} must classify as Ok"
        );
    }
    assert_eq!(status_kind(&format!("{} boom", theme::WARN)), StatusKind::Warn);
}
