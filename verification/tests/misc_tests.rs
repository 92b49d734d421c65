use spotterm::art::{is_allowed_art_url, pick_image_url};
use spotterm::format::{display_width, format_ms, join_artists, truncate};
use spotterm::match_name::{match_name, NameMatch};
use spotterm::theme::{
    ALBUM, ARTIST, CHECK, HEART, HEART_O, MUSIC, NEXT, OK_PREFIXES, PAUSE, PLAY, PREV, SEARCH,
    SEEK, VOLUME, WARN,
};

fn img(url: &str, w: u32) -> (String, u32, u32) {
    (url.to_string(), w, w)
}

#[test]
fn art_picks_width_closest_to_target() {
    let imgs = [img("a640", 640), img("b300", 300), img("c64", 64)];
    assert_eq!(pick_image_url(&imgs).as_deref(), Some("b300"));
}

#[test]
fn art_picks_nearest_when_no_exact() {
    let imgs = [img("big", 500), img("small", 200)];
    assert_eq!(pick_image_url(&imgs).as_deref(), Some("small"));
}

#[test]
fn art_empty_is_none() {
    assert_eq!(pick_image_url(&[]), None);
}

#[test]
fn art_unknown_width_still_selectable() {
    let imgs = [img("only", 0)];
    assert_eq!(pick_image_url(&imgs).as_deref(), Some("only"));
}

#[test]
fn art_ties_go_to_the_first_candidate() {
    let imgs = [img("first", 250), img("second", 350)];
    assert_eq!(pick_image_url(&imgs).as_deref(), Some("first"));
}

#[test]
fn art_allows_only_https_spotify_cdn() {
    assert!(is_allowed_art_url("https://i.scdn.co/image/ab67616d"));
    assert!(is_allowed_art_url("https://scdn.co/x"));
}

#[test]
fn art_rejects_non_cdn_and_non_https() {
    assert!(!is_allowed_art_url("http://i.scdn.co/image/x"));
    assert!(!is_allowed_art_url("https://169.254.169.254/latest/meta-data"));
    assert!(!is_allowed_art_url("https://evil.com/scdn.co"));
    assert!(!is_allowed_art_url("https://scdn.co.evil.com/x"));
    assert!(!is_allowed_art_url("not a url"));
}

#[test]
fn format_ms_pads_seconds_and_handles_minutes() {
    assert_eq!(format_ms(0), "0:00");
    assert_eq!(format_ms(5_000), "0:05");
    assert_eq!(format_ms(65_000), "1:05");
    assert_eq!(format_ms(187_000), "3:07");
    assert_eq!(format_ms(3_600_000), "60:00");
}

#[test]
fn join_artists_joins_or_reports_unknown() {
    assert_eq!(join_artists(&["A".to_string()]), "A");
    assert_eq!(join_artists(&["A".to_string(), "B".to_string()]), "A, B");
    assert_eq!(join_artists(&[]), "(unknown artist)");
}

#[test]
fn truncate_shortens_only_when_over_limit() {
    assert_eq!(truncate("hello", 10), "hello");
    assert_eq!(truncate("hello", 5), "hello");
    assert_eq!(truncate("hello", 4), "hel…");
    assert_eq!(truncate("あいうえお", 3), "あ…");
    assert_eq!(truncate("あいうえお", 5), "あい…");
    assert_eq!(truncate("あいうえお", 4), "あ…");
    assert_eq!(truncate("hello", 0), "");
    assert_eq!(display_width(&truncate("あいうえお", 0)), 0);
}

#[test]
fn display_width_counts_columns() {
    assert_eq!(display_width("hello"), 5);
    assert_eq!(display_width("あ"), 2);
    assert_eq!(display_width("🎵"), 2);
    assert_eq!(display_width("a あ"), 4);
}

#[test]
fn exact_match_case_insensitive() {
    let n = ["MacBook Pro", "iPhone"];
    assert_eq!(match_name(&n, "macbook pro"), NameMatch::Found(0));
}

#[test]
fn partial_match_single() {
    let n = ["MacBook Pro", "iPhone"];
    assert_eq!(match_name(&n, "pro"), NameMatch::Found(0));
}

#[test]
fn no_match() {
    let n = ["MacBook Pro", "iPhone"];
    assert_eq!(match_name(&n, "speaker"), NameMatch::NotFound);
}

#[test]
fn partial_match_ambiguous() {
    let n = ["Living Room TV", "Living Room Speaker"];
    assert_eq!(match_name(&n, "living room"), NameMatch::Ambiguous(vec![0, 1]));
}

#[test]
fn exact_wins_over_partial() {
    let n = ["Living Room", "Living Room TV"];
    assert_eq!(match_name(&n, "living room"), NameMatch::Found(0));
}

#[test]
fn empty_query_matches_nothing() {
    let n = ["MacBook Pro", "iPhone"];
    assert_eq!(match_name(&n, "   "), NameMatch::NotFound);
}

#[test]
fn icons_are_nonempty_and_distinct() {
    let all = [MUSIC, ARTIST, ALBUM, SEARCH, VOLUME, WARN, PLAY, PAUSE, NEXT, PREV, SEEK, HEART, HEART_O, CHECK];
    assert!(all.iter().all(|g| !g.is_empty()), "no icon may be empty");
    for (i, a) in all.iter().enumerate() {
        for b in &all[i + 1..] {
            assert_ne!(a, b, "icons must be distinct: {a:?}");
        }
    }
}

#[test]
fn warn_is_not_an_ok_prefix() {
    assert!(!OK_PREFIXES.contains(&WARN));
}
