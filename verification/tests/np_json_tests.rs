use spotterm::json::JsonValue;
use spotterm::np_json::{album_images_from_json, track_from_json, track_id_from_json};

fn s(v: &str) -> JsonValue {
    JsonValue::Str(v.to_string())
}

fn n(v: u64) -> JsonValue {
    JsonValue::Number(Some(v))
}

fn obj(entries: Vec<(&str, JsonValue)>) -> JsonValue {
    JsonValue::Object(entries.into_iter().map(|(k, v)| (k.to_string(), v)).collect())
}

#[test]
fn np_json_track_from_json_extracts_fields() {
    let v = obj(vec![
        ("name", s("Get Lucky")),
        ("artists", JsonValue::Array(vec![obj(vec![("name", s("Daft Punk"))]), obj(vec![("name", s("Pharrell Williams"))])])),
        ("album", obj(vec![("name", s("Random Access Memories"))])),
        ("duration_ms", n(248_000)),
    ]);
    let (title, artists, album, dur) = track_from_json(&v);
    assert_eq!(title, "Get Lucky");
    assert_eq!(artists, vec!["Daft Punk", "Pharrell Williams"]);
    assert_eq!(album.as_deref(), Some("Random Access Memories"));
    assert_eq!(dur, 248_000);
}

#[test]
fn np_json_track_from_json_falls_back_on_missing_fields() {
    let v = obj(vec![]);
    let (title, artists, album, dur) = track_from_json(&v);
    assert_eq!(title, "(unknown title)");
    assert!(artists.is_empty());
    assert_eq!(album, None);
    assert_eq!(dur, 0);
}

#[test]
fn np_json_track_id_from_json_extracts_track_uri() {
    let v = obj(vec![("uri", s("spotify:track:4iV5W9uYEdYUVa79Axb7Rh"))]);
    assert_eq!(track_id_from_json(&v).as_deref(), Some("spotify:track:4iV5W9uYEdYUVa79Axb7Rh"));
}

#[test]
fn np_json_track_id_from_json_ignores_non_track_and_missing() {
    let ep = obj(vec![("uri", s("spotify:episode:512ojhOuo1ktJprKbVcKyQ"))]);
    assert_eq!(track_id_from_json(&ep), None);
    assert_eq!(track_id_from_json(&obj(vec![])), None);
}

#[test]
fn np_json_album_images_from_json_extracts_list() {
    let v = obj(vec![(
        "album",
        obj(vec![(
            "images",
            JsonValue::Array(vec![
                obj(vec![("url", s("u640")), ("width", n(640)), ("height", n(640))]),
                obj(vec![("url", s("u300")), ("width", n(300)), ("height", n(300))]),
                obj(vec![("url", s("u_noWidth"))]),
            ]),
        )]),
    )]);
    let imgs = album_images_from_json(&v);
    assert_eq!(imgs.len(), 3);
    assert_eq!(imgs[0], ("u640".to_string(), 640, 640));
    assert_eq!(imgs[2], ("u_noWidth".to_string(), 0, 0));
}

#[test]
fn np_json_album_images_from_json_empty_when_missing() {
    assert!(album_images_from_json(&obj(vec![])).is_empty());
}

#[test]
fn np_json_non_string_names_are_skipped() {
    let v = obj(vec![
        ("name", n(5)),
        ("artists", JsonValue::Array(vec![obj(vec![("name", JsonValue::Null)]), obj(vec![("name", s("B"))])])),
        ("duration_ms", JsonValue::Number(None)),
    ]);
    let (title, artists, album, dur) = track_from_json(&v);
    assert_eq!(title, "(unknown title)");
    assert_eq!(artists, vec!["B"]);
    assert_eq!(album, None);
    assert_eq!(dur, 0);
}
