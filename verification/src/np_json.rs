//! Now Playing fallbacks that read the raw `/me/player` track JSON. Spotify's `/me/player` omits
//! `external_ids` for tracks, so the client library cannot type the item and hands over the raw
//! JSON; these helpers pull the displayed values straight out of it.

use vstd::prelude::*;

use crate::json::{get_str, json_array, json_get, json_str, json_u64, JsonValue};
use crate::text::{chars_of, starts_with, starts_with_spec};

verus! {

/// The `name` strings of the array elements that have one, in order.
pub open spec fn names_of(arr: Seq<JsonValue>) -> Seq<Seq<char>>
    decreases arr.len(),
{
    if arr.len() == 0 {
        Seq::empty()
    } else {
        let prev = names_of(arr.drop_last());
        match json_str(json_get(arr.last(), "name"@)) {
            Some(n) => prev.push(n),
            None => prev,
        }
    }
}

/// The title shown for a raw track.
pub open spec fn title_of(v: JsonValue) -> Seq<char> {
    match json_str(json_get(v, "name"@)) {
        Some(s) => s,
        None => "(unknown title)"@,
    }
}

/// The artist names of a raw track.
pub open spec fn artists_of(v: JsonValue) -> Seq<Seq<char>> {
    match json_array(json_get(v, "artists"@)) {
        Some(arr) => names_of(arr),
        None => Seq::empty(),
    }
}

/// The album name of a raw track.
pub open spec fn album_of(v: JsonValue) -> Option<Seq<char>> {
    match json_get(v, "album"@) {
        Some(a) => json_str(json_get(a, "name"@)),
        None => None,
    }
}

/// The length of a raw track in milliseconds (`0` when absent).
pub open spec fn duration_of(v: JsonValue) -> nat {
    match json_u64(json_get(v, "duration_ms"@)) {
        Some(d) => d as nat,
        None => 0,
    }
}

/// The `name` strings of the elements of `arr` that have one.
fn collect_names(arr: &Vec<JsonValue>) -> (r: Vec<String>)
    ensures
        r@.map_values(|s: String| s@) == names_of(arr@),
{
    let mut r: Vec<String> = Vec::new();
    let mut i: usize = 0;
    while i < arr.len()
        invariant
            i <= arr@.len(),
            r@.map_values(|s: String| s@) == names_of(arr@.take(i as int)),
        decreases arr.len() - i,
    {
        assert(arr@.take(i + 1).drop_last() =~= arr@.take(i as int));
        assert(arr@.take(i + 1).last() == arr@[i as int]);
        match get_str(&arr[i], "name") {
            Some(n) => {
                let ghost before = r@;
                r.push(String::from_str(n));
                assert(r@.map_values(|s: String| s@) =~= before.map_values(|s: String| s@).push(n@));
            },
            None => {},
        }
        i = i + 1;
    }
    assert(arr@.take(arr@.len() as int) =~= arr@);
    r
}

/// Extract the values needed for display (title, artist names, album name, duration ms) from the
/// raw `/me/player` track JSON.
pub fn track_from_json(v: &JsonValue) -> (r: (String, Vec<String>, Option<String>, u128))
    ensures
        r.0@ == title_of(*v),
        r.1@.map_values(|s: String| s@) == artists_of(*v),
        match r.2 {
            Some(a) => album_of(*v) == Some(a@),
            None => album_of(*v) is None,
        },
        r.3 == duration_of(*v),
{
    let title = match get_str(v, "name") {
        Some(s) => String::from_str(s),
        None => String::from_str("(unknown title)"),
    };
    let artists = match v.get("artists") {
        Some(a) => match a.as_array() {
            Some(arr) => collect_names(arr),
            None => Vec::new(),
        },
        None => Vec::new(),
    };
    proof {
        if json_array(json_get(*v, "artists"@)) is None {
            assert(Seq::<String>::empty().map_values(|s: String| s@) =~= Seq::<Seq<char>>::empty());
        }
    }
    let album = match v.get("album") {
        Some(a) => match get_str(a, "name") {
            Some(s) => Some(String::from_str(s)),
            None => None,
        },
        None => None,
    };
    let duration_ms: u128 = match v.get("duration_ms") {
        Some(d) => match d.as_u64() {
            Some(n) => n as u128,
            None => 0,
        },
        None => 0,
    };
    (title, artists, album, duration_ms)
}

/// The track URI of a raw item, when it is a `spotify:track:` URI.
pub open spec fn track_uri_of(v: JsonValue) -> Option<Seq<char>> {
    match json_str(json_get(v, "uri"@)) {
        Some(u) => if starts_with_spec(u, "spotify:track:"@) { Some(u) } else { None },
        None => None,
    }
}

/// Extract the track URI (`spotify:track:…`) used for library operations from the raw
/// `/me/player` track JSON. Returns `None` for non-tracks (episodes, etc.) or when it is missing.
pub fn track_id_from_json(v: &JsonValue) -> (r: Option<String>)
    ensures
        match r {
            Some(u) => track_uri_of(*v) == Some(u@),
            None => track_uri_of(*v) is None,
        },
{
    match get_str(v, "uri") {
        Some(uri) => {
            if starts_with(&chars_of(uri), &chars_of("spotify:track:")) {
                Some(String::from_str(uri))
            } else {
                None
            }
        },
        None => None,
    }
}

/// One cover-art candidate of a raw image object: its URL and size (missing sizes count as 0).
pub open spec fn image_of(img: JsonValue) -> Option<(Seq<char>, u32, u32)> {
    match json_str(json_get(img, "url"@)) {
        Some(url) => {
            let w = match json_u64(json_get(img, "width"@)) { Some(n) => n as u32, None => 0u32 };
            let h = match json_u64(json_get(img, "height"@)) { Some(n) => n as u32, None => 0u32 };
            Some((url, w, h))
        },
        None => None,
    }
}

/// The cover-art candidates of an image array, skipping entries without a URL.
pub open spec fn images_of(arr: Seq<JsonValue>) -> Seq<(Seq<char>, u32, u32)>
    decreases arr.len(),
{
    if arr.len() == 0 {
        Seq::empty()
    } else {
        let prev = images_of(arr.drop_last());
        match image_of(arr.last()) {
            Some(t) => prev.push(t),
            None => prev,
        }
    }
}

/// The cover-art candidates of a raw track's album.
pub open spec fn album_images_of(v: JsonValue) -> Seq<(Seq<char>, u32, u32)> {
    match json_get(v, "album"@) {
        Some(a) => match json_array(json_get(a, "images"@)) {
            Some(arr) => images_of(arr),
            None => Seq::empty(),
        },
        None => Seq::empty(),
    }
}

/// The view of a list of `(url, width, height)` candidates.
pub open spec fn image_views(imgs: Seq<(String, u32, u32)>) -> Seq<(Seq<char>, u32, u32)> {
    imgs.map_values(|t: (String, u32, u32)| (t.0@, t.1, t.2))
}

fn u64_field(img: &JsonValue, key: &str) -> (r: u32)
    ensures
        r == (match json_u64(json_get(*img, key@)) { Some(n) => n as u32, None => 0u32 }),
{
    match img.get(key) {
        Some(x) => match x.as_u64() {
            Some(n) => n as u32,
            None => 0,
        },
        None => 0,
    }
}

/// Extract the album cover-art candidates from the raw `/me/player` track JSON as a list of
/// `(url, width, height)`. Missing `width`/`height` default to 0.
pub fn album_images_from_json(v: &JsonValue) -> (r: Vec<(String, u32, u32)>)
    ensures
        image_views(r@) == album_images_of(*v),
{
    let mut r: Vec<(String, u32, u32)> = Vec::new();
    let arr = match v.get("album") {
        Some(a) => match a.get("images") {
            Some(i) => i.as_array(),
            None => None,
        },
        None => None,
    };
    let arr = match arr {
        Some(arr) => arr,
        None => {
            assert(image_views(r@) =~= Seq::<(Seq<char>, u32, u32)>::empty());
            return r;
        },
    };
    let mut i: usize = 0;
    while i < arr.len()
        invariant
            i <= arr@.len(),
            image_views(r@) == images_of(arr@.take(i as int)),
        decreases arr.len() - i,
    {
        assert(arr@.take(i + 1).drop_last() =~= arr@.take(i as int));
        assert(arr@.take(i + 1).last() == arr@[i as int]);
        let img = &arr[i];
        match get_str(img, "url") {
            Some(url) => {
                let w = u64_field(img, "width");
                let h = u64_field(img, "height");
                let ghost before = r@;
                r.push((String::from_str(url), w, h));
                assert(image_views(r@) =~= image_views(before).push((url@, w, h)));
            },
            None => {},
        }
        i = i + 1;
    }
    assert(arr@.take(arr@.len() as int) =~= arr@);
    r
}

} // verus!
