//! Cover art: which image URL to show, the allow-check applied before fetching one, and the
//! size-capped decoding of the fetched bytes.

use vstd::prelude::*;

use crate::np_json::image_views;
use crate::text::{chars_of, chars_eq, ends_with, ends_with_spec};

verus! {

/// Target width (px) for cover art.
pub const TARGET_WIDTH: u32 = 300;

/// Distance of an image width from the target width.
pub open spec fn width_gap(w: u32) -> nat {
    if w >= TARGET_WIDTH { (w - TARGET_WIDTH) as nat } else { (TARGET_WIDTH - w) as nat }
}

/// Index `i` holds the first image whose width is closest to the target.
pub open spec fn best_image(images: Seq<(String, u32, u32)>, i: int) -> bool {
    &&& 0 <= i < images.len()
    &&& forall|j: int| 0 <= j < images.len() ==> width_gap(images[i].1) <= width_gap(#[trigger] images[j].1)
    &&& forall|j: int| 0 <= j < i ==> width_gap(images[i].1) < width_gap(#[trigger] images[j].1)
}

/// Index `i` holds the first candidate (as `(url, width, height)` values) whose width is closest
/// to the target.
pub open spec fn best_candidate(images: Seq<(Seq<char>, u32, u32)>, i: int) -> bool {
    &&& 0 <= i < images.len()
    &&& forall|j: int| 0 <= j < images.len() ==> width_gap(images[i].1) <= width_gap(#[trigger] images[j].1)
    &&& forall|j: int| 0 <= j < i ==> width_gap(images[i].1) < width_gap(#[trigger] images[j].1)
}

/// The URL chosen from a list of candidates: the first one closest to the target width, `None`
/// for an empty list.
pub open spec fn art_choice(images: Seq<(Seq<char>, u32, u32)>, r: Option<Seq<char>>) -> bool {
    match r {
        Some(u) => exists|i: int| best_candidate(images, i) && u == images[i].0,
        None => images.len() == 0,
    }
}

fn gap(w: u32) -> (g: u32)
    ensures
        g == width_gap(w),
{
    if w >= TARGET_WIDTH { w - TARGET_WIDTH } else { TARGET_WIDTH - w }
}

/// Pick the URL to display from the art candidates (`url`, `width`, `height`): the first one whose
/// width is closest to [`TARGET_WIDTH`]. `None` if empty; an unknown width (0) still counts.
pub fn pick_image_url(images: &[(String, u32, u32)]) -> (r: Option<String>)
    ensures
        match r {
            Some(u) => exists|i: int| best_image(images@, i) && u == images@[i].0,
            None => images@.len() == 0,
        },
        art_choice(image_views(images@), match r { Some(u) => Some(u@), None => None }),
{
    if images.len() == 0 {
        return None;
    }
    let mut best: usize = 0;
    let mut best_gap = gap(images[0].1);
    let mut i: usize = 1;
    while i < images.len()
        invariant
            1 <= i <= images@.len(),
            best < i,
            best_gap == width_gap(images@[best as int].1),
            forall|j: int| 0 <= j < i ==> best_gap <= width_gap(#[trigger] images@[j].1),
            forall|j: int| 0 <= j < best ==> best_gap < width_gap(#[trigger] images@[j].1),
        decreases images.len() - i,
    {
        let g = gap(images[i].1);
        if g < best_gap {
            best = i;
            best_gap = g;
        }
        i = i + 1;
    }
    assert(best_image(images@, best as int));
    assert(best_candidate(image_views(images@), best as int));
    Some(images[best].0.clone())
}

/// The scheme and host of a URL as `reqwest::Url::parse` reads them (`None` when it does not parse).
pub uninterp spec fn url_scheme_host(url: Seq<char>) -> Option<(Seq<char>, Option<Seq<char>>)>;

/// `reqwest::Url::parse`, reduced to the scheme and the host.
#[verifier::external_body]
fn parse_scheme_host(url: &str) -> (r: Option<(String, Option<String>)>)
    ensures
        url_scheme_host(url@) == match r {
            Some(p) => Some((p.0@, match p.1 { Some(h) => Some(h@), None => None })),
            None => None,
        },
{
    match reqwest::Url::parse(url) {
        Ok(u) => Some((u.scheme().to_string(), u.host_str().map(|h| h.to_string()))),
        Err(_) => None,
    }
}

/// Whether a host is Spotify's CDN (`scdn.co` or one of its subdomains).
pub open spec fn is_cdn_host(h: Seq<char>) -> bool {
    h == "scdn.co"@ || ends_with_spec(h, ".scdn.co"@)
}

/// What `is_allowed_art_url` answers.
pub open spec fn allowed_art_url(url: Seq<char>) -> bool {
    match url_scheme_host(url) {
        Some((scheme, host)) => scheme == "https"@ && match host {
            Some(h) => is_cdn_host(h),
            None => false,
        },
        None => false,
    }
}

/// Allow-check for cover-art URLs (SSRF protection): only `https` on Spotify's CDN (`*.scdn.co`).
pub fn is_allowed_art_url(url: &str) -> (b: bool)
    ensures
        b == allowed_art_url(url@),
{
    match parse_scheme_host(url) {
        Some((scheme, host)) => {
            if !chars_eq(&chars_of(scheme.as_str()), &chars_of("https")) {
                return false;
            }
            match host {
                Some(h) => {
                    let hv = chars_of(h.as_str());
                    chars_eq(&hv, &chars_of("scdn.co")) || ends_with(&hv, &chars_of(".scdn.co"))
                },
                None => false,
            }
        },
        None => false,
    }
}


/// Largest image dimension (px) accepted when decoding cover art (a cap against decompression
/// bombs; real cover art is about 640×640).
pub const MAX_IMAGE_DIM: u32 = 4096;

/// A decoded image (the `image` crate's `DynamicImage`), carried through as it is.
#[verifier::external_type_specification]
#[verifier::external_body]
pub struct ExDynamicImage(image::DynamicImage);

/// The dimensions of the image the `image` crate decodes from `bytes` (format guessed from the
/// bytes) under a `max_dim` cap on width and height, or `None` when it refuses or fails.
pub uninterp spec fn decoded_dims(bytes: Seq<u8>, max_dim: u32) -> Option<(u32, u32)>;

/// The `image` crate's `ImageReader` (format guessed from the bytes) decoding with `Limits` whose
/// `max_image_width` and `max_image_height` are `max_dim`: the decoder refuses larger dimensions
/// (`Limits::check_dimensions`), so a decoded image is at most `max_dim` each way. Returns the
/// image with its width and height, or the error's text. Which bytes decode is named, not stated.
#[verifier::external_body]
fn decode_limited(bytes: Vec<u8>, max_dim: u32) -> (r: Result<(image::DynamicImage, u32, u32), String>)
    ensures
        match r {
            Ok(t) => decoded_dims(bytes@, max_dim) == Some((t.1, t.2)),
            Err(_) => decoded_dims(bytes@, max_dim) is None,
        },
        r matches Ok(t) ==> t.1 <= max_dim && t.2 <= max_dim,
{
    let mut limits = image::Limits::default();
    limits.max_image_width = Some(max_dim);
    limits.max_image_height = Some(max_dim);
    let mut reader = image::ImageReader::new(std::io::Cursor::new(bytes)).with_guessed_format().map_err(|e| e.to_string())?;
    reader.limits(limits);
    let img = reader.decode().map_err(|e| e.to_string())?;
    let (w, h) = (img.width(), img.height());
    Ok((img, w, h))
}

/// Decode fetched cover-art bytes, refusing images larger than [`MAX_IMAGE_DIM`] in either
/// dimension (a cap against decompression bombs). Returns the image with its width and height.
pub fn decode_cover_art(bytes: Vec<u8>) -> (r: Result<(image::DynamicImage, u32, u32), String>)
    ensures
        match r {
            Ok(t) => decoded_dims(bytes@, MAX_IMAGE_DIM) == Some((t.1, t.2)),
            Err(_) => decoded_dims(bytes@, MAX_IMAGE_DIM) is None,
        },
        r matches Ok(t) ==> t.1 <= MAX_IMAGE_DIM && t.2 <= MAX_IMAGE_DIM,
{
    decode_limited(bytes, MAX_IMAGE_DIM)
}

/// Refuses a cover-art URL that is not allowed, before anything is fetched from it.
pub fn check_art_url(url: &str) -> (r: Result<(), String>)
    ensures
        allowed_art_url(url@) ==> r is Ok,
        !allowed_art_url(url@) ==> (r matches Err(e) && e@ == "cover-art URL is not allowed"@),
{
    if is_allowed_art_url(url) {
        Ok(())
    } else {
        Err(String::from_str("cover-art URL is not allowed"))
    }
}

/// The placeholder shown in the cover-art column while there is no art.
pub fn art_placeholder() -> (r: String)
    ensures
        r@ == crate::theme::MUSIC@ + "\n\n(no art)"@,
{
    let mut r = String::from_str(crate::theme::MUSIC);
    crate::text::push_str(&mut r, "\n\n(no art)");
    r
}

} // verus!
