//! The logic of the PKCE login: keeping the refresh token across refreshes, reading the port and
//! path of the redirect URI, and judging the requests that reach the local redirect listener
//! (which one carries the authorization code for our `state`).

use vstd::prelude::*;

use crate::rate_limit::{parse_u64, parse_u64_spec};
use crate::text::{
    chars_of, chars_eq, decimal, find_from, index_of, index_of_char, last_index_of,
    last_index_of_char, push_decimal, push_str, second_word, second_word_of, slice_range,
};

verus! {

/// Token cache file name (under the config directory).
pub const TOKEN_CACHE_FILE: &'static str = "token.json";
/// How long to wait for the authorization to complete (seconds).
pub const LOGIN_TIMEOUT_SECS: u64 = 180;
/// Upper bound on the bytes read for a request line.
pub const MAX_REQUEST_BYTES: usize = 8192;
/// The scopes the client asks for.
pub const SCOPES: [&'static str; 7] = [
    "user-read-playback-state",
    "user-modify-playback-state",
    "playlist-read-private",
    "playlist-read-collaborative",
    "user-library-read",
    "user-library-modify",
    "user-follow-read",
];

/// Keep the previous refresh token when a refresh response omits one (Spotify's PKCE refresh does
/// not always rotate it, and losing it would make every later refresh impossible); a rotated
/// token wins.
pub fn preserve_refresh_token(refreshed: Option<String>, previous: Option<String>) -> (r: Option<String>)
    ensures
        r == (if refreshed is Some { refreshed } else { previous }),
{
    match refreshed {
        Some(t) => Some(t),
        None => previous,
    }
}

// ---- the redirect URI --------------------------------------------------------------

/// What follows the scheme separator: the text between the first `://` and the next one (or the
/// end), or the whole URI when it has none (`split("://").nth(1)`).
pub open spec fn after_scheme(u: Seq<char>) -> Seq<char> {
    match find_from(u, "://"@, 0) {
        Some(k) => match find_from(u, "://"@, k + 3) {
            Some(k2) => u.subrange(k + 3, k2),
            None => u.skip(k + 3),
        },
        None => u,
    }
}

/// The `host:port` part: what follows the scheme, up to the first `/`.
pub open spec fn host_port(u: Seq<char>) -> Seq<char> {
    let a = after_scheme(u);
    match index_of(a, '/') {
        Some(i) => a.take(i),
        None => a,
    }
}

/// What `parse_port` gives for a redirect URI: the number after the last `:` of the host part, or
/// the error's text.
pub open spec fn parse_port_spec(u: Seq<char>) -> Result<u16, Seq<char>> {
    let hp = host_port(u);
    match last_index_of(hp, ':') {
        None => Err("no port specified in redirect_uri: "@ + u),
        Some(i) => {
            let p = hp.skip(i + 1);
            match parse_u64_spec(p) {
                Some(v) => if v <= 65535 { Ok(v as u16) } else { Err("failed to parse the port number: "@ + p) },
                None => Err("failed to parse the port number: "@ + p),
            }
        },
    }
}

/// What `parse_path` gives for a redirect URI: from the first `/` after the scheme, or `/`.
pub open spec fn parse_path_spec(u: Seq<char>) -> Seq<char> {
    let a = after_scheme(u);
    match index_of(a, '/') {
        Some(i) => a.skip(i),
        None => "/"@,
    }
}

proof fn lemma_find_from_bound(hay: Seq<char>, needle: Seq<char>, k: int)
    ensures
        find_from(hay, needle, k) matches Some(i) ==> k <= i && i + needle.len() <= hay.len()
            && hay.subrange(i, i + needle.len()) == needle,
    decreases hay.len() - k,
{
    if k < 0 || k + needle.len() > hay.len() {
    } else if hay.subrange(k, k + needle.len()) == needle {
    } else if k >= hay.len() {
    } else {
        lemma_find_from_bound(hay, needle, k + 1);
    }
}

/// `last_index_of` finds an occurrence inside the string.
pub proof fn lemma_last_index_bound(s: Seq<char>, c: char)
    ensures
        last_index_of(s, c) matches Some(i) ==> 0 <= i < s.len() && s[i] == c,
    decreases s.len(),
{
    if s.len() > 0 && s.last() != c {
        lemma_last_index_bound(s.drop_last(), c);
    }
}

fn after_scheme_of(u: &[char]) -> (a: Vec<char>)
    ensures
        a@ == after_scheme(u@),
{
    let sep = chars_of("://");
    proof {
        reveal_strlit("://");
    }
    assert(sep@.len() == 3);
    match crate::text::find_at(u, &sep, 0) {
        Some(k) => {
            proof {
                lemma_find_from_bound(u@, sep@, 0);
                assert(find_from(u@, sep@, 0) == Some(k as int));
            }
            assert(k + 3 <= u.len());
            let start: usize = k + 3;
            match crate::text::find_at(u, &sep, start) {
                Some(k2) => {
                    proof {
                        lemma_find_from_bound(u@, sep@, k + 3);
                    }
                    slice_range(u, k + 3, k2)
                },
                None => {
                    let r = slice_range(u, k + 3, u.len());
                    assert(r@ =~= u@.skip(k + 3));
                    r
                },
            }
        },
        None => {
            let r = slice_range(u, 0, u.len());
            assert(r@ =~= u@);
            r
        },
    }
}

/// Read the port number from a redirect URI such as `http://127.0.0.1:8888/callback`.
pub fn parse_port(redirect_uri: &str) -> (r: Result<u16, String>)
    ensures
        match r {
            Ok(p) => parse_port_spec(redirect_uri@) == Ok::<u16, Seq<char>>(p),
            Err(e) => parse_port_spec(redirect_uri@) == Err::<u16, Seq<char>>(e@),
        },
{
    let u = chars_of(redirect_uri);
    let a = after_scheme_of(&u);
    let hp = match index_of_char(&a, '/') {
        Some(i) => {
            proof {
                lemma_find_from_bound(a@, seq!['/'], 0);
            }
            slice_range(&a, 0, i)
        },
        None => {
            let r = slice_range(&a, 0, a.len());
            assert(r@ =~= a@);
            r
        },
    };
    assert(hp@ =~= host_port(u@));
    match last_index_of_char(&hp, ':') {
        None => {
            let mut e = String::from_str("no port specified in redirect_uri: ");
            push_str(&mut e, redirect_uri);
            Err(e)
        },
        Some(i) => {
            proof {
                lemma_last_index_bound(hp@, ':');
            }
            let p = slice_range(&hp, i + 1, hp.len());
            assert(p@ =~= hp@.skip(i + 1));
            match parse_u64(&p) {
                Some(v) => {
                    if v <= 65535 {
                        Ok(v as u16)
                    } else {
                        let mut e = String::from_str("failed to parse the port number: ");
                        let ps = crate::text::string_of(&p);
                        push_str(&mut e, ps.as_str());
                        Err(e)
                    }
                },
                None => {
                    let mut e = String::from_str("failed to parse the port number: ");
                    let ps = crate::text::string_of(&p);
                    push_str(&mut e, ps.as_str());
                    Err(e)
                },
            }
        },
    }
}

/// Read the path from a redirect URI (`/callback` for `http://127.0.0.1:8888/callback`, `/` when
/// there is none).
pub fn parse_path(redirect_uri: &str) -> (r: String)
    ensures
        r@ == parse_path_spec(redirect_uri@),
{
    let u = chars_of(redirect_uri);
    let a = after_scheme_of(&u);
    match index_of_char(&a, '/') {
        Some(i) => {
            proof {
                lemma_find_from_bound(a@, seq!['/'], 0);
            }
            let p = slice_range(&a, i, a.len());
            assert(p@ =~= a@.skip(i as int));
            crate::text::string_of(&p)
        },
        None => String::from_str("/"),
    }
}

// ---- bytes -----------------------------------------------------------------------

/// The UTF-8 encoding of one character.
pub open spec fn utf8_char(c: char) -> Seq<u8> {
    let v = c as u32;
    if v < 0x80 {
        seq![v as u8]
    } else if v < 0x800 {
        seq![(0xC0 + v / 64) as u8, (0x80 + v % 64) as u8]
    } else if v < 0x10000 {
        seq![(0xE0 + v / 4096) as u8, (0x80 + (v / 64) % 64) as u8, (0x80 + v % 64) as u8]
    } else {
        seq![(0xF0 + v / 262144) as u8, (0x80 + (v / 4096) % 64) as u8, (0x80 + (v / 64) % 64) as u8, (0x80 + v % 64) as u8]
    }
}

/// The UTF-8 encoding of a string (its bytes).
pub open spec fn utf8_of(s: Seq<char>) -> Seq<u8>
    decreases s.len(),
{
    if s.len() == 0 {
        Seq::empty()
    } else {
        utf8_of(s.drop_last()) + utf8_char(s.last())
    }
}

fn push_utf8(out: &mut Vec<u8>, c: char)
    ensures
        final(out)@ == old(out)@ + utf8_char(c),
{
    let v: u32 = c as u32;
    if v < 0x80 {
        out.push(v as u8);
    } else if v < 0x800 {
        out.push((0xC0 + v / 64) as u8);
        out.push((0x80 + v % 64) as u8);
    } else if v < 0x10000 {
        out.push((0xE0 + v / 4096) as u8);
        out.push((0x80 + (v / 64) % 64) as u8);
        out.push((0x80 + v % 64) as u8);
    } else {
        assert(v <= 0x10FFFF);
        assert(v / 262144 <= 4) by (nonlinear_arith)
            requires
                v <= 0x10FFFF,
        ;
        out.push((0xF0 + v / 262144) as u8);
        out.push((0x80 + (v / 4096) % 64) as u8);
        out.push((0x80 + (v / 64) % 64) as u8);
        out.push((0x80 + v % 64) as u8);
    }
}

/// The UTF-8 bytes of a string.
pub fn utf8_bytes(s: &str) -> (b: Vec<u8>)
    ensures
        b@ == utf8_of(s@),
{
    let v = chars_of(s);
    let mut out: Vec<u8> = Vec::new();
    let mut i: usize = 0;
    while i < v.len()
        invariant
            i <= v@.len(),
            v@ == s@,
            out@ == utf8_of(v@.take(i as int)),
        decreases v.len() - i,
    {
        assert(v@.take(i + 1).drop_last() =~= v@.take(i as int));
        push_utf8(&mut out, v[i]);
        i = i + 1;
    }
    assert(v@.take(v@.len() as int) =~= v@);
    out
}

/// The value of an ASCII hexadecimal digit.
pub open spec fn hex_val(b: u8) -> Option<u8> {
    if 48 <= b <= 57 {
        Some((b - 48) as u8)
    } else if 97 <= b <= 102 {
        Some((b - 87) as u8)
    } else if 65 <= b <= 70 {
        Some((b - 55) as u8)
    } else {
        None
    }
}

fn hex_digit(b: u8) -> (r: Option<u8>)
    ensures
        r == hex_val(b),
{
    if 48 <= b && b <= 57 {
        Some(b - 48)
    } else if 97 <= b && b <= 102 {
        Some(b - 87)
    } else if 65 <= b && b <= 70 {
        Some(b - 55)
    } else {
        None
    }
}

/// Form-urlencoded decoding of bytes: `%XX` (two hex digits) becomes that byte, `+` a space, and
/// everything else (a `%` without two hex digits after it included) stays.
pub open spec fn decode_bytes(b: Seq<u8>) -> Seq<u8>
    decreases b.len(),
{
    if b.len() == 0 {
        Seq::empty()
    } else if b[0] == 37 && b.len() > 2 && hex_val(b[1]) is Some && hex_val(b[2]) is Some {
        seq![(hex_val(b[1])->0 * 16 + hex_val(b[2])->0) as u8] + decode_bytes(b.skip(3))
    } else if b[0] == 43 {
        seq![32u8] + decode_bytes(b.skip(1))
    } else {
        seq![b[0]] + decode_bytes(b.skip(1))
    }
}

/// Decode `%XX` escapes and `+` in a byte string.
pub fn percent_decode_bytes(b: &[u8]) -> (out: Vec<u8>)
    ensures
        out@ == decode_bytes(b@),
{
    let mut out: Vec<u8> = Vec::new();
    let mut i: usize = 0;
    assert(b@.skip(0) =~= b@);
    while i < b.len()
        invariant
            i <= b@.len(),
            out@ + decode_bytes(b@.skip(i as int)) == decode_bytes(b@),
        decreases b.len() - i,
    {
        let ghost rest = b@.skip(i as int);
        assert(rest[0] == b@[i as int]);
        if b[i] == 37 && b.len() - i > 2 {
            assert(rest[1] == b@[i + 1] && rest[2] == b@[i + 2]);
            let hi = hex_digit(b[i + 1]);
            let lo = hex_digit(b[i + 2]);
            match (hi, lo) {
                (Some(h), Some(l)) => {
                    assert(rest.skip(3) =~= b@.skip(i + 3));
                    let ghost before = out@;
                    out.push(h * 16 + l);
                    assert(out@ + decode_bytes(b@.skip(i + 3)) =~= before + decode_bytes(rest));
                    i = i + 3;
                },
                _ => {
                    assert(rest.skip(1) =~= b@.skip(i + 1));
                    let ghost before = out@;
                    out.push(b[i]);
                    assert(out@ + decode_bytes(b@.skip(i + 1)) =~= before + decode_bytes(rest));
                    i = i + 1;
                },
            }
        } else if b[i] == 43 {
            assert(rest.skip(1) =~= b@.skip(i + 1));
            let ghost before = out@;
            out.push(32);
            assert(out@ + decode_bytes(b@.skip(i + 1)) =~= before + decode_bytes(rest));
            i = i + 1;
        } else {
            assert(rest.skip(1) =~= b@.skip(i + 1));
            let ghost before = out@;
            out.push(b[i]);
            assert(out@ + decode_bytes(b@.skip(i + 1)) =~= before + decode_bytes(rest));
            i = i + 1;
        }
    }
    assert(b@.skip(i as int) =~= Seq::<u8>::empty());
    assert(out@ + Seq::<u8>::empty() =~= out@);
    out
}

/// The text `String::from_utf8_lossy` makes of some bytes (invalid sequences become U+FFFD).
pub uninterp spec fn lossy_text(b: Seq<u8>) -> Seq<char>;

/// `String::from_utf8_lossy`: valid UTF-8 comes back as the text it encodes (std's documentation),
/// invalid sequences become U+FFFD (not stated).
#[verifier::external_body]
fn utf8_lossy(b: &[u8]) -> (s: String)
    ensures
        s@ == lossy_text(b@),
        (exists|t: Seq<char>| #[trigger] utf8_of(t) == b@) ==> utf8_of(s@) == b@,
{
    String::from_utf8_lossy(b).into_owned()
}

/// What `percent_decode` gives.
pub open spec fn percent_decode_spec(s: Seq<char>) -> Seq<char> {
    lossy_text(decode_bytes(utf8_of(s)))
}

/// Minimal `application/x-www-form-urlencoded` decoding of a query value.
pub fn percent_decode(s: &str) -> (r: String)
    ensures
        r@ == percent_decode_spec(s@),
        (exists|t: Seq<char>| #[trigger] utf8_of(t) == decode_bytes(utf8_of(s@)))
            ==> utf8_of(r@) == decode_bytes(utf8_of(s@)),
        plain_ascii(s@) ==> r@ == s@,
{
    let bytes = utf8_bytes(s);
    let out = percent_decode_bytes(&bytes);
    let r = utf8_lossy(&out);
    proof {
        if plain_ascii(s@) {
            lemma_utf8_of_ascii(s@);
            let b = utf8_of(s@);
            assert forall|i: int| 0 <= i < b.len() implies b[i] != 37 && b[i] != 43 && b[i] < 0x80 by {
                assert(b[i] == (s@[i] as u32) as u8);
                assert(s@[i] != '%' && s@[i] != '+' && (s@[i] as u32) < 0x80);
                assert(((s@[i] as u32) as u8) as u32 == s@[i] as u32);
                vstd::utf8::char_u32_cast(s@[i], s@[i] as u32);
                assert(('%' as u32) == 37 && ('+' as u32) == 43);
                assert((37u32 as char) == '%' && (43u32 as char) == '+');
            }
            lemma_decode_plain_bytes(b);
            assert(utf8_of(s@) == out@);
            assert(utf8_of(r@) == b);
            lemma_ascii_bytes_decode(r@);
            assert(r@.len() == s@.len());
            assert forall|i: int| 0 <= i < s@.len() implies r@[i] == s@[i] by {
                assert(utf8_of(r@)[i] == (r@[i] as u32) as u8);
                assert(b[i] == (s@[i] as u32) as u8);
                assert((r@[i] as u32) < 0x80 && (s@[i] as u32) < 0x80);
                assert(((s@[i] as u32) as u8) as u32 == s@[i] as u32);
                assert(((r@[i] as u32) as u8) as u32 == r@[i] as u32);
                vstd::utf8::char_u32_cast(s@[i], s@[i] as u32);
                vstd::utf8::char_u32_cast(r@[i], r@[i] as u32);
            }
            assert(r@ =~= s@);
        }
    }
    r
}

/// Text of ASCII characters other than `%` and `+`: what percent-decoding leaves unchanged.
pub open spec fn plain_ascii(s: Seq<char>) -> bool {
    forall|i: int| 0 <= i < s.len() ==> (s[i] as u32) < 0x80 && s[i] != '%' && s[i] != '+'
}

/// An ASCII text encodes byte for byte.
proof fn lemma_utf8_of_ascii(s: Seq<char>)
    requires
        forall|i: int| 0 <= i < s.len() ==> (s[i] as u32) < 0x80,
    ensures
        utf8_of(s).len() == s.len(),
        forall|i: int| 0 <= i < s.len() ==> #[trigger] utf8_of(s)[i] == (s[i] as u32) as u8,
    decreases s.len(),
{
    if s.len() > 0 {
        let p = s.drop_last();
        lemma_utf8_of_ascii(p);
        assert(utf8_char(s.last()) =~= seq![(s.last() as u32) as u8]);
        assert forall|i: int| 0 <= i < s.len() implies #[trigger] utf8_of(s)[i] == (s[i] as u32) as u8 by {
            if i < p.len() {
                assert(utf8_of(s)[i] == utf8_of(p)[i]);
            }
        }
    }
}

/// Bytes below `0x80` decode only from an ASCII text, character for byte.
proof fn lemma_ascii_bytes_decode(r: Seq<char>)
    requires
        forall|i: int| 0 <= i < utf8_of(r).len() ==> #[trigger] utf8_of(r)[i] < 0x80,
    ensures
        utf8_of(r).len() == r.len(),
        forall|i: int| 0 <= i < r.len() ==> (#[trigger] r[i] as u32) < 0x80,
        forall|i: int| 0 <= i < r.len() ==> #[trigger] utf8_of(r)[i] == (r[i] as u32) as u8,
    decreases r.len(),
{
    if r.len() > 0 {
        let p = r.drop_last();
        let c = r.last();
        let v = c as u32;
        let n = utf8_of(p).len();
        assert(utf8_of(r) == utf8_of(p) + utf8_char(c));
        assert forall|i: int| 0 <= i < utf8_of(p).len() implies #[trigger] utf8_of(p)[i] < 0x80 by {
            assert(utf8_of(r)[i] == utf8_of(p)[i]);
        }
        lemma_ascii_bytes_decode(p);
        assert(utf8_of(r)[n as int] == utf8_char(c)[0]);
        if v >= 0x80 {
            vstd::utf8::char_is_scalar(c);
            assert(v <= 0x10FFFF);
            if v < 0x800 {
                assert(0xC0 + v / 64 < 0x100);
            } else if v < 0x10000 {
                assert(0xE0 + v / 4096 < 0x100);
            } else {
                assert(0xF0 + v / 262144 < 0x100);
            }
            assert(utf8_char(c)[0] >= 0x80);
            assert(utf8_of(r)[n as int] < 0x80);
        }
        assert(v < 0x80);
        assert(utf8_char(c) =~= seq![(c as u32) as u8]);
        assert(utf8_of(r).len() == r.len());
        assert forall|i: int| 0 <= i < r.len() implies (#[trigger] r[i] as u32) < 0x80 by {
            if i < p.len() {
                assert(utf8_of(p)[i] == (p[i] as u32) as u8);
                assert(r[i] == p[i]);
            } else {
                assert(i == n && r[i] == c);
            }
        }
        assert forall|i: int| 0 <= i < r.len() implies #[trigger] utf8_of(r)[i] == (r[i] as u32) as u8 by {
            if i < p.len() {
                assert(utf8_of(r)[i] == utf8_of(p)[i]);
                assert(r[i] == p[i]);
            } else {
                assert(i == n && r[i] == c);
            }
        }
    }
}

/// The first position where `needle` occurs in `hay`.
pub open spec fn find_bytes(hay: Seq<u8>, needle: Seq<u8>, k: int) -> Option<int>
    decreases hay.len() - k,
{
    if k < 0 || k + needle.len() > hay.len() {
        None
    } else if hay.subrange(k, k + needle.len()) == needle {
        Some(k)
    } else if k >= hay.len() {
        None
    } else {
        find_bytes(hay, needle, k + 1)
    }
}

/// The first position of a non-empty `needle` in `haystack`.
pub fn find_subslice(haystack: &[u8], needle: &[u8]) -> (r: Option<usize>)
    requires
        needle@.len() > 0,
    ensures
        match r {
            Some(i) => find_bytes(haystack@, needle@, 0) == Some(i as int),
            None => find_bytes(haystack@, needle@, 0) is None,
        },
{
    if needle.len() > haystack.len() {
        return None;
    }
    let last = haystack.len() - needle.len();
    let mut k: usize = 0;
    loop
        invariant
            k <= last,
            last == haystack@.len() - needle@.len(),
            needle@.len() > 0,
            find_bytes(haystack@, needle@, 0) == find_bytes(haystack@, needle@, k as int),
        decreases last - k,
    {
        let mut j: usize = 0;
        let mut same = true;
        while j < needle.len()
            invariant
                j <= needle@.len(),
                k + needle.len() <= haystack.len(),
                same == (forall|t: int| 0 <= t < j ==> haystack@[k + t] == needle@[t]),
            decreases needle.len() - j,
        {
            if haystack[k + j] != needle[j] {
                same = false;
            }
            j = j + 1;
        }
        if same {
            assert(haystack@.subrange(k as int, k + needle@.len()) =~= needle@);
            return Some(k);
        }
        assert(haystack@.subrange(k as int, k + needle@.len()) != needle@) by {
            let t = choose|t: int| 0 <= t < needle@.len() && haystack@[k + t] != needle@[t];
            assert(haystack@.subrange(k as int, k + needle@.len())[t] != needle@[t]);
        }
        if k == last {
            assert(find_bytes(haystack@, needle@, k + 1) is None);
            return None;
        }
        k = k + 1;
    }
}

/// Whether enough of a request has arrived to read its request line: a line break was received,
/// or the size limit was reached.
pub fn request_line_ready(buf: &[u8]) -> (b: bool)
    ensures
        b == (find_bytes(buf@, seq![13u8, 10u8], 0) is Some || buf@.len() >= MAX_REQUEST_BYTES),
{
    let crlf: [u8; 2] = [13, 10];
    assert(crlf@ =~= seq![13u8, 10u8]);
    find_subslice(buf, &crlf).is_some() || buf.len() >= MAX_REQUEST_BYTES
}

// ---- the redirect callback -------------------------------------------------------------

/// `s` split at every `c` (what `str::split` gives).
pub open spec fn split_on(s: Seq<char>, c: char) -> Seq<Seq<char>>
    decreases s.len(),
{
    match last_index_of(s, c) {
        Some(i) => {
            proof {
                lemma_last_index_bound(s, c);
            }
            split_on(s.take(i), c).push(s.skip(i + 1))
        },
        None => seq![s],
    }
}

/// The raw value of the last `key=value` pair whose key is `key` (later pairs override earlier
/// ones; a pair without `=` is skipped).
pub open spec fn field_raw(pairs: Seq<Seq<char>>, key: Seq<char>) -> Option<Seq<char>>
    decreases pairs.len(),
{
    if pairs.len() == 0 {
        None
    } else {
        let p = pairs.last();
        match index_of(p, '=') {
            Some(j) => if p.take(j) == key { Some(p.skip(j + 1)) } else { field_raw(pairs.drop_last(), key) },
            None => field_raw(pairs.drop_last(), key),
        }
    }
}

/// The query of a request target: what follows the first `?` (empty when there is none).
pub open spec fn query_of(target: Seq<char>) -> Seq<char> {
    match index_of(target, '?') {
        Some(i) => target.skip(i + 1),
        None => Seq::empty(),
    }
}

/// The decoded value of query field `key` in a request target.
pub open spec fn callback_field(target: Seq<char>, key: Seq<char>) -> Option<Seq<char>> {
    match field_raw(split_on(query_of(target), '&'), key) {
        Some(v) => Some(percent_decode_spec(v)),
        None => None,
    }
}

/// The values read from the callback's query.
#[derive(Debug)]
pub struct Callback {
    pub code: Option<String>,
    pub state: Option<String>,
    pub error: Option<String>,
}

/// The view of an optional string.
pub open spec fn opt_chars(s: Option<String>) -> Option<Seq<char>> {
    match s {
        Some(x) => Some(x@),
        None => None,
    }
}

fn split_pieces(v: &[char], c: char) -> (r: Vec<Vec<char>>)
    ensures
        r@.map_values(|x: Vec<char>| x@) == split_on(v@, c),
    decreases v@.len(),
{
    match last_index_of_char(v, c) {
        Some(i) => {
            proof {
                lemma_last_index_bound(v@, c);
            }
            let n = v.len();
            assert(i < n);
            let head = slice_range(v, 0, i);
            assert(head@ =~= v@.take(i as int));
            let mut r = split_pieces(&head, c);
            let tail = slice_range(v, i + 1, n);
            assert(tail@ =~= v@.skip(i + 1));
            let ghost before = r@;
            r.push(tail);
            assert(r@.map_values(|x: Vec<char>| x@) =~= before.map_values(|x: Vec<char>| x@).push(tail@));
            r
        },
        None => {
            let whole = slice_range(v, 0, v.len());
            assert(whole@ =~= v@);
            let r = vec![whole];
            assert(r@.map_values(|x: Vec<char>| x@) =~= seq![v@]);
            r
        },
    }
}

/// Parse the query of a callback target such as `/callback?code=…&state=…&error=…`.
pub fn parse_callback(target: &str) -> (cb: Callback)
    ensures
        opt_chars(cb.code) == callback_field(target@, "code"@),
        opt_chars(cb.state) == callback_field(target@, "state"@),
        opt_chars(cb.error) == callback_field(target@, "error"@),
{
    let t = chars_of(target);
    let query = match index_of_char(&t, '?') {
        Some(i) => {
            proof {
                lemma_find_from_bound(t@, seq!['?'], 0);
                assert(find_from(t@, seq!['?'], 0) == Some(i as int));
            }
            assert(i < t.len());
            let q = slice_range(&t, i + 1, t.len());
            assert(q@ =~= t@.skip(i + 1));
            q
        },
        None => {
            let q: Vec<char> = Vec::new();
            assert(q@ =~= Seq::<char>::empty());
            q
        },
    };
    assert(query@ == query_of(target@));
    let pairs = split_pieces(&query, '&');
    let ghost pv = pairs@.map_values(|x: Vec<char>| x@);
    proof {
        reveal_strlit("code");
        reveal_strlit("state");
        reveal_strlit("error");
    }
    let key_code = chars_of("code");
    let key_state = chars_of("state");
    let key_error = chars_of("error");
    let mut code: Option<Vec<char>> = None;
    let mut state: Option<Vec<char>> = None;
    let mut error: Option<Vec<char>> = None;
    let mut i: usize = 0;
    while i < pairs.len()
        invariant
            i <= pairs@.len(),
            pv == pairs@.map_values(|x: Vec<char>| x@),
            key_code@ == "code"@,
            key_state@ == "state"@,
            key_error@ == "error"@,
            match code { Some(v) => field_raw(pv.take(i as int), "code"@) == Some(v@), None => field_raw(pv.take(i as int), "code"@) is None },
            match state { Some(v) => field_raw(pv.take(i as int), "state"@) == Some(v@), None => field_raw(pv.take(i as int), "state"@) is None },
            match error { Some(v) => field_raw(pv.take(i as int), "error"@) == Some(v@), None => field_raw(pv.take(i as int), "error"@) is None },
        decreases pairs.len() - i,
    {
        let p = &pairs[i];
        proof {
            reveal_strlit("code");
            reveal_strlit("state");
            reveal_strlit("error");
            assert("state"@[0] != "error"@[0]);
            assert("code"@.len() != "error"@.len());
        }
        assert(pv.take(i + 1).drop_last() =~= pv.take(i as int));
        assert(pv.take(i + 1).last() == p@);
        match index_of_char(p, '=') {
            Some(j) => {
                proof {
                    lemma_find_from_bound(p@, seq!['='], 0);
                    assert(find_from(p@, seq!['='], 0) == Some(j as int));
                }
                assert(j < p.len());
                let key = slice_range(p, 0, j);
                assert(key@ =~= p@.take(j as int));
                let value = slice_range(p, j + 1, p.len());
                assert(value@ =~= p@.skip(j + 1));
                if chars_eq(&key, &key_code) {
                    code = Some(value);
                } else if chars_eq(&key, &key_state) {
                    state = Some(value);
                } else if chars_eq(&key, &key_error) {
                    error = Some(value);
                }
            },
            None => {},
        }
        i = i + 1;
    }
    assert(pv.take(pairs@.len() as int) =~= pv);
    let code = match code {
        Some(v) => Some(percent_decode(crate::text::string_of(&v).as_str())),
        None => None,
    };
    let state = match state {
        Some(v) => Some(percent_decode(crate::text::string_of(&v).as_str())),
        None => None,
    };
    let error = match error {
        Some(v) => Some(percent_decode(crate::text::string_of(&v).as_str())),
        None => None,
    };
    Callback { code, state, error }
}

/// What to do with a callback.
#[derive(Debug)]
pub enum Decision {
    /// The authorization code, for the expected state.
    Code(String),
    /// An authorization error for the expected state (e.g. the user denied access).
    Denied(String),
    /// An unrelated or incomplete request (keep listening).
    Ignore,
}

/// Judge a callback: a state mismatch is ignored; for the expected state an error is a denial,
/// else the code is taken, and a request with neither is ignored.
pub fn decide(cb: &Callback, expected_state: &str) -> (d: Decision)
    ensures
        opt_chars(cb.state) != Some(expected_state@) ==> d is Ignore,
        opt_chars(cb.state) == Some(expected_state@) ==> match cb.error {
            Some(e) => d matches Decision::Denied(x) && x == e,
            None => match cb.code {
                Some(c) => d matches Decision::Code(x) && x == c,
                None => d is Ignore,
            },
        },
{
    let matches_state = match &cb.state {
        Some(s) => chars_eq(&chars_of(s.as_str()), &chars_of(expected_state)),
        None => false,
    };
    if !matches_state {
        return Decision::Ignore;
    }
    match &cb.error {
        Some(e) => Decision::Denied(e.clone()),
        None => match &cb.code {
            Some(c) => Decision::Code(c.clone()),
            None => Decision::Ignore,
        },
    }
}

/// The first line of a request (`str::lines().next()`): up to the first `\n`, without a `\r`
/// before it; `None` for an empty request.
pub open spec fn first_line(s: Seq<char>) -> Option<Seq<char>> {
    if s.len() == 0 {
        None
    } else {
        match index_of(s, '\n') {
            Some(k) => {
                let l = s.take(k);
                Some(if l.len() > 0 && l.last() == '\r' { l.drop_last() } else { l })
            },
            None => Some(s),
        }
    }
}

/// The target of a request: the second word of its first line.
pub open spec fn request_target(s: Seq<char>) -> Option<Seq<char>> {
    match first_line(s) {
        Some(l) => second_word(l),
        None => None,
    }
}

/// The path of a target: up to the first `?`.
pub open spec fn target_path(t: Seq<char>) -> Seq<char> {
    match index_of(t, '?') {
        Some(i) => t.take(i),
        None => t,
    }
}

/// How the redirect listener answers one request.
#[derive(Debug)]
pub enum RequestOutcome {
    /// No target could be read: answer 400.
    BadRequest,
    /// Another path: answer 404.
    NotFound,
    /// The callback for our state with a code: report success and finish.
    Code(String),
    /// The callback for our state with an error: report failure and stop.
    Denied(String),
    /// Another state, or no code: answer 400 and keep listening.
    Ignore,
}

/// Judge one request that reached the redirect listener.
pub fn classify_request(request: &str, expected_state: &str, expected_path: &str) -> (o: RequestOutcome)
    ensures
        match request_target(request@) {
            None => o is BadRequest,
            Some(t) => if target_path(t) != expected_path@ {
                o is NotFound
            } else {
                let st = callback_field(t, "state"@);
                let er = callback_field(t, "error"@);
                let co = callback_field(t, "code"@);
                if st != Some(expected_state@) {
                    o is Ignore
                } else {
                    match er {
                        Some(e) => o matches RequestOutcome::Denied(x) && x@ == e,
                        None => match co {
                            Some(c) => o matches RequestOutcome::Code(x) && x@ == c,
                            None => o is Ignore,
                        },
                    }
                }
            },
        },
{
    let s = chars_of(request);
    if s.len() == 0 {
        return RequestOutcome::BadRequest;
    }
    let line = match index_of_char(&s, '\n') {
        Some(k) => {
            proof {
                lemma_find_from_bound(s@, seq!['\n'], 0);
            }
            let l = slice_range(&s, 0, k);
            if l.len() > 0 && l[l.len() - 1] == '\r' {
                let m = slice_range(&l, 0, l.len() - 1);
                assert(m@ =~= l@.drop_last());
                m
            } else {
                assert(l@ =~= s@.take(k as int));
                l
            }
        },
        None => {
            let l = slice_range(&s, 0, s.len());
            assert(l@ =~= s@);
            l
        },
    };
    assert(first_line(request@) == Some(line@));
    let target = match second_word_of(&line) {
        Some(t) => t,
        None => return RequestOutcome::BadRequest,
    };
    let path = match index_of_char(&target, '?') {
        Some(i) => {
            proof {
                lemma_find_from_bound(target@, seq!['?'], 0);
            }
            slice_range(&target, 0, i)
        },
        None => {
            let p = slice_range(&target, 0, target.len());
            assert(p@ =~= target@);
            p
        },
    };
    assert(path@ =~= target_path(target@));
    if !chars_eq(&path, &chars_of(expected_path)) {
        return RequestOutcome::NotFound;
    }
    let ts = crate::text::string_of(&target);
    let cb = parse_callback(ts.as_str());
    match decide(&cb, expected_state) {
        Decision::Code(c) => RequestOutcome::Code(c),
        Decision::Denied(e) => RequestOutcome::Denied(e),
        Decision::Ignore => RequestOutcome::Ignore,
    }
}

/// The error a denied authorization ends the login with.
pub fn denied_error(err: &str) -> (r: String)
    ensures
        r@ == "Spotify returned an authorization error: "@ + err@,
{
    let mut r = String::from_str("Spotify returned an authorization error: ");
    push_str(&mut r, err);
    r
}

/// The HTML page reporting success or failure to the browser (the message is a fixed string).
pub open spec fn html_body(message: Seq<char>) -> Seq<char> {
    "<!doctype html><meta charset=utf-8><h2>"@ + message + "</h2>"@
}

/// A `200 OK` response carrying the page for `message`.
pub fn html_response(message: &str) -> (r: String)
    ensures
        r@ == "HTTP/1.1 200 OK\r\nContent-Type: text/html; charset=utf-8\r\nContent-Length: "@
            + decimal(utf8_of(html_body(message@)).len()) + "\r\nConnection: close\r\n\r\n"@ + html_body(message@),
{
    let mut body = String::from_str("<!doctype html><meta charset=utf-8><h2>");
    push_str(&mut body, message);
    push_str(&mut body, "</h2>");
    let n = utf8_bytes(body.as_str()).len();
    let mut r = String::from_str("HTTP/1.1 200 OK\r\nContent-Type: text/html; charset=utf-8\r\nContent-Length: ");
    push_decimal(&mut r, n as u128);
    push_str(&mut r, "\r\nConnection: close\r\n\r\n");
    push_str(&mut r, body.as_str());
    r
}

/// A response with a status and no body.
pub fn status_response(code: u16, reason: &str) -> (r: String)
    ensures
        r@ == "HTTP/1.1 "@ + decimal(code as nat) + " "@ + reason@ + "\r\nContent-Length: 0\r\nConnection: close\r\n\r\n"@,
{
    let mut r = String::from_str("HTTP/1.1 ");
    push_decimal(&mut r, code as u128);
    push_str(&mut r, " ");
    push_str(&mut r, reason);
    push_str(&mut r, "\r\nContent-Length: 0\r\nConnection: close\r\n\r\n");
    r
}


/// Refreshing never loses the refresh token: when one was held before, one is held after.
pub proof fn lemma_refresh_token_kept(refreshed: Option<String>, previous: Option<String>)
    ensures
        previous is Some ==> (if refreshed is Some { refreshed } else { previous }) is Some,
        refreshed is Some ==> (if refreshed is Some { refreshed } else { previous }) == refreshed,
{
}

/// Text without `%` and `+` bytes is left as it is by the decoding.
pub proof fn lemma_decode_plain_bytes(b: Seq<u8>)
    requires
        forall|i: int| 0 <= i < b.len() ==> b[i] != 37 && b[i] != 43,
    ensures
        decode_bytes(b) == b,
    decreases b.len(),
{
    if b.len() > 0 {
        lemma_decode_plain_bytes(b.skip(1));
        assert(seq![b[0]] + b.skip(1) =~= b);
    }
}

} // verus!
