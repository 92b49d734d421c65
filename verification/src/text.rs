//! Character-level helpers shared by the formatting and parsing code: conversions between
//! strings and character vectors, decimal rendering, whitespace trimming and substring search.

use vstd::prelude::*;

verus! {

// ---- conversions ------------------------------------------------------------

/// Collect the characters of a string slice.
pub fn chars_of(s: &str) -> (v: Vec<char>)
    ensures
        v@ == s@,
{
    let mut v: Vec<char> = Vec::new();
    for c in it: s.chars()
        invariant
            v@ == it.seq().take(it.index() as int),
    {
        v.push(c);
    }
    v
}

/// `String::push`: append one character.
#[verifier::external_body]
pub(crate) fn push_char(s: &mut String, c: char)
    ensures
        final(s)@ == old(s)@.push(c),
{
    s.push(c);
}

/// Append every character of `v` to `s`.
pub fn push_chars(s: &mut String, v: &[char])
    ensures
        final(s)@ == old(s)@ + v@,
{
    let ghost start = s@;
    let mut i: usize = 0;
    while i < v.len()
        invariant
            i <= v.len(),
            s@ == start + v@.take(i as int),
        decreases v.len() - i,
    {
        push_char(s, v[i]);
        assert(v@.take(i as int).push(v@[i as int]) =~= v@.take(i + 1));
        i = i + 1;
    }
    assert(v@.take(v.len() as int) =~= v@);
}

/// Build a string from characters.
pub fn string_of(v: &[char]) -> (s: String)
    ensures
        s@ == v@,
{
    let mut s = String::new();
    push_chars(&mut s, v);
    s
}

// ---- decimal rendering ------------------------------------------------------

/// The ASCII digit for `d` (`0 <= d < 10`).
pub open spec fn digit_char(d: nat) -> char {
    (48 + d) as char
}

/// Decimal representation of `n` without leading zeros (`"0"` for zero).
pub open spec fn decimal(n: nat) -> Seq<char>
    decreases n,
{
    if n < 10 {
        seq![digit_char(n)]
    } else {
        decimal(n / 10).push(digit_char(n % 10))
    }
}

/// Decimal representation padded with one leading zero to at least two digits.
pub open spec fn pad2(n: nat) -> Seq<char> {
    if n < 10 {
        seq!['0'].add(decimal(n))
    } else {
        decimal(n)
    }
}

fn digit(d: u128) -> (c: char)
    requires
        d < 10,
    ensures
        c == digit_char(d as nat),
{
    match d {
        0 => '0',
        1 => '1',
        2 => '2',
        3 => '3',
        4 => '4',
        5 => '5',
        6 => '6',
        7 => '7',
        8 => '8',
        _ => '9',
    }
}

/// Append the decimal representation of `n`.
pub fn push_decimal(s: &mut String, n: u128)
    ensures
        final(s)@ == old(s)@ + decimal(n as nat),
    decreases n,
{
    if n >= 10 {
        push_decimal(s, n / 10);
    }
    push_char(s, digit(n % 10));
    assert(n >= 10 ==> decimal(n as nat) == decimal((n / 10) as nat).push(digit_char((n % 10) as nat)));
}

/// Append `n` padded to two digits.
pub fn push_pad2(s: &mut String, n: u128)
    ensures
        final(s)@ == old(s)@ + pad2(n as nat),
{
    if n < 10 {
        push_char(s, '0');
    }
    push_decimal(s, n);
}

// ---- literal helpers --------------------------------------------------------

/// Append a string slice.
pub fn push_str(s: &mut String, t: &str)
    ensures
        final(s)@ == old(s)@ + t@,
{
    s.append(t);
}

// ---- joining ----------------------------------------------------------------

/// The views of a list of strings.
pub open spec fn views(parts: Seq<String>) -> Seq<Seq<char>> {
    parts.map_values(|p: String| p@)
}

/// `parts` joined with `sep` between neighbours (what `[String]::join` gives).
pub open spec fn join_spec(parts: Seq<Seq<char>>, sep: Seq<char>) -> Seq<char>
    decreases parts.len(),
{
    if parts.len() == 0 {
        Seq::empty()
    } else if parts.len() == 1 {
        parts[0]
    } else {
        join_spec(parts.drop_last(), sep) + sep + parts.last()
    }
}

/// Join strings with a separator.
pub fn join(parts: &[String], sep: &str) -> (r: String)
    ensures
        r@ == join_spec(views(parts@), sep@),
{
    let ghost vs = views(parts@);
    let mut r = String::new();
    let mut i: usize = 0;
    while i < parts.len()
        invariant
            i <= parts.len(),
            vs == views(parts@),
            r@ == join_spec(vs.take(i as int), sep@),
        decreases parts.len() - i,
    {
        assert(vs.take(i + 1).drop_last() =~= vs.take(i as int));
        assert(vs.take(i + 1).last() == parts@[i as int]@);
        if i > 0 {
            push_str(&mut r, sep);
        } else {
            assert(vs.take(0) =~= Seq::<Seq<char>>::empty());
        }
        push_str(&mut r, parts[i].as_str());
        i = i + 1;
    }
    assert(vs.take(parts.len() as int) =~= vs);
    r
}

// ---- whitespace -------------------------------------------------------------

/// Whether `c` has the Unicode `White_Space` property (what `char::is_whitespace` answers): the
/// ASCII tab, line feed, vertical tab, form feed, carriage return and space, and U+0085, U+00A0,
/// U+1680, U+2000..=U+200A, U+2028, U+2029, U+202F, U+205F and U+3000.
pub open spec fn is_white(c: char) -> bool {
    let v = c as u32;
    (0x09 <= v && v <= 0x0D) || v == 0x20 || v == 0x85 || v == 0xA0 || v == 0x1680
        || (0x2000 <= v && v <= 0x200A) || v == 0x2028 || v == 0x2029 || v == 0x202F
        || v == 0x205F || v == 0x3000
}

/// Whether `c` is whitespace (the `White_Space` property).
pub fn char_is_whitespace(c: char) -> (b: bool)
    ensures
        b == is_white(c),
{
    let v = c as u32;
    (0x09 <= v && v <= 0x0D) || v == 0x20 || v == 0x85 || v == 0xA0 || v == 0x1680
        || (0x2000 <= v && v <= 0x200A) || v == 0x2028 || v == 0x2029 || v == 0x202F
        || v == 0x205F || v == 0x3000
}

/// Number of leading whitespace characters.
pub open spec fn lead_ws(s: Seq<char>) -> nat
    decreases s.len(),
{
    if s.len() > 0 && is_white(s[0]) {
        1 + lead_ws(s.drop_first())
    } else {
        0
    }
}

/// Number of trailing whitespace characters.
pub open spec fn trail_ws(s: Seq<char>) -> nat
    decreases s.len(),
{
    if s.len() > 0 && is_white(s.last()) {
        1 + trail_ws(s.drop_last())
    } else {
        0
    }
}

/// `s` without its leading whitespace (what `str::trim_start` gives).
pub open spec fn trim_start_spec(s: Seq<char>) -> Seq<char> {
    s.skip(lead_ws(s) as int)
}

/// `s` without leading and trailing whitespace (what `str::trim` gives).
pub open spec fn trim_spec(s: Seq<char>) -> Seq<char> {
    let t = trim_start_spec(s);
    t.take(t.len() - trail_ws(t))
}

proof fn lemma_lead_ws_bound(s: Seq<char>)
    ensures
        lead_ws(s) <= s.len(),
    decreases s.len(),
{
    if s.len() > 0 && is_white(s[0]) {
        lemma_lead_ws_bound(s.drop_first());
    }
}

proof fn lemma_trail_ws_bound(s: Seq<char>)
    ensures
        trail_ws(s) <= s.len(),
    decreases s.len(),
{
    if s.len() > 0 && is_white(s.last()) {
        lemma_trail_ws_bound(s.drop_last());
    }
}

/// Index of the first non-whitespace character at or after `i`.
fn skip_ws(v: &[char]) -> (k: usize)
    ensures
        k == lead_ws(v@),
{
    let mut i: usize = 0;
    assert(v@.skip(0) =~= v@);
    while i < v.len() && char_is_whitespace(v[i])
        invariant
            i <= v.len(),
            lead_ws(v@) == i + lead_ws(v@.skip(i as int)),
        decreases v.len() - i,
    {
        assert(v@.skip(i as int).drop_first() =~= v@.skip(i + 1));
        i = i + 1;
    }
    proof {
        if i < v.len() {
            assert(v@.skip(i as int)[0] == v@[i as int]);
        }
    }
    i
}

/// Count of trailing whitespace characters.
fn count_trailing_ws(v: &[char]) -> (k: usize)
    ensures
        k == trail_ws(v@),
{
    let mut n: usize = v.len();
    assert(v@.take(v.len() as int) =~= v@);
    while n > 0 && char_is_whitespace(v[n - 1])
        invariant
            n <= v.len(),
            trail_ws(v@) == (v.len() - n) + trail_ws(v@.take(n as int)),
        decreases n,
    {
        assert(v@.take(n as int).drop_last() =~= v@.take(n - 1));
        assert(v@.take(n as int).last() == v@[n - 1]);
        n = n - 1;
    }
    proof {
        if n > 0 {
            assert(v@.take(n as int).last() == v@[n - 1]);
        }
    }
    v.len() - n
}

/// Characters of `s` with leading whitespace removed.
pub fn trim_start(v: &[char]) -> (r: Vec<char>)
    ensures
        r@ == trim_start_spec(v@),
{
    let k = skip_ws(v);
    proof {
        lemma_lead_ws_bound(v@);
    }
    slice_range(v, k, v.len())
}

/// Characters of `s` with leading and trailing whitespace removed.
pub fn trim(v: &[char]) -> (r: Vec<char>)
    ensures
        r@ == trim_spec(v@),
{
    let t = trim_start(v);
    let k = count_trailing_ws(&t);
    proof {
        lemma_trail_ws_bound(t@);
    }
    slice_range(&t, 0, t.len() - k)
}

/// Copy `v[from..to]`.
pub fn slice_range(v: &[char], from: usize, to: usize) -> (r: Vec<char>)
    requires
        from <= to <= v.len(),
    ensures
        r@ == v@.subrange(from as int, to as int),
{
    let mut r: Vec<char> = Vec::new();
    let mut i = from;
    while i < to
        invariant
            from <= i <= to <= v.len(),
            r@ == v@.subrange(from as int, i as int),
        decreases to - i,
    {
        r.push(v[i]);
        assert(v@.subrange(from as int, i as int).push(v@[i as int]) =~= v@.subrange(
            from as int,
            i + 1,
        ));
        i = i + 1;
    }
    r
}

// ---- searching --------------------------------------------------------------

/// `needle` occurs in `hay` starting at `k`.
pub open spec fn occurs_at(hay: Seq<char>, needle: Seq<char>, k: int) -> bool {
    0 <= k && k + needle.len() <= hay.len() && hay.subrange(k, k + needle.len()) == needle
}

/// `needle` occurs somewhere in `hay` (what `str::contains` answers).
pub open spec fn contains_spec(hay: Seq<char>, needle: Seq<char>) -> bool {
    exists|k: int| occurs_at(hay, needle, k)
}

/// `hay` begins with `prefix`.
pub open spec fn starts_with_spec(hay: Seq<char>, prefix: Seq<char>) -> bool {
    prefix.len() <= hay.len() && hay.take(prefix.len() as int) == prefix
}

/// `hay` ends with `suffix`.
pub open spec fn ends_with_spec(hay: Seq<char>, suffix: Seq<char>) -> bool {
    suffix.len() <= hay.len() && hay.skip(hay.len() - suffix.len()) == suffix
}

/// Whether `needle` matches `hay` at position `k`.
fn matches_at(hay: &[char], needle: &[char], k: usize) -> (b: bool)
    requires
        k + needle.len() <= hay.len(),
    ensures
        b == (hay@.subrange(k as int, k + needle.len()) == needle@),
{
    let mut j: usize = 0;
    while j < needle.len()
        invariant
            j <= needle.len(),
            k + needle.len() <= hay.len(),
            forall|t: int| 0 <= t < j ==> hay@[k + t] == needle@[t],
        decreases needle.len() - j,
    {
        if hay[k + j] != needle[j] {
            assert(hay@.subrange(k as int, k + needle.len())[j as int] != needle@[j as int]);
            return false;
        }
        j = j + 1;
    }
    assert(hay@.subrange(k as int, k + needle.len()) =~= needle@);
    true
}

/// Substring search.
pub fn contains(hay: &[char], needle: &[char]) -> (b: bool)
    ensures
        b == contains_spec(hay@, needle@),
{
    if needle.len() > hay.len() {
        return false;
    }
    let last = hay.len() - needle.len();
    let mut k: usize = 0;
    loop
        invariant
            k <= last,
            last == hay.len() - needle.len(),
            forall|t: int| 0 <= t < k ==> !occurs_at(hay@, needle@, t),
        decreases last - k,
    {
        if matches_at(hay, needle, k) {
            assert(occurs_at(hay@, needle@, k as int));
            return true;
        }
        if k == last {
            assert forall|t: int| !occurs_at(hay@, needle@, t) by {
                if 0 <= t && t + needle@.len() <= hay@.len() {
                    assert(t <= last);
                }
            }
            return false;
        }
        k = k + 1;
    }
}

/// Prefix test.
pub fn starts_with(hay: &[char], prefix: &[char]) -> (b: bool)
    ensures
        b == starts_with_spec(hay@, prefix@),
{
    if prefix.len() > hay.len() {
        return false;
    }
    let b = matches_at(hay, prefix, 0);
    assert(hay@.subrange(0, prefix.len() as int) =~= hay@.take(prefix.len() as int));
    b
}

/// Suffix test.
pub fn ends_with(hay: &[char], suffix: &[char]) -> (b: bool)
    ensures
        b == ends_with_spec(hay@, suffix@),
{
    if suffix.len() > hay.len() {
        return false;
    }
    let k = hay.len() - suffix.len();
    let b = matches_at(hay, suffix, k);
    assert(hay@.subrange(k as int, hay.len() as int) =~= hay@.skip(k as int));
    b
}

/// Element-wise equality of two character slices.
pub fn chars_eq(a: &[char], b: &[char]) -> (r: bool)
    ensures
        r == (a@ == b@),
{
    if a.len() != b.len() {
        return false;
    }
    let r = matches_at(a, b, 0);
    assert(a@.subrange(0, b.len() as int) =~= a@);
    r
}

/// The first position at or after `k` where `needle` occurs (what `str::find` gives when searching
/// from `k`).
pub open spec fn find_from(hay: Seq<char>, needle: Seq<char>, k: int) -> Option<int>
    decreases hay.len() - k,
{
    if k < 0 || k + needle.len() > hay.len() {
        None
    } else if occurs_at(hay, needle, k) {
        Some(k)
    } else if k >= hay.len() {
        None
    } else {
        find_from(hay, needle, k + 1)
    }
}

/// Search for `needle` in `hay` from position `k`.
pub fn find_at(hay: &[char], needle: &[char], k: usize) -> (r: Option<usize>)
    ensures
        match r {
            Some(i) => find_from(hay@, needle@, k as int) == Some(i as int),
            None => find_from(hay@, needle@, k as int) is None,
        },
    decreases hay.len() - k,
{
    if k > hay.len() || needle.len() > hay.len() - k {
        return None;
    }
    if matches_at(hay, needle, k) {
        return Some(k);
    }
    if k == hay.len() {
        return None;
    }
    find_at(hay, needle, k + 1)
}

/// The first position of `c` in `s`.
pub open spec fn index_of(s: Seq<char>, c: char) -> Option<int> {
    find_from(s, seq![c], 0)
}

/// The last position of `c` in `s` (what `str::rfind` gives).
pub open spec fn last_index_of(s: Seq<char>, c: char) -> Option<int>
    decreases s.len(),
{
    if s.len() == 0 {
        None
    } else if s.last() == c {
        Some(s.len() - 1)
    } else {
        last_index_of(s.drop_last(), c)
    }
}

/// The first position of `c` in `v`.
pub fn index_of_char(v: &[char], c: char) -> (r: Option<usize>)
    ensures
        match r {
            Some(i) => index_of(v@, c) == Some(i as int),
            None => index_of(v@, c) is None,
        },
{
    let needle = vec![c];
    assert(needle@ =~= seq![c]);
    find_at(v, needle.as_slice(), 0)
}

/// The last position of `c` in `v`.
pub fn last_index_of_char(v: &[char], c: char) -> (r: Option<usize>)
    ensures
        match r {
            Some(i) => last_index_of(v@, c) == Some(i as int),
            None => last_index_of(v@, c) is None,
        },
{
    let mut n: usize = v.len();
    assert(v@.take(n as int) =~= v@);
    while n > 0
        invariant
            n <= v.len(),
            last_index_of(v@, c) == last_index_of(v@.take(n as int), c),
        decreases n,
    {
        assert(v@.take(n as int).drop_last() =~= v@.take(n - 1));
        if v[n - 1] == c {
            return Some(n - 1);
        }
        n = n - 1;
    }
    None
}

/// Number of leading characters that are not whitespace.
pub open spec fn lead_word(s: Seq<char>) -> nat
    decreases s.len(),
{
    if s.len() > 0 && !is_white(s[0]) {
        1 + lead_word(s.drop_first())
    } else {
        0
    }
}

proof fn lemma_lead_word_bound(s: Seq<char>)
    ensures
        lead_word(s) <= s.len(),
    decreases s.len(),
{
    if s.len() > 0 && !is_white(s[0]) {
        lemma_lead_word_bound(s.drop_first());
    }
}

/// The second whitespace-separated word of `s` (what `s.split_whitespace().nth(1)` gives).
pub open spec fn second_word(s: Seq<char>) -> Option<Seq<char>> {
    let t = trim_start_spec(s);
    let rest = trim_start_spec(t.skip(lead_word(t) as int));
    if t.len() == 0 || rest.len() == 0 {
        None
    } else {
        Some(rest.take(lead_word(rest) as int))
    }
}

/// Length of the leading non-whitespace run of `v`.
fn word_len(v: &[char]) -> (k: usize)
    ensures
        k == lead_word(v@),
{
    let mut i: usize = 0;
    assert(v@.skip(0) =~= v@);
    while i < v.len() && !char_is_whitespace(v[i])
        invariant
            i <= v.len(),
            lead_word(v@) == i + lead_word(v@.skip(i as int)),
        decreases v.len() - i,
    {
        assert(v@.skip(i as int).drop_first() =~= v@.skip(i + 1));
        i = i + 1;
    }
    i
}

/// The second whitespace-separated word of `v`, if any.
pub fn second_word_of(v: &[char]) -> (r: Option<Vec<char>>)
    ensures
        match r {
            Some(w) => second_word(v@) == Some(w@),
            None => second_word(v@) is None,
        },
{
    let t = trim_start(v);
    if t.len() == 0 {
        return None;
    }
    let k = word_len(&t);
    proof {
        lemma_lead_word_bound(t@);
    }
    let after = slice_range(&t, k, t.len());
    assert(after@ =~= t@.skip(k as int));
    let rest = trim_start(&after);
    if rest.len() == 0 {
        return None;
    }
    let k2 = word_len(&rest);
    proof {
        lemma_lead_word_bound(rest@);
    }
    let w = slice_range(&rest, 0, k2);
    assert(w@ =~= rest@.take(k2 as int));
    Some(w)
}

// ---- case mapping -----------------------------------------------------------

/// The result of `str::to_lowercase` (full Unicode lowercase mapping).
pub uninterp spec fn lower(s: Seq<char>) -> Seq<char>;

/// `str::to_lowercase`: every character maps to one or more characters (std's documentation), so
/// only the empty text lowers to the empty text.
#[verifier::external_body]
pub(crate) fn to_lowercase(s: &str) -> (r: String)
    ensures
        r@ == lower(s@),
        r@.len() == 0 <==> s@.len() == 0,
{
    s.to_lowercase()
}

} // verus!
