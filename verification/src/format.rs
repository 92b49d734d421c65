//! Formatting helpers on primitives: durations, artist lists, terminal display width and
//! width-aware truncation.

use vstd::prelude::*;

use crate::text::{
    chars_of, decimal, join, join_spec, pad2, push_char, push_chars, push_decimal, push_pad2,
    slice_range, views,
};

verus! {

/// `m:ss` rendering of a millisecond count (minutes keep counting past 60).
pub open spec fn format_ms_spec(ms: nat) -> Seq<char> {
    let secs = ms / 1000;
    decimal(secs / 60) + seq![':'] + pad2(secs % 60)
}

/// Format milliseconds as `m:ss` (keeps counting as `mm:ss` past 60 minutes).
pub fn format_ms(ms: u128) -> (r: String)
    ensures
        r@ == format_ms_spec(ms as nat),
{
    let total_secs = ms / 1000;
    let minutes = total_secs / 60;
    let seconds = total_secs % 60;
    let mut r = String::new();
    push_decimal(&mut r, minutes);
    push_char(&mut r, ':');
    push_pad2(&mut r, seconds);
    r
}

/// What `join_artists` shows for a list of names.
pub open spec fn join_artists_spec(names: Seq<Seq<char>>) -> Seq<char> {
    if names.len() == 0 {
        "(unknown artist)"@
    } else {
        join_spec(names, ", "@)
    }
}

/// Join artist names with `", "`. Returns a placeholder when the list is empty.
pub fn join_artists(names: &[String]) -> (r: String)
    ensures
        r@ == join_artists_spec(views(names@)),
{
    if names.len() == 0 {
        String::from_str("(unknown artist)")
    } else {
        join(names, ", ")
    }
}

// ---- display width ----------------------------------------------------------

/// The terminal column width of a string as `unicode-width` measures it
/// (`UnicodeWidthStr::width`).
pub uninterp spec fn str_width(s: Seq<char>) -> nat;

/// The column width of one character as `unicode-width` measures it
/// (`UnicodeWidthChar::width`; `None` for control characters).
pub uninterp spec fn char_width(c: char) -> Option<usize>;

/// Width of one character, with control characters counted as 0 columns.
pub open spec fn cw(c: char) -> nat {
    match char_width(c) {
        Some(w) => w as nat,
        None => 0,
    }
}

/// `UnicodeWidthStr::width` from the `unicode-width` crate.
#[verifier::external_body]
fn unicode_str_width(s: &str) -> (w: usize)
    ensures
        w == str_width(s@),
{
    unicode_width::UnicodeWidthStr::width(s)
}

/// `UnicodeWidthChar::width` from the `unicode-width` crate.
#[verifier::external_body]
fn unicode_char_width(c: char) -> (w: Option<usize>)
    ensures
        w == char_width(c),
{
    unicode_width::UnicodeWidthChar::width(c)
}

/// Display width (terminal columns) of a string. Full-width chars/emoji count as 2 columns,
/// matching how ratatui lays out the buffer.
pub fn display_width(s: &str) -> (w: usize)
    ensures
        w == str_width(s@),
{
    unicode_str_width(s)
}

/// How many leading characters of `s` fit into `budget` columns, taking characters greedily
/// and stopping at the first one that would cross the budget.
pub open spec fn fit_len(s: Seq<char>, budget: int) -> nat
    decreases s.len(),
{
    if s.len() == 0 || cw(s[0]) > budget {
        0
    } else {
        1 + fit_len(s.drop_first(), budget - cw(s[0]))
    }
}

/// What `truncate(s, max)` returns.
pub open spec fn truncate_spec(s: Seq<char>, max: nat) -> Seq<char> {
    if str_width(s) <= max {
        s
    } else if max == 0 {
        Seq::empty()
    } else {
        s.take(fit_len(s, max - 1) as int).push('…')
    }
}

proof fn lemma_fit_len_bound(s: Seq<char>, budget: int)
    ensures
        fit_len(s, budget) <= s.len(),
    decreases s.len(),
{
    if s.len() > 0 && cw(s[0]) <= budget {
        lemma_fit_len_bound(s.drop_first(), budget - cw(s[0]));
    }
}

/// Truncate with a trailing `…` when the display width exceeds `max` columns. Counts by column
/// width and reserves 1 column for the `…`. Stops before a full-width char that would cross the
/// budget (prevents column overflow).
pub fn truncate(s: &str, max: usize) -> (r: String)
    ensures
        r@ == truncate_spec(s@, max as nat),
{
    if display_width(s) <= max {
        return String::from_str(s);
    }
    if max == 0 {
        return String::new();
    }
    let budget = max - 1;
    let v = chars_of(s);
    let mut width: usize = 0;
    let mut i: usize = 0;
    assert(v@.skip(0) =~= v@);
    while i < v.len()
        invariant
            i <= v.len(),
            width <= budget,
            v@ == s@,
            fit_len(v@, budget as int) == i + fit_len(v@.skip(i as int), budget - width),
        ensures
            i <= v.len(),
            fit_len(v@, budget as int) == i,
        decreases v.len() - i,
    {
        let w = match unicode_char_width(v[i]) {
            Some(w) => w,
            None => 0,
        };
        assert(v@.skip(i as int)[0] == v@[i as int]);
        assert(w == cw(v@[i as int]));
        if w > budget - width {
            assert(fit_len(v@.skip(i as int), budget - width) == 0);
            break;
        }
        assert(v@.skip(i as int).drop_first() =~= v@.skip(i + 1));
        width = width + w;
        i = i + 1;
    }
    let head = slice_range(&v, 0, i);
    let mut r = String::new();
    push_chars(&mut r, &head);
    assert(v@.subrange(0, i as int) =~= v@.take(i as int));
    push_char(&mut r, '…');
    r
}


/// The total column width of `s`, character by character.
pub open spec fn char_cols(s: Seq<char>) -> nat
    decreases s.len(),
{
    if s.len() == 0 {
        0
    } else {
        cw(s[0]) + char_cols(s.drop_first())
    }
}

/// What truncation keeps before the `…` fits in the budget left for it: its characters take at
/// most `max - 1` columns.
pub proof fn lemma_truncation_fits(s: Seq<char>, budget: int)
    requires
        budget >= 0,
    ensures
        char_cols(s.take(fit_len(s, budget) as int)) <= budget,
    decreases s.len(),
{
    lemma_fit_len_bound(s, budget);
    if s.len() == 0 || cw(s[0]) > budget {
        assert(s.take(0) =~= Seq::<char>::empty());
    } else {
        let rest = s.drop_first();
        lemma_truncation_fits(rest, budget - cw(s[0]));
        let k = fit_len(s, budget) as int;
        assert(s.take(k).drop_first() =~= rest.take(k - 1));
        assert(s.take(k)[0] == s[0]);
    }
}


/// Whether the width of `t` is the sum of its characters' widths (true of `unicode-width` for text
/// without grapheme clusters such as emoji variation sequences, which are wider).
pub open spec fn adds_up(t: Seq<char>) -> bool {
    str_width(t) == char_cols(t)
}

/// Whether what truncating `s` can give, short of `s` itself, adds up: the empty text, and every
/// prefix of `s` with `…` appended.
pub open spec fn truncations_add_up(s: Seq<char>) -> bool {
    &&& adds_up(Seq::empty())
    &&& forall|k: int| 0 <= k <= s.len() ==> adds_up(#[trigger] s.take(k).push('…'))
}

/// The column count of a concatenation is the sum of the parts' column counts.
pub proof fn lemma_char_cols_concat(a: Seq<char>, b: Seq<char>)
    ensures
        char_cols(a + b) == char_cols(a) + char_cols(b),
    decreases a.len(),
{
    if a.len() == 0 {
        assert(a + b =~= b);
    } else {
        assert((a + b).drop_first() =~= a.drop_first() + b);
        assert((a + b)[0] == a[0]);
        lemma_char_cols_concat(a.drop_first(), b);
    }
}

/// Where the prefixes of `s` with `…` appended have additive widths and `…` takes one column, the
/// truncated text fits in `max` columns.
pub proof fn lemma_truncate_width(s: Seq<char>, max: nat)
    requires
        truncations_add_up(s),
        cw('…') == 1,
    ensures
        str_width(truncate_spec(s, max)) <= max,
        adds_up(s) ==> adds_up(truncate_spec(s, max)),
{
    let r = truncate_spec(s, max);
    if str_width(s) <= max {
    } else if max == 0 {
        assert(char_cols(Seq::<char>::empty()) == 0);
    } else {
        let head = s.take(fit_len(s, max - 1) as int);
        lemma_fit_len_bound(s, max - 1);
        assert(adds_up(s.take(fit_len(s, max - 1) as int).push('…')));
        lemma_truncation_fits(s, max - 1);
        assert(r =~= head + seq!['…']);
        lemma_char_cols_concat(head, seq!['…']);
        let e = seq!['…'];
        assert(e.drop_first() =~= Seq::<char>::empty());
        assert(char_cols(e.drop_first()) == 0);
        assert(e[0] == '…');
        assert(char_cols(e) == cw(e[0]) + char_cols(e.drop_first()));
    }
}


/// Where the `i`-th of `names` starts in their `", "`-joined text: the lengths of the names
/// before it, each followed by the two-character separator.
pub open spec fn joined_offset(names: Seq<Seq<char>>, i: int) -> int
    decreases i,
{
    if i <= 0 {
        0
    } else {
        joined_offset(names, i - 1) + names[i - 1].len() + 2
    }
}

/// The offsets of a list's first names do not depend on the names after them.
proof fn lemma_offset_prefix(names: Seq<Seq<char>>, m: int, i: int)
    requires
        0 <= i <= m <= names.len(),
    ensures
        joined_offset(names.take(m), i) == joined_offset(names, i),
    decreases i,
{
    if i > 0 {
        lemma_offset_prefix(names, m, i - 1);
        assert(names.take(m)[i - 1] == names[i - 1]);
    }
}

/// The layout of a `", "`-joined list: every name in order, each separated from the next by
/// `", "`, and nothing else.
proof fn lemma_join_layout(names: Seq<Seq<char>>)
    requires
        names.len() >= 1,
    ensures
        join_spec(names, ", "@).len() == joined_offset(names, names.len() - 1) + names.last().len(),
        forall|i: int| 0 <= i < names.len() ==> #[trigger] join_spec(names, ", "@).subrange(
            joined_offset(names, i), joined_offset(names, i) + names[i].len()) == names[i],
        forall|i: int| 0 <= i < names.len() - 1 ==> #[trigger] join_spec(names, ", "@).subrange(
            joined_offset(names, i) + names[i].len(), joined_offset(names, i + 1)) == ", "@,
    decreases names.len(),
{
    let j = join_spec(names, ", "@);
    let n = names.len() as int;
    reveal_strlit(", ");
    if n == 1 {
        assert(j == names[0]);
        assert(j.subrange(0, names[0].len() as int) =~= names[0]);
    } else {
        let p = names.drop_last();
        lemma_join_layout(p);
        let jp = join_spec(p, ", "@);
        assert(j == jp + ", "@ + names.last());
        assert(p =~= names.take(n - 1));
        assert forall|i: int| 0 <= i <= n - 1 implies joined_offset(p, i) == joined_offset(names, i) by {
            lemma_offset_prefix(names, n - 1, i);
        }
        assert(joined_offset(names, n - 1) == joined_offset(p, n - 2) + p[n - 2].len() + 2);
        assert(jp.len() == joined_offset(names, n - 1) - 2);
        assert forall|i: int| 0 <= i < n implies #[trigger] j.subrange(
            joined_offset(names, i), joined_offset(names, i) + names[i].len()) == names[i] by {
            if i < n - 1 {
                assert(p[i] == names[i]);
                assert(jp.subrange(joined_offset(p, i), joined_offset(p, i) + p[i].len()) == p[i]);
                lemma_offset_bound(p, i);
                assert(j.subrange(joined_offset(names, i), joined_offset(names, i) + names[i].len())
                    =~= jp.subrange(joined_offset(p, i), joined_offset(p, i) + p[i].len()));
            } else {
                assert(j.subrange(joined_offset(names, i), joined_offset(names, i) + names[i].len()) =~= names[i]);
            }
        }
        assert forall|i: int| 0 <= i < n - 1 implies #[trigger] j.subrange(
            joined_offset(names, i) + names[i].len(), joined_offset(names, i + 1)) == ", "@ by {
            if i < n - 2 {
                assert(p[i] == names[i]);
                assert(jp.subrange(joined_offset(p, i) + p[i].len(), joined_offset(p, i + 1)) == ", "@);
                lemma_offset_bound(p, i + 1);
                lemma_offset_prefix(names, n - 1, i);
                lemma_offset_prefix(names, n - 1, i + 1);
                assert(jp.len() == joined_offset(p, n - 2) + p.last().len());
                let a = joined_offset(p, i) + p[i].len();
                let b = joined_offset(p, i + 1);
                assert(b == a + 2);
                lemma_offset_nonneg(p, i);
                assert(0 <= a);
                assert(b <= jp.len());
                assert(a == joined_offset(names, i) + names[i].len());
                assert(b == joined_offset(names, i + 1));
                assert forall|k: int| 0 <= k < b - a implies j.subrange(a, b)[k] == jp.subrange(a, b)[k] by {
                    assert(j[a + k] == jp[a + k]);
                }
                assert(j.subrange(joined_offset(names, i) + names[i].len(), joined_offset(names, i + 1))
                    =~= jp.subrange(joined_offset(p, i) + p[i].len(), joined_offset(p, i + 1)));
            } else {
                assert(joined_offset(names, i) + names[i].len() == jp.len());
                assert(j.subrange(joined_offset(names, i) + names[i].len(), joined_offset(names, i + 1)) =~= ", "@);
            }
        }
    }
}

/// Offsets grow along the list and the last name ends the joined text.
proof fn lemma_offset_bound(names: Seq<Seq<char>>, i: int)
    requires
        names.len() >= 1,
        0 <= i < names.len(),
    ensures
        0 <= joined_offset(names, i),
        joined_offset(names, i) + names[i].len() <= joined_offset(names, names.len() - 1) + names.last().len(),
    decreases names.len() - i,
{
    lemma_offset_nonneg(names, i);
    if i < names.len() - 1 {
        lemma_offset_bound(names, i + 1);
        lemma_offset_nonneg(names, i + 1);
    }
}

proof fn lemma_offset_nonneg(names: Seq<Seq<char>>, i: int)
    ensures
        joined_offset(names, i) >= 0,
    decreases i,
{
    if i > 0 {
        lemma_offset_nonneg(names, i - 1);
    }
}

/// The artist line of a non-empty list shows every name in order, each separated from the next by
/// `", "`, and nothing more: its length is the names' lengths plus two per separator.
pub proof fn lemma_join_artists_shows_every_name(names: Seq<Seq<char>>)
    requires
        names.len() >= 1,
    ensures
        join_artists_spec(names).len() == joined_offset(names, names.len() - 1) + names.last().len(),
        forall|i: int| 0 <= i < names.len() ==> #[trigger] join_artists_spec(names).subrange(
            joined_offset(names, i), joined_offset(names, i) + names[i].len()) == names[i],
        forall|i: int| 0 <= i < names.len() - 1 ==> #[trigger] join_artists_spec(names).subrange(
            joined_offset(names, i) + names[i].len(), joined_offset(names, i + 1)) == ", "@,
{
    lemma_join_layout(names);
}

} // verus!
