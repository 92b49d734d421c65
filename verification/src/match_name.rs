//! Name matching: pick the entry a user meant from a list of candidate names (device names,
//! playlist names). Case-insensitive; an exact match wins over a partial one.

use vstd::prelude::*;

use crate::text::{chars_eq, chars_of, contains, contains_spec, lower, to_lowercase, trim, trim_spec};

verus! {

/// Result of a name match (returned as an index into `names`).
#[derive(Debug, PartialEq)]
pub enum NameMatch {
    Found(usize),
    NotFound,
    Ambiguous(Vec<usize>),
}

/// The mathematical value of a [`NameMatch`].
pub enum NameMatchSpec {
    Found(usize),
    NotFound,
    Ambiguous(Seq<usize>),
}

impl View for NameMatch {
    type V = NameMatchSpec;

    open spec fn view(&self) -> NameMatchSpec {
        match self {
            NameMatch::Found(i) => NameMatchSpec::Found(*i),
            NameMatch::NotFound => NameMatchSpec::NotFound,
            NameMatch::Ambiguous(v) => NameMatchSpec::Ambiguous(v@),
        }
    }
}

/// Whether candidate `name` matches the normalized query `q` (exactly, or as a substring).
pub open spec fn name_hits(name: Seq<char>, q: Seq<char>, exact: bool) -> bool {
    if exact {
        lower(name) == q
    } else {
        contains_spec(lower(name), q)
    }
}

/// Indices `< n` of the names that hit `q`, in increasing order.
pub open spec fn hits(names: Seq<Seq<char>>, q: Seq<char>, exact: bool, n: nat) -> Seq<usize>
    decreases n,
{
    if n == 0 {
        Seq::empty()
    } else {
        let prev = hits(names, q, exact, (n - 1) as nat);
        if name_hits(names[n - 1], q, exact) {
            prev.push((n - 1) as usize)
        } else {
            prev
        }
    }
}

/// Classify a hit list: none, exactly one, or several.
pub open spec fn classify(h: Seq<usize>) -> NameMatchSpec {
    if h.len() == 0 {
        NameMatchSpec::NotFound
    } else if h.len() == 1 {
        NameMatchSpec::Found(h[0])
    } else {
        NameMatchSpec::Ambiguous(h)
    }
}

/// What `match_name(names, query)` returns.
pub open spec fn match_name_spec(names: Seq<Seq<char>>, query: Seq<char>) -> NameMatchSpec {
    let q = lower(trim_spec(query));
    if q.len() == 0 {
        NameMatchSpec::NotFound
    } else {
        let exact = hits(names, q, true, names.len());
        if exact.len() > 0 {
            classify(exact)
        } else {
            classify(hits(names, q, false, names.len()))
        }
    }
}

/// The views of a list of string slices.
pub open spec fn str_views(names: Seq<&str>) -> Seq<Seq<char>> {
    names.map_values(|n: &str| n@)
}

/// Indices of the (lowered) names that hit `q`.
fn collect_hits(lowered: &Vec<Vec<char>>, q: &[char], exact: bool, Ghost(names): Ghost<Seq<Seq<char>>>) -> (h: Vec<usize>)
    requires
        lowered@.len() == names.len(),
        forall|i: int| 0 <= i < names.len() ==> #[trigger] lowered@[i]@ == lower(names[i]),
    ensures
        h@ == hits(names, q@, exact, names.len()),
{
    let mut h: Vec<usize> = Vec::new();
    let mut i: usize = 0;
    while i < lowered.len()
        invariant
            i <= lowered@.len(),
            lowered@.len() == names.len(),
            forall|k: int| 0 <= k < names.len() ==> #[trigger] lowered@[k]@ == lower(names[k]),
            h@ == hits(names, q@, exact, i as nat),
        decreases lowered.len() - i,
    {
        let hit = if exact {
            chars_eq(&lowered[i], q)
        } else {
            contains(&lowered[i], q)
        };
        assert(lowered@[i as int]@ == lower(names[i as int]));
        if hit {
            h.push(i);
        }
        i = i + 1;
    }
    h
}

/// Turn a hit list into a [`NameMatch`].
fn classify_hits(h: Vec<usize>) -> (r: NameMatch)
    ensures
        r@ == classify(h@),
{
    if h.len() == 0 {
        NameMatch::NotFound
    } else if h.len() == 1 {
        NameMatch::Found(h[0])
    } else {
        NameMatch::Ambiguous(h)
    }
}

/// Match `query` against the candidate `names` (same order / 1:1 with the caller's list).
/// Case-insensitive; an exact match takes precedence over a partial match.
pub fn match_name(names: &[&str], query: &str) -> (r: NameMatch)
    ensures
        r@ == match_name_spec(str_views(names@), query@),
        trim_spec(query@).len() == 0 ==> r@ == NameMatchSpec::NotFound,
{
    let ghost nv = str_views(names@);
    let qv = chars_of(query);
    let trimmed = trim(&qv);
    let t = crate::text::string_of(&trimmed);
    let q = chars_of(&to_lowercase(t.as_str()));
    // An empty query would partially match everything, so treat it explicitly as "no match".
    if q.len() == 0 {
        return NameMatch::NotFound;
    }
    let mut lowered: Vec<Vec<char>> = Vec::new();
    let mut i: usize = 0;
    while i < names.len()
        invariant
            i <= names@.len(),
            nv == str_views(names@),
            lowered@.len() == i,
            forall|k: int| 0 <= k < i ==> #[trigger] lowered@[k]@ == lower(nv[k]),
        decreases names.len() - i,
    {
        let l = chars_of(&to_lowercase(names[i]));
        lowered.push(l);
        i = i + 1;
    }
    let exact = collect_hits(&lowered, &q, true, Ghost(nv));
    if exact.len() > 0 {
        return classify_hits(exact);
    }
    let partial = collect_hits(&lowered, &q, false, Ghost(nv));
    classify_hits(partial)
}


/// Matching ignores case and surrounding whitespace: two queries that agree once trimmed and
/// lowercased get the same answer.
pub proof fn lemma_match_ignores_case(names: Seq<Seq<char>>, q1: Seq<char>, q2: Seq<char>)
    requires
        lower(trim_spec(q1)) == lower(trim_spec(q2)),
    ensures
        match_name_spec(names, q1) == match_name_spec(names, q2),
{
}

/// The exact hits, when exactly one name equals `q`: that name alone.
proof fn lemma_single_exact_hit(names: Seq<Seq<char>>, q: Seq<char>, i: int, m: nat)
    requires
        0 <= i < names.len(),
        m <= names.len(),
        lower(names[i]) == q,
        forall|j: int| 0 <= j < names.len() && j != i ==> lower(#[trigger] names[j]) != q,
    ensures
        hits(names, q, true, m) == (if m > i { seq![i as usize] } else { Seq::<usize>::empty() }),
    decreases m,
{
    if m > 0 {
        lemma_single_exact_hit(names, q, i, (m - 1) as nat);
        if m - 1 == i {
            assert(Seq::<usize>::empty().push(i as usize) =~= seq![i as usize]);
        } else {
            assert(lower(names[m - 1]) != q);
        }
    }
}

/// A query that equals one candidate's name up to case and surrounding whitespace, and no other
/// candidate's, finds that candidate.
pub proof fn lemma_match_finds_the_name(names: Seq<Seq<char>>, query: Seq<char>, i: int)
    requires
        0 <= i < names.len(),
        i <= usize::MAX,
        lower(trim_spec(query)).len() > 0,
        lower(names[i]) == lower(trim_spec(query)),
        forall|j: int| 0 <= j < names.len() && j != i ==> lower(#[trigger] names[j]) != lower(trim_spec(query)),
    ensures
        match_name_spec(names, query) == NameMatchSpec::Found(i as usize),
{
    lemma_single_exact_hit(names, lower(trim_spec(query)), i, names.len());
}

} // verus!
