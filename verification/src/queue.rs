//! Queue pane data model: the currently playing track followed by the upcoming queue, and how a
//! failing queue poll degrades (the last good rows survive a hiccup, a persistent failure is
//! shown). The pane is never silently blank: whenever it has no rows it has a message.

use vstd::prelude::*;

use crate::detail::opt_view;
use crate::format::{join_artists, join_artists_spec};
use crate::np_json::{artists_of, title_of, track_from_json};
use crate::playback::Playable;
use crate::text::{push_str, views};
use crate::theme;

verus! {

/// Consecutive queue-fetch failures tolerated before the last good rows give way to a message.
pub const MAX_QUEUE_FAILURES: u32 = 3;

/// One row of the queue pane. `is_current` marks the currently playing track.
#[derive(Debug)]
pub struct QueueRow {
    pub title: String,
    pub artists: String,
    pub is_current: bool,
}

/// The queue pane's state: the rows, a message shown instead of the list (loading, empty, failed),
/// and the consecutive fetch failures since the last success.
#[derive(Debug)]
pub struct QueueState {
    pub rows: Vec<QueueRow>,
    pub message: Option<String>,
    pub failures: u32,
}

impl QueueState {
    /// The pane is never silently blank: no rows means a message.
    pub open spec fn wf(&self) -> bool {
        self.rows@.len() == 0 ==> self.message is Some
    }
}

impl Default for QueueState {
    /// Before the first poll resolves, say so rather than implying an empty queue.
    fn default() -> (q: Self)
        ensures
            q.rows@.len() == 0,
            q.message matches Some(m) && m@ == "Loading…"@,
            q.failures == 0,
            q.wf(),
    {
        QueueState { rows: Vec::new(), message: Some(String::from_str("Loading…")), failures: 0 }
    }
}

/// The message a persistent queue failure shows.
pub open spec fn unavailable_message(error: Seq<char>) -> Seq<char> {
    theme::WARN@ + " queue unavailable ("@ + error + ")"@
}

/// Record a queue-fetch failure. The last good rows are kept until `MAX_QUEUE_FAILURES`
/// consecutive failures accumulate; from then on they are dropped for a visible message, so a
/// persistent problem is surfaced rather than hidden behind stale rows.
pub fn degrade_on_failure(queue: &mut QueueState, error: String)
    ensures
        final(queue).failures == (if old(queue).failures < u32::MAX { old(queue).failures + 1 } else { u32::MAX as int }),
        final(queue).failures >= MAX_QUEUE_FAILURES ==> (final(queue).rows@.len() == 0
            && (final(queue).message matches Some(m) && m@ == unavailable_message(error@))),
        final(queue).failures < MAX_QUEUE_FAILURES ==> final(queue).rows == old(queue).rows
            && final(queue).message == old(queue).message,
        old(queue).wf() ==> final(queue).wf(),
{
    queue.failures = queue.failures.saturating_add(1);
    if queue.failures >= MAX_QUEUE_FAILURES {
        queue.rows = Vec::new();
        let mut m = String::from_str(theme::WARN);
        push_str(&mut m, " queue unavailable (");
        push_str(&mut m, error.as_str());
        push_str(&mut m, ")");
        queue.message = Some(m);
    }
}

/// The user's queue as the API reports it.
#[derive(Debug)]
pub struct UserQueue {
    pub currently_playing: Option<Playable>,
    pub queue: Vec<Playable>,
}

/// The title and artist line a queue item shows: the same mapping as the Now Playing pane, so both
/// panes format a track identically.
pub open spec fn row_text(item: Playable) -> (Seq<char>, Seq<char>) {
    match item {
        Playable::Track { name, artists, .. } => (name@, join_artists_spec(views(artists@))),
        Playable::Episode { name, .. } => (name@, "(podcast)"@),
        Playable::Unknown(v) => (title_of(v), join_artists_spec(artists_of(v))),
    }
}

/// A queue item as a row.
pub fn playable_to_row(item: Playable, is_current: bool) -> (r: QueueRow)
    ensures
        (r.title@, r.artists@) == row_text(item),
        r.is_current == is_current,
{
    row_of(&item, is_current)
}

fn row_of(item: &Playable, is_current: bool) -> (r: QueueRow)
    ensures
        (r.title@, r.artists@) == row_text(*item),
        r.is_current == is_current,
{
    let (title, artists) = match item {
        Playable::Track { name, artists, .. } => (name.clone(), join_artists(artists)),
        Playable::Episode { name, .. } => (name.clone(), String::from_str("(podcast)")),
        Playable::Unknown(v) => {
            let (title, names, _album, _dur) = track_from_json(v);
            assert(views(names@) =~= names@.map_values(|s: String| s@));
            (title, join_artists(&names))
        },
    };
    QueueRow { title, artists, is_current }
}

/// The rows of a queue: the currently playing track first (if any), then the upcoming items.
pub open spec fn queue_rows_ok(q: UserQueue, rows: Seq<QueueRow>) -> bool {
    let k: int = if q.currently_playing is Some { 1 } else { 0 };
    &&& rows.len() == k + q.queue@.len()
    &&& (q.currently_playing matches Some(c) ==> (rows[0].title@, rows[0].artists@) == row_text(c) && rows[0].is_current)
    &&& forall|i: int| 0 <= i < q.queue@.len() ==> (#[trigger] rows[k + i].title@, rows[k + i].artists@) == row_text(q.queue@[i])
        && !rows[k + i].is_current
}

/// Map a fetched queue to the pane's state (failure count reset). An empty queue is messaged.
pub fn build_queue_state(queue: UserQueue) -> (s: QueueState)
    ensures
        queue_rows_ok(queue, s.rows@),
        s.failures == 0,
        s.rows@.len() == 0 ==> (s.message matches Some(m) && m@ == "Queue is empty"@),
        s.rows@.len() > 0 ==> s.message is None,
        s.wf(),
{
    let ghost q = queue;
    let mut rows: Vec<QueueRow> = Vec::new();
    let k: usize = match queue.currently_playing {
        Some(c) => {
            rows.push(playable_to_row(c, true));
            1
        },
        None => 0,
    };
    let items = queue.queue;
    let mut i: usize = 0;
    while i < items.len()
        invariant
            i <= items@.len(),
            items@ == q.queue@,
            k == (if q.currently_playing is Some { 1int } else { 0int }),
            rows@.len() == k + i,
            q.currently_playing matches Some(c) ==> (rows@[0].title@, rows@[0].artists@) == row_text(c) && rows@[0].is_current,
            forall|j: int| 0 <= j < i ==> (#[trigger] rows@[k + j].title@, rows@[k + j].artists@) == row_text(items@[j])
                && !rows@[k + j].is_current,
        decreases items.len() - i,
    {
        let item = row_of(&items[i], false);
        rows.push(item);
        i = i + 1;
    }
    let message = if rows.len() == 0 { Some(String::from_str("Queue is empty")) } else { None };
    QueueState { rows, message, failures: 0 }
}

/// The number of upcoming (not currently playing) rows.
pub open spec fn upcoming_in(rows: Seq<QueueRow>) -> nat
    decreases rows.len(),
{
    if rows.len() == 0 {
        0
    } else {
        upcoming_in(rows.drop_last()) + if rows.last().is_current { 0nat } else { 1nat }
    }
}

/// The position labels of the rows: upcoming rows are numbered 1, 2, … in order, the currently
/// playing row gets none.
pub fn queue_numbers(rows: &[QueueRow]) -> (r: Vec<Option<usize>>)
    ensures
        r@.len() == rows@.len(),
        forall|i: int| 0 <= i < rows@.len() ==> #[trigger] r@[i] == (if rows@[i].is_current {
            None
        } else {
            Some(upcoming_in(rows@.take(i + 1)) as usize)
        }),
{
    let mut r: Vec<Option<usize>> = Vec::new();
    let mut position: usize = 0;
    let mut i: usize = 0;
    while i < rows.len()
        invariant
            i <= rows@.len(),
            r@.len() == i,
            position == upcoming_in(rows@.take(i as int)),
            position <= i,
            forall|j: int| 0 <= j < i ==> #[trigger] r@[j] == (if rows@[j].is_current {
                None
            } else {
                Some(upcoming_in(rows@.take(j + 1)) as usize)
            }),
        decreases rows.len() - i,
    {
        assert(rows@.take(i + 1).drop_last() =~= rows@.take(i as int));
        if rows[i].is_current {
            r.push(None);
        } else {
            position = position + 1;
            r.push(Some(position));
        }
        i = i + 1;
    }
    r
}

/// The message the pane shows instead of its list: the state's message, or the empty-queue note
/// when there are no rows (a guard in case a state without rows has no message).
pub fn pane_message(q: &QueueState) -> (r: Option<String>)
    ensures
        match q.message {
            Some(m) => r == Some(m),
            None => if q.rows@.len() == 0 { r matches Some(m) && m@ == "Queue is empty"@ } else { r is None },
        },
{
    match &q.message {
        Some(m) => Some(m.clone()),
        None => {
            if q.rows.len() == 0 {
                Some(String::from_str("Queue is empty"))
            } else {
                None
            }
        },
    }
}

} // verus!
