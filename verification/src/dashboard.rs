//! The dashboard's state machine: which screen is up, which pane has focus, when to poll, how the
//! status line ages, how a 429 cooldown holds calls back, and what each key press does. The caller runs
//! the loop: it performs the I/O a [`Task`] asks for and reports the outcome back.

use vstd::prelude::*;

use crate::browse::{
    next_selectable_ok, prev_selectable_ok, selected_item_spec, tab_at, tab_index, BrowseCache,
    BrowseItem, BrowseTab, LibraryRow, LibraryState, Loaded, PlayTarget,
};
use crate::detail::{cache_inserted, opt_view, set_message, DetailCache, DetailData, DetailState};
use crate::devices::{
    device_action_spec, device_selection_after, key_action, transfer_done_status, transfer_plan, DeviceAction, DeviceEntry, DevicePickerState,
    TransferPlan,
};
use crate::keys::{Key, KeyCode};
use crate::playback::{toggle_message, Player, MAX_POLL_FAILURES};
use crate::queue::QueueState;
use crate::rate_limit::{
    countdown_secs, is_blocked, noted, rate_limit_status_spec, wait_spec, RateLimitHit, RateLimiter,
};
use crate::search::{detail_cleared, search_key_ok, SearchAction, SearchPhase, SearchResults, SearchState};
use crate::text::{chars_eq, chars_of, push_str};
use crate::theme;
use crate::layout::DashboardAreas;
use crate::view::{
    focus_after_tab, lemma_warn_prefix_is_warning, status_kind, status_kind_spec, Focus, StatusKind,
};

verus! {

/// Interval between playback polls (ms).
pub const POLL_INTERVAL_MS: u64 = 2000;
/// One tick of the input wait (ms): the screen is redrawn at least this often.
pub const TICK_MS: u64 = 200;
/// Volume step for `+`/`-`.
pub const VOL_STEP: i16 = 5;
/// Seek step for `←`/`→` (ms).
pub const SEEK_STEP_MS: i64 = 5000;
/// How long a status line stays before it is cleared (ms).
pub const STATUS_TTL_MS: u64 = 4000;
/// Cap on the per-item detail cache; past it the cache is cleared wholesale.
pub const DETAIL_CACHE_MAX: usize = 64;

/// Screen mode: the dashboard, the search screen, the device picker, or the help overlay.
#[derive(Debug)]
pub enum Mode {
    Normal,
    Search(Box<SearchState>),
    Devices(DevicePickerState),
    /// Key-list help overlay (display only).
    Help,
}

/// The kind of a [`Mode`], without its state.
#[derive(Debug, Clone, Copy, PartialEq, Eq, Structural)]
pub enum ModeKind {
    Normal,
    Search,
    Devices,
    Help,
}

/// The kind of a mode.
pub open spec fn mode_kind(m: Mode) -> ModeKind {
    match m {
        Mode::Normal => ModeKind::Normal,
        Mode::Search(_) => ModeKind::Search,
        Mode::Devices(_) => ModeKind::Devices,
        Mode::Help => ModeKind::Help,
    }
}

impl Mode {
    /// The kind of this mode.
    pub fn kind(&self) -> (k: ModeKind)
        ensures
            k == mode_kind(*self),
    {
        match self {
            Mode::Normal => ModeKind::Normal,
            Mode::Search(_) => ModeKind::Search,
            Mode::Devices(_) => ModeKind::Devices,
            Mode::Help => ModeKind::Help,
        }
    }
}

/// The I/O a key press asks the caller to perform.
#[derive(Debug)]
pub enum Task {
    Nothing,
    Quit,
    /// Show this library tab (from the cache, or fetched).
    LoadLibrary(BrowseTab),
    /// Play the selected library item.
    PlayLibrarySelection,
    /// Play the selected detail row.
    PlayDetailSelection,
    /// Fetch the devices and open the picker.
    OpenDevices,
    /// Play or pause.
    Toggle,
    /// Skip to the next (`true`) or previous track.
    Skip(bool),
    /// Change the volume by this step.
    Volume(i16),
    /// Seek by this many milliseconds.
    Seek(i64),
    /// Save or unsave the current track.
    Save,
    /// Forget the cached detail for this key so it is fetched again.
    ForgetDetail(String),
    /// Transfer playback to the device selected in the picker.
    TransferDevice,
    /// Fetch the device list again.
    ReloadDevices,
    /// What the search screen asked for.
    Search(SearchAction),
}

/// The dashboard's state. Times are milliseconds on a monotonic clock the caller keeps.
#[derive(Debug)]
pub struct Dashboard {
    pub player: Player,
    /// When the last poll ran (`None` asks for a poll right away).
    pub last_poll_ms: Option<u64>,
    pub mode: Mode,
    /// Which lower pane holds focus.
    pub focus: Focus,
    /// Whether the detail pane was shown in the last draw.
    pub detail_visible: bool,
    /// Whether the queue pane was shown in the last draw.
    pub queue_visible: bool,
    pub browse_cache: BrowseCache,
    pub library: LibraryState,
    /// Whether the first library load was attempted.
    pub library_loaded: bool,
    pub detail: DetailState,
    /// Details already loaded, by item URI.
    pub detail_cache: DetailCache,
    pub queue: QueueState,
    pub limiter: RateLimiter,
    /// The status text as of the last tick, and when it last changed.
    pub last_status: String,
    pub status_since_ms: u64,
}

/// Whether a poll is due: never while a cooldown blocks calls; otherwise when one was requested,
/// or when the interval has passed and auto-refresh has not stopped.
pub open spec fn poll_due_spec(last_poll_ms: Option<u64>, poll_failures: u32, blocked: bool, now_ms: nat) -> bool {
    let forced = last_poll_ms is None;
    let timer_due = match last_poll_ms {
        Some(t) => now_ms >= t && now_ms - t >= POLL_INTERVAL_MS,
        None => true,
    };
    !blocked && (forced || (timer_due && poll_failures < MAX_POLL_FAILURES))
}

/// The message for a failed control operation.
pub open spec fn op_failed_status(e: Seq<char>) -> Seq<char> {
    theme::WARN@ + " operation failed: "@ + e + " (press d to select and activate a device)"@
}

/// The notice shown while auto-refresh is stopped.
pub open spec fn stopped_notice() -> Seq<char> {
    theme::WARN@ + " auto-refresh is stopped. Press r to retry / q to quit"@
}

/// A failed API call: the error's text, and the 429 it carried, if any.
#[derive(Debug)]
pub struct CallError {
    pub message: String,
    pub rate_limit: Option<RateLimitHit>,
}

/// The dashboard after a 429 at `now_ms`: the cooldown is armed for the wait the hit asks for,
/// the countdown is on the status line, and nothing else changed.
pub open spec fn rate_limit_noted(d0: Dashboard, d1: Dashboard, hit: RateLimitHit, now_ms: nat) -> bool {
    &&& noted(d0.limiter, d1.limiter, hit, now_ms)
    &&& d1.player.status@ == rate_limit_status_spec(wait_spec(hit, d1.limiter.hits as nat))
    &&& d1 == (Dashboard {
        player: Player { status: d1.player.status, ..d0.player },
        limiter: d1.limiter,
        ..d0
    })
}

/// What starts a loop iteration: whether a cooldown holds calls back, and which polls run.
#[derive(Debug, Clone, Copy)]
pub struct TickStart {
    pub blocked: bool,
    pub poll: bool,
    pub poll_queue: bool,
}

/// A detail to load: the selected item's target and title, for the search screen's pane
/// (`in_search`) or the dashboard's.
#[derive(Debug)]
pub struct DetailLoad {
    pub target: PlayTarget,
    pub title: String,
    pub in_search: bool,
}

/// Whether an optional key is `k`.
pub open spec fn key_is(key: Option<String>, k: Seq<char>) -> bool {
    key matches Some(x) && x@ == k
}

/// The detail pane a load is shown in: the search screen's while searching (when asked for), the
/// dashboard's otherwise.
pub open spec fn pane_of(d: Dashboard, in_search: bool) -> DetailState {
    match d.mode {
        Mode::Search(st) => if in_search { st.detail } else { d.detail },
        _ => d.detail,
    }
}

/// `d1` is `d0` with only the pane `pane_of(_, in_search)` changed.
pub open spec fn with_pane(d0: Dashboard, d1: Dashboard, in_search: bool) -> bool {
    match d0.mode {
        Mode::Search(st) => if in_search {
            d1 == (Dashboard { mode: Mode::Search(Box::new(SearchState { detail: pane_of(d1, true), ..*st })), ..d0 })
        } else {
            d1 == (Dashboard { detail: d1.detail, ..d0 })
        },
        _ => d1 == (Dashboard { detail: d1.detail, ..d0 }),
    }
}

/// Which load is due for a pane showing `pane` while `item` is selected: none when nothing is
/// selected or the pane already shows that item, otherwise the item's.
pub open spec fn due_load(pane: DetailState, item: Option<BrowseItem>, in_search: bool, r: Option<DetailLoad>) -> bool {
    match item {
        Some(it) => if key_is(pane.key, it.target@.1) {
            r is None
        } else {
            r matches Some(l) && l.target == it.target && l.title == it.title && l.in_search == in_search
        },
        None => r is None,
    }
}

/// A pane showing detail `d` under `key`, from the top.
pub open spec fn pane_shows(p: DetailState, key: Seq<char>, d: DetailData) -> bool {
    &&& key_is(p.key, key)
    &&& p.title == d.title
    &&& p.rows@ == d.rows@
    &&& p.selected == 0
    &&& opt_view(p.message) == set_message(d.rows@.len(), d.truncated_total)
}

/// Whether an optional key is `uri`.
fn key_matches(key: &Option<String>, uri: &str) -> (b: bool)
    ensures
        b == key_is(*key, uri@),
{
    match key {
        Some(k) => chars_eq(&chars_of(k.as_str()), &chars_of(uri)),
        None => false,
    }
}

/// What a key press on the dashboard (no overlay open) does, from state `s0` to state `s1`,
/// asking for `c`.
pub open spec fn normal_key_ok(s0: Dashboard, s1: Dashboard, key: Key, c: Task) -> bool {
    match key.code {
        KeyCode::Esc => c is Quit,
        KeyCode::Tab => c is Nothing && s1.focus == focus_after_tab(s0.focus, s0.detail_visible),
        KeyCode::Up => c is Nothing && s1.player == s0.player && s1.focus == s0.focus && s1.mode is Normal
            && if s0.focus == Focus::Library {
                s1.detail == s0.detail && s1.library.rows == s0.library.rows && (
                    prev_selectable_ok(s0.library.rows@, s0.library.selected as int, Some(s1.library.selected))
                    || (prev_selectable_ok(s0.library.rows@, s0.library.selected as int, None)
                        && s1.library.selected == s0.library.selected))
            } else {
                s1.library == s0.library && s1.detail.rows == s0.detail.rows
                    && s1.detail.selected == (if s0.detail.selected > 0 { s0.detail.selected - 1 } else { 0 })
            },
        KeyCode::Down => c is Nothing && s1.player == s0.player && s1.focus == s0.focus && s1.mode is Normal
            && if s0.focus == Focus::Library {
                s1.detail == s0.detail && s1.library.rows == s0.library.rows && (
                    next_selectable_ok(s0.library.rows@, s0.library.selected as int, Some(s1.library.selected))
                    || (next_selectable_ok(s0.library.rows@, s0.library.selected as int, None)
                        && s1.library.selected == s0.library.selected))
            } else {
                s1.library == s0.library && s1.detail.rows == s0.detail.rows
                    && s1.detail.selected == (if s0.detail.selected + 1 < s0.detail.rows@.len() {
                        s0.detail.selected + 1
                    } else {
                        s0.detail.selected as int
                    })
            },
        KeyCode::Enter => s1.focus == s0.focus && if s0.focus == Focus::Library {
            c is PlayLibrarySelection
        } else {
            c is PlayDetailSelection
        },
        KeyCode::Left => c matches Task::Seek(d) && d == -SEEK_STEP_MS,
        KeyCode::Right => c matches Task::Seek(d) && d == SEEK_STEP_MS,
        KeyCode::Char(ch) => if ch == 'q' {
            c is Quit
        } else if ch == '/' {
            c is Nothing && (s1.mode matches Mode::Search(st) && st.query@.len() == 0
                && st.rows@.len() == 0 && st.selected == 0)
        } else if ch == '?' {
            c is Nothing && s1.mode is Help
        } else if ch == '[' || ch == ']' {
            if s0.focus == Focus::Library {
                c matches Task::LoadLibrary(t) && t == tab_at(
                    (tab_index(s0.library.tab) + if ch == '[' { 4nat } else { 1nat }) % 5)
            } else {
                c is Nothing
            }
        } else if ch == 'd' {
            c is OpenDevices
        } else if ch == ' ' {
            c is Toggle
        } else if ch == 'n' {
            c matches Task::Skip(f) && f
        } else if ch == 'p' {
            c matches Task::Skip(f) && !f
        } else if ch == '+' || ch == '=' {
            c matches Task::Volume(v) && v == VOL_STEP
        } else if ch == '-' || ch == '_' {
            c matches Task::Volume(v) && v == -VOL_STEP
        } else if ch == 's' {
            c is Save
        } else if ch == 'r' {
            &&& s1.player.poll_failures == 0
            &&& s1.last_poll_ms is None
            &&& s1.player.art_url is None
            &&& if s0.focus == Focus::Library {
                c matches Task::LoadLibrary(t) && t == s0.library.tab
                    && s1.browse_cache.slot(t) is None
            } else {
                s1.detail.key is None && match s0.detail.key {
                    Some(k) => c matches Task::ForgetDetail(f) && f == k,
                    None => c is Nothing,
                }
            }
        } else {
            c is Nothing
        },
        _ => c is Nothing,
    }
}

impl Dashboard {
    /// The state at startup.
    pub fn new(now_ms: u64) -> (d: Dashboard)
        ensures
            d.player.status@ == "Starting…"@,
            d.player.now is None,
            d.player.poll_failures == 0,
            d.last_poll_ms is None,
            d.mode is Normal,
            d.focus == Focus::Library,
            !d.detail_visible,
            !d.queue_visible,
            !d.library_loaded,
            d.limiter.until_ms is None,
            d.limiter.hits == 0,
            d.queue.wf(),
            d.last_status == d.player.status,
            d.status_since_ms == now_ms,
            d.detail_cache.len() == 0,
    {
        let status = String::from_str("Starting…");
        let last_status = status.clone();
        Dashboard {
            player: Player::new(status),
            last_poll_ms: None,
            mode: Mode::Normal,
            focus: Focus::Library,
            detail_visible: false,
            queue_visible: false,
            browse_cache: BrowseCache::new(),
            library: LibraryState::default(),
            library_loaded: false,
            detail: DetailState::default(),
            detail_cache: DetailCache::new(),
            queue: QueueState::default(),
            limiter: RateLimiter::new(),
            last_status,
            status_since_ms: now_ms,
        }
    }

    /// If a 429 cooldown is active at `now_ms`, refresh the countdown on the status line and say
    /// so: the caller then makes no API call.
    pub fn rate_limit_blocked(&mut self, now_ms: u64) -> (b: bool)
        ensures
            b == is_blocked(old(self).limiter, now_ms as nat),
            b ==> final(self).player.status@ == rate_limit_status_spec(countdown_secs(old(self).limiter, now_ms as nat)),
            *final(self) == (Dashboard {
                player: Player { status: final(self).player.status, ..old(self).player },
                ..*old(self)
            }),
            !b ==> final(self).player == old(self).player,
            final(self).player.now == old(self).player.now,
            final(self).player.poll_failures == old(self).player.poll_failures,
            final(self).limiter == old(self).limiter,
            final(self).last_poll_ms == old(self).last_poll_ms,
    {
        match self.limiter.blocked(now_ms) {
            Some(s) => {
                self.player.status = s;
                true
            },
            None => false,
        }
    }

    /// Start a loop iteration at `now_ms`: refresh the countdown when a cooldown holds calls back,
    /// and decide the polls (the queue is polled with the playback, while its pane is shown). No
    /// poll runs during a cooldown.
    pub fn tick_start(&mut self, now_ms: u64) -> (t: TickStart)
        ensures
            t.blocked == is_blocked(old(self).limiter, now_ms as nat),
            t.poll == poll_due_spec(old(self).last_poll_ms, old(self).player.poll_failures, t.blocked, now_ms as nat),
            t.poll_queue == (t.poll && old(self).queue_visible),
            t.blocked ==> !t.poll && !t.poll_queue,
            t.blocked ==> final(self).player.status@ == rate_limit_status_spec(countdown_secs(old(self).limiter, now_ms as nat)),
            *final(self) == (Dashboard {
                player: Player { status: final(self).player.status, ..old(self).player },
                ..*old(self)
            }),
            !t.blocked ==> *final(self) == *old(self),
    {
        let blocked = self.rate_limit_blocked(now_ms);
        let poll = self.poll_due(blocked, now_ms);
        TickStart { blocked, poll, poll_queue: poll && self.queue_visible }
    }

    /// The library tab to load in the background: the shown tab until its first load was
    /// attempted, and nothing during a cooldown.
    pub fn library_load_due(&self, blocked: bool) -> (t: Option<BrowseTab>)
        ensures
            t == (if !blocked && !self.library_loaded { Some(self.library.tab) } else { None }),
    {
        if !blocked && !self.library_loaded {
            Some(self.library.tab)
        } else {
            None
        }
    }

    /// The detail to load for the library selection, if the detail pane does not show it yet;
    /// with no item selected the pane is cleared. Nothing happens during a cooldown.
    pub fn library_detail_due(&mut self, blocked: bool) -> (r: Option<DetailLoad>)
        ensures
            blocked ==> r is None && *final(self) == *old(self),
            !blocked ==> due_load(old(self).detail, selected_item_spec(old(self).library.rows@, old(self).library.selected as int), false, r),
            !blocked && selected_item_spec(old(self).library.rows@, old(self).library.selected as int) is None
                && old(self).detail.key is Some ==> detail_cleared(final(self).detail, None),
            !(!blocked && selected_item_spec(old(self).library.rows@, old(self).library.selected as int) is None
                && old(self).detail.key is Some) ==> final(self).detail == old(self).detail,
            *final(self) == (Dashboard { detail: final(self).detail, ..*old(self) }),
    {
        if blocked {
            return None;
        }
        let sel = match self.library.selected_item() {
            Some(it) => if key_matches(&self.detail.key, it.target.uri()) {
                Some(None)
            } else {
                Some(Some(DetailLoad { target: it.target.duplicate(), title: it.title.clone(), in_search: false }))
            },
            None => None,
        };
        match sel {
            Some(r) => r,
            None => {
                if self.detail.key.is_some() {
                    self.detail.clear(None);
                }
                None
            },
        }
    }

    /// The detail to load for the search screen's selection, if its detail pane does not show it
    /// yet. Nothing outside the search screen or during a cooldown.
    pub fn search_detail_due(&self, blocked: bool) -> (r: Option<DetailLoad>)
        ensures
            blocked ==> r is None,
            !blocked ==> match self.mode {
                Mode::Search(st) => due_load(st.detail, selected_item_spec(st.rows@, st.selected as int), true, r),
                _ => r is None,
            },
    {
        if blocked {
            return None;
        }
        match &self.mode {
            Mode::Search(st) => match st.selected_item() {
                Some(it) => if key_matches(&st.detail.key, it.target.uri()) {
                    None
                } else {
                    Some(DetailLoad { target: it.target.duplicate(), title: it.title.clone(), in_search: true })
                },
                None => None,
            },
            _ => None,
        }
    }

    /// Show `data` under `key` in the pane a load is for.
    fn set_pane(&mut self, in_search: bool, key: String, data: DetailData)
        ensures
            with_pane(*old(self), *final(self), in_search),
            key_is(pane_of(*final(self), in_search).key, key@),
            pane_of(*final(self), in_search).title == data.title,
            pane_of(*final(self), in_search).rows == data.rows,
            pane_of(*final(self), in_search).selected == 0,
            opt_view(pane_of(*final(self), in_search).message) == set_message(data.rows@.len(), data.truncated_total),
    {
        match &mut self.mode {
            Mode::Search(st) => {
                if in_search {
                    st.detail.set(key, data);
                } else {
                    self.detail.set(key, data);
                }
            },
            _ => self.detail.set(key, data),
        }
    }

    /// Show a load failure for `key` in the pane a load is for.
    fn set_pane_error(&mut self, in_search: bool, key: String, message: String)
        ensures
            with_pane(*old(self), *final(self), in_search),
            key_is(pane_of(*final(self), in_search).key, key@),
            pane_of(*final(self), in_search).title@.len() == 0,
            pane_of(*final(self), in_search).rows@.len() == 0,
            pane_of(*final(self), in_search).selected == 0,
            pane_of(*final(self), in_search).message == Some(message),
    {
        match &mut self.mode {
            Mode::Search(st) => {
                if in_search {
                    st.detail.set_error(key, message);
                } else {
                    self.detail.set_error(key, message);
                }
            },
            _ => self.detail.set_error(key, message),
        }
    }

    /// Show a load from the cache when the detail is there (returns `true`); otherwise the caller
    /// fetches it.
    pub fn detail_from_cache(&mut self, load: &DetailLoad) -> (hit: bool)
        ensures
            hit == old(self).detail_cache.has(load.target@.1),
            hit ==> with_pane(*old(self), *final(self), load.in_search)
                && pane_shows(pane_of(*final(self), load.in_search), load.target@.1, old(self).detail_cache.at(load.target@.1)),
            !hit ==> *final(self) == *old(self),
    {
        let uri = load.target.uri();
        match self.detail_cache.get(uri) {
            Some(data) => {
                self.set_pane(load.in_search, String::from_str(uri), data);
                true
            },
            None => false,
        }
    }

    /// Show a fetched detail (and cache it), or the failure's message, in the pane the load is for.
    pub fn detail_fetched(&mut self, load: DetailLoad, res: Result<DetailData, String>)
        ensures
            with_pane(Dashboard { detail_cache: final(self).detail_cache, ..*old(self) }, *final(self), load.in_search),
            match res {
                Ok(d) => cache_inserted(old(self).detail_cache, final(self).detail_cache, load.target@.1, d)
                    && pane_shows(pane_of(*final(self), load.in_search), load.target@.1, d),
                Err(m) => final(self).detail_cache == old(self).detail_cache && ({
                    let p = pane_of(*final(self), load.in_search);
                    &&& key_is(p.key, load.target@.1)
                    &&& p.title@.len() == 0 && p.rows@.len() == 0 && p.selected == 0
                    &&& p.message == Some(m)
                }),
            },
    {
        let key = String::from_str(load.target.uri());
        match res {
            Ok(data) => {
                self.detail_cache.insert(key.clone(), data.duplicate());
                self.set_pane(load.in_search, key, data);
            },
            Err(m) => self.set_pane_error(load.in_search, key, m),
        }
    }

    /// Forget the cached detail for `key`, so the next load fetches it again.
    pub fn forget_detail(&mut self, key: &str)
        ensures
            !final(self).detail_cache.has(key@),
            forall|k: Seq<char>| k != key@ ==> (final(self).detail_cache.has(k) <==> old(self).detail_cache.has(k)),
            forall|k: Seq<char>| k != key@ && final(self).detail_cache.has(k)
                ==> final(self).detail_cache.at(k) == old(self).detail_cache.at(k),
            *final(self) == (Dashboard { detail_cache: final(self).detail_cache, ..*old(self) }),
    {
        self.detail_cache.remove(key);
    }

    /// Whether to poll now (`blocked`: a cooldown is active).
    pub fn poll_due(&self, blocked: bool, now_ms: u64) -> (b: bool)
        ensures
            b == poll_due_spec(self.last_poll_ms, self.player.poll_failures, blocked, now_ms as nat),
    {
        let forced = self.last_poll_ms.is_none();
        let timer_due = match self.last_poll_ms {
            Some(t) => now_ms >= t && now_ms - t >= POLL_INTERVAL_MS,
            None => true,
        };
        !blocked && (forced || (timer_due && self.player.poll_failures < MAX_POLL_FAILURES))
    }

    /// Record that a poll ran at `now_ms`.
    pub fn polled(&mut self, now_ms: u64)
        ensures
            final(self).last_poll_ms == Some(now_ms),
            final(self).player == old(self).player,
            final(self).limiter == old(self).limiter,
    {
        self.last_poll_ms = Some(now_ms);
    }

    /// Age the status line: a changed status restarts its clock; once it has stood for
    /// `STATUS_TTL_MS` without ongoing poll failures it is cleared.
    pub fn tick_status(&mut self, now_ms: u64)
        ensures
            ({
                let changed = old(self).player.status@ != old(self).last_status@;
                let since = if changed { now_ms as int } else { old(self).status_since_ms as int };
                let expire = old(self).player.poll_failures == 0 && old(self).player.status@.len() > 0
                    && now_ms >= since && now_ms - since >= STATUS_TTL_MS;
                &&& final(self).status_since_ms == since
                &&& if expire {
                    final(self).player.status@.len() == 0 && final(self).last_status@.len() == 0
                } else {
                    final(self).player.status == old(self).player.status
                        && final(self).last_status@ == old(self).player.status@
                }
            }),
            final(self).player.now == old(self).player.now,
            final(self).player.poll_failures == old(self).player.poll_failures,
            final(self).limiter == old(self).limiter,
            final(self).last_poll_ms == old(self).last_poll_ms,
    {
        if !(self.player.status == self.last_status) {
            self.last_status = self.player.status.clone();
            self.status_since_ms = now_ms;
        }
        if self.player.poll_failures == 0 && !self.player.status.as_str().is_empty() && now_ms >= self.status_since_ms
            && now_ms - self.status_since_ms >= STATUS_TTL_MS
        {
            self.player.status = String::new();
            self.last_status = String::new();
        }
    }

    /// Record which optional panes the last draw showed: the detail pane, and the queue (drawn in
    /// the visualizer's place).
    pub fn drawn(&mut self, areas: &DashboardAreas)
        ensures
            *final(self) == (Dashboard {
                detail_visible: areas.detail is Some,
                queue_visible: areas.visualizer is Some,
                ..*old(self)
            }),
    {
        self.detail_visible = areas.detail.is_some();
        self.queue_visible = areas.visualizer.is_some();
    }

    /// After a draw: when the queue pane just reappeared, poll at once so it does not sit on stale
    /// rows for a whole interval.
    pub fn after_draw(&mut self, prev_queue_visible: bool)
        ensures
            !prev_queue_visible && old(self).queue_visible ==> final(self).last_poll_ms is None,
            !(!prev_queue_visible && old(self).queue_visible) ==> final(self).last_poll_ms == old(self).last_poll_ms,
            final(self).player == old(self).player,
            final(self).queue_visible == old(self).queue_visible,
    {
        if !prev_queue_visible && self.queue_visible {
            self.last_poll_ms = None;
        }
    }

    /// Record a detected 429 at `now_ms`: arm the cooldown and show the countdown. Poll failures
    /// are left alone, so rate limiting never stops auto-refresh.
    pub fn note_rate_limit(&mut self, hit: RateLimitHit, now_ms: u64)
        ensures
            rate_limit_noted(*old(self), *final(self), hit, now_ms as nat),
            final(self).player.poll_failures == old(self).player.poll_failures,
            final(self).player.now == old(self).player.now,
            final(self).limiter.hits == (if old(self).limiter.hits == u32::MAX { u32::MAX } else { (old(self).limiter.hits + 1) as u32 }),
            final(self).limiter.until_ms is Some,
            final(self).last_poll_ms == old(self).last_poll_ms,
            final(self).mode == old(self).mode,
    {
        let s = self.limiter.note(hit, now_ms);
        self.player.status = s;
    }

    /// Reflect a control operation's outcome: success ends any cooldown, shows `ok` and asks for a
    /// poll; a 429 arms the cooldown; any other failure is reported with a hint to pick a device.
    pub fn finish(&mut self, res: Result<(), CallError>, ok: String, now_ms: u64)
        ensures
            match res {
                Ok(()) => final(self).player.status == ok && final(self).last_poll_ms is None
                    && final(self).limiter.until_ms is None && final(self).limiter.hits == 0,
                Err(e) => match e.rate_limit {
                    Some(hit) => rate_limit_noted(*old(self), *final(self), hit, now_ms as nat),
                    None => final(self).player.status@ == op_failed_status(e.message@)
                        && final(self).limiter == old(self).limiter
                        && final(self).last_poll_ms == old(self).last_poll_ms,
                },
            },
            final(self).player.poll_failures == old(self).player.poll_failures,
            final(self).player.now == old(self).player.now,
            final(self).mode == old(self).mode,
    {
        match res {
            Ok(()) => {
                self.limiter.clear();
                self.player.status = ok;
                self.last_poll_ms = None;
            },
            Err(e) => match e.rate_limit {
                Some(hit) => self.note_rate_limit(hit, now_ms),
                None => {
                    let mut m = String::from_str(theme::WARN);
                    push_str(&mut m, " operation failed: ");
                    push_str(&mut m, e.message.as_str());
                    push_str(&mut m, " (press d to select and activate a device)");
                    self.player.status = m;
                },
            },
        }
    }

    /// A token refresh before an operation failed: a 429 arms the cooldown, anything else is shown.
    pub fn token_failed(&mut self, e: CallError, now_ms: u64)
        ensures
            match e.rate_limit {
                Some(hit) => rate_limit_noted(*old(self), *final(self), hit, now_ms as nat),
                None => final(self).player.status@ == theme::WARN@ + " "@ + e.message@
                    && final(self).limiter == old(self).limiter,
            },
            final(self).player.poll_failures == old(self).player.poll_failures,
            final(self).last_poll_ms == old(self).last_poll_ms,
    {
        match e.rate_limit {
            Some(hit) => self.note_rate_limit(hit, now_ms),
            None => {
                let mut m = String::from_str(theme::WARN);
                push_str(&mut m, " ");
                push_str(&mut m, e.message.as_str());
                self.player.status = m;
            },
        }
    }

    /// A successful poll proves the request budget recovered: end any cooldown.
    pub fn clear_rate_limit(&mut self)
        ensures
            final(self).limiter.until_ms is None,
            final(self).limiter.hits == 0,
            final(self).player == old(self).player,
    {
        self.limiter.clear();
    }

    /// The status line's text and kind: while auto-refresh is stopped, the stopped notice (a
    /// warning that does not age away); otherwise the status classified by its glyph.
    pub fn status_line(&self) -> (r: (String, StatusKind))
        ensures
            self.player.poll_failures >= MAX_POLL_FAILURES ==> r.0@ == stopped_notice() && r.1 == StatusKind::Warn,
            self.player.poll_failures < MAX_POLL_FAILURES ==> r.0 == self.player.status
                && r.1 == status_kind_spec(self.player.status@),
    {
        if self.player.poll_failures >= MAX_POLL_FAILURES {
            let mut m = String::from_str(theme::WARN);
            push_str(&mut m, " auto-refresh is stopped. Press r to retry / q to quit");
            (m, StatusKind::Warn)
        } else {
            (self.player.status.clone(), status_kind(self.player.status.as_str()))
        }
    }

    /// The lower pane drawn as focused: the search screen's focus while searching, the
    /// dashboard's otherwise, clamped to the library when the detail pane is hidden.
    pub fn drawn_focus(&self, detail_visible: bool) -> (f: Focus)
        ensures
            f == (if detail_visible {
                match self.mode { Mode::Search(s) => s.focus, _ => self.focus }
            } else {
                Focus::Library
            }),
    {
        let f = match &self.mode {
            Mode::Search(s) => s.focus,
            _ => self.focus,
        };
        f.effective(detail_visible)
    }

    /// Handle a key press on the dashboard itself (no overlay open). `q`/`Esc` quit, `/` opens
    /// the search screen, `?` the help; `tab` moves the focus between the lower panes; `[`/`]`,
    /// `↑`/`↓` and `Enter` act on the focused pane; the rest are transport controls. `r` resets the
    /// failure count, asks for a poll and re-fetches the focused pane's content.
    pub fn normal_key(&mut self, key: Key) -> (c: Task)
        requires
            old(self).mode is Normal,
        ensures
            normal_key_ok(*old(self), *final(self), key, c),
    {
        match key.code {
            KeyCode::Esc => Task::Quit,
            KeyCode::Tab => {
                self.focus = self.focus.next(self.detail_visible);
                Task::Nothing
            },
            KeyCode::Up => {
                if self.focus == Focus::Library {
                    self.library.select_prev();
                } else {
                    self.detail.select_prev();
                }
                Task::Nothing
            },
            KeyCode::Down => {
                if self.focus == Focus::Library {
                    self.library.select_next();
                } else {
                    self.detail.select_next();
                }
                Task::Nothing
            },
            KeyCode::Enter => {
                if self.focus == Focus::Library {
                    Task::PlayLibrarySelection
                } else {
                    Task::PlayDetailSelection
                }
            },
            KeyCode::Left => Task::Seek(-SEEK_STEP_MS),
            KeyCode::Right => Task::Seek(SEEK_STEP_MS),
            KeyCode::Char(ch) => self.normal_char(ch),
            _ => Task::Nothing,
        }
    }

    fn normal_char(&mut self, ch: char) -> (c: Task)
        requires
            old(self).mode is Normal,
        ensures
            if ch == 'q' {
                c is Quit
            } else if ch == '/' {
                c is Nothing && (final(self).mode matches Mode::Search(st) && st.query@.len() == 0
                    && st.rows@.len() == 0 && st.selected == 0)
            } else if ch == '?' {
                c is Nothing && final(self).mode is Help
            } else if ch == '[' || ch == ']' {
                if old(self).focus == Focus::Library {
                    c matches Task::LoadLibrary(t) && t == tab_at(
                        (tab_index(old(self).library.tab) + if ch == '[' { 4nat } else { 1nat }) % 5)
                } else {
                    c is Nothing
                }
            } else if ch == 'd' {
                c is OpenDevices
            } else if ch == ' ' {
                c is Toggle
            } else if ch == 'n' {
                c matches Task::Skip(f) && f
            } else if ch == 'p' {
                c matches Task::Skip(f) && !f
            } else if ch == '+' || ch == '=' {
                c matches Task::Volume(v) && v == VOL_STEP
            } else if ch == '-' || ch == '_' {
                c matches Task::Volume(v) && v == -VOL_STEP
            } else if ch == 's' {
                c is Save
            } else if ch == 'r' {
                &&& final(self).player.poll_failures == 0
                &&& final(self).last_poll_ms is None
                &&& final(self).player.art_url is None
                &&& if old(self).focus == Focus::Library {
                    c matches Task::LoadLibrary(t) && t == old(self).library.tab
                        && final(self).browse_cache.slot(t) is None
                } else {
                    final(self).detail.key is None && match old(self).detail.key {
                        Some(k) => c matches Task::ForgetDetail(f) && f == k,
                        None => c is Nothing,
                    }
                }
            } else {
                c is Nothing
            },
    {
        if ch == 'q' {
            Task::Quit
        } else if ch == '/' {
            self.mode = Mode::Search(Box::new(SearchState::new()));
            Task::Nothing
        } else if ch == '?' {
            self.mode = Mode::Help;
            Task::Nothing
        } else if ch == '[' || ch == ']' {
            if self.focus == Focus::Library {
                let t = if ch == '[' { self.library.tab.prev() } else { self.library.tab.next() };
                Task::LoadLibrary(t)
            } else {
                Task::Nothing
            }
        } else if ch == 'd' {
            Task::OpenDevices
        } else if ch == ' ' {
            Task::Toggle
        } else if ch == 'n' {
            Task::Skip(true)
        } else if ch == 'p' {
            Task::Skip(false)
        } else if ch == '+' || ch == '=' {
            Task::Volume(VOL_STEP)
        } else if ch == '-' || ch == '_' {
            Task::Volume(-VOL_STEP)
        } else if ch == 's' {
            Task::Save
        } else if ch == 'r' {
            self.player.poll_failures = 0;
            self.last_poll_ms = None;
            self.player.art_url = None;
            if self.focus == Focus::Library {
                let t = self.library.tab;
                self.browse_cache.clear(t);
                Task::LoadLibrary(t)
            } else {
                let key = self.detail.key.take();
                match key {
                    Some(k) => Task::ForgetDetail(k),
                    None => Task::Nothing,
                }
            }
        } else {
            Task::Nothing
        }
    }

    /// Handle a key press: Ctrl-C quits from any screen; otherwise the open screen handles it. Any
    /// key closes the help overlay; `Esc` closes the device picker.
    pub fn handle_key(&mut self, key: Key) -> (c: Task)
        ensures
            key.code == KeyCode::Char('c') && key.ctrl ==> c is Quit,
            !(key.code == KeyCode::Char('c') && key.ctrl) ==> match old(self).mode {
                Mode::Help => c is Nothing && final(self).mode is Normal,
                Mode::Devices(st0) => match device_action_spec(key) {
                    DeviceAction::Close => c is Nothing && final(self).mode is Normal,
                    a => (final(self).mode matches Mode::Devices(st1)
                        && st1 == (DevicePickerState { selected: device_selection_after(st0, key), ..st0 }))
                        && match a {
                            DeviceAction::Transfer => c is TransferDevice,
                            DeviceAction::Reload => c is ReloadDevices,
                            _ => c is Nothing,
                        },
                },
                Mode::Search(st0) => (final(self).mode matches Mode::Search(st1)
                    && (c matches Task::Search(a) && search_key_ok(*st0, *st1, key, old(self).detail_visible, a))),
                Mode::Normal => normal_key_ok(*old(self), *final(self), key, c),
            },
            !(key.code == KeyCode::Char('c') && key.ctrl) && !(old(self).mode is Normal)
                ==> *final(self) == (Dashboard { mode: final(self).mode, ..*old(self) }),
    {
        if key.is_interrupt() {
            return Task::Quit;
        }
        match self.mode.kind() {
            ModeKind::Help => {
                self.mode = Mode::Normal;
                Task::Nothing
            },
            ModeKind::Devices => {
                let action = match &mut self.mode {
                    Mode::Devices(state) => key_action(key, state),
                    _ => DeviceAction::Nothing,
                };
                match action {
                    DeviceAction::Nothing => Task::Nothing,
                    DeviceAction::Close => {
                        self.mode = Mode::Normal;
                        Task::Nothing
                    },
                    DeviceAction::Transfer => Task::TransferDevice,
                    DeviceAction::Reload => Task::ReloadDevices,
                }
            },
            ModeKind::Search => {
                let detail_visible = self.detail_visible;
                let action = match &mut self.mode {
                    Mode::Search(state) => state.key_action(key, detail_visible),
                    _ => SearchAction::Nothing,
                };
                Task::Search(action)
            },
            ModeKind::Normal => self.normal_key(key),
        }
    }

    /// Show library tab `tab` from the cache if it is there (returns `false`); otherwise the tab
    /// must be fetched (returns `true`).
    pub fn library_request(&mut self, tab: BrowseTab) -> (fetch: bool)
        ensures
            fetch == (old(self).browse_cache.slot(tab) is None),
            !fetch ==> final(self).library.tab == tab && (old(self).browse_cache.slot(tab) matches Some(l)
                && final(self).library.rows@ == l.rows@ && final(self).library.message == l.note),
            fetch ==> final(self).library == old(self).library,
            final(self).browse_cache == old(self).browse_cache,
            final(self).player == old(self).player,
    {
        let shown = match self.browse_cache.get(tab) {
            Some(l) => Some((duplicate_rows(&l.rows), clone_opt(&l.note))),
            None => None,
        };
        match shown {
            Some((rows, note)) => {
                self.library.tab = tab;
                self.library.set_rows(rows, note);
                false
            },
            None => true,
        }
    }

    /// Show the outcome of fetching library tab `tab`: the rows (and note) are shown and cached;
    /// a failure empties the list and shows the error in its place, and nothing is cached.
    pub fn library_fetched(&mut self, tab: BrowseTab, res: Result<Loaded, String>)
        ensures
            final(self).library.tab == tab,
            final(self).library_loaded,
            match res {
                Ok(l) => final(self).library.rows@ == l.rows@ && final(self).library.message == l.note
                    && final(self).browse_cache.slot(tab) == Some(l),
                Err(e) => final(self).library.rows@.len() == 0 && final(self).library.message == Some(e)
                    && final(self).browse_cache == old(self).browse_cache,
            },
            final(self).player == old(self).player,
    {
        self.library_loaded = true;
        self.library.tab = tab;
        match res {
            Ok(l) => {
                let rows = duplicate_rows(&l.rows);
                let note = clone_opt(&l.note);
                self.library.set_rows(rows, note);
                self.browse_cache.set(tab, l);
            },
            Err(e) => {
                self.library.set_rows(Vec::new(), Some(e));
            },
        }
    }

    /// Open the device picker on a fetched list, or report the failure: inside the picker as its
    /// message, on the dashboard on the status line.
    pub fn devices_fetched(&mut self, res: Result<Vec<DeviceEntry>, String>)
        ensures
            match res {
                Ok(items) => final(self).mode matches Mode::Devices(st) && st.items == items,
                Err(e) => match old(self).mode {
                    Mode::Devices(st0) => final(self).mode matches Mode::Devices(st) && st.items == st0.items
                        && st.selected == st0.selected && (st.message matches Some(m) && m@ == "failed to fetch: "@ + e@),
                    _ => final(self).mode == old(self).mode
                        && final(self).player.status@ == theme::WARN@ + " failed to fetch the device list: "@ + e@,
                },
            },
    {
        match res {
            Ok(items) => {
                self.mode = Mode::Devices(DevicePickerState::from_list(items));
            },
            Err(e) => match &mut self.mode {
                Mode::Devices(state) => {
                    let mut m = String::from_str("failed to fetch: ");
                    push_str(&mut m, e.as_str());
                    state.message = Some(m);
                },
                _ => {
                    let mut m = String::from_str(theme::WARN);
                    push_str(&mut m, " failed to fetch the device list: ");
                    push_str(&mut m, e.as_str());
                    self.player.status = m;
                },
            },
        }
    }

    /// Decide a transfer to the selected device: the id and name to transfer to, or nothing (no
    /// selection, or a refused device, whose reason becomes the picker's message).
    pub fn transfer_start(&mut self) -> (r: Option<(String, String)>)
        ensures
            match old(self).mode {
                Mode::Devices(st0) => {
                    let p = transfer_spec(st0.items@, st0.selected as int);
                    &&& final(self).mode matches Mode::Devices(st) && st.items == st0.items && st.selected == st0.selected
                    &&& match p {
                        PlanSpec::Nothing => r is None && (final(self).mode matches Mode::Devices(st) && st.message == st0.message),
                        PlanSpec::Refuse(m) => r is None && (final(self).mode matches Mode::Devices(st) && (st.message matches Some(x) && x@ == m)),
                        PlanSpec::Go(id, name) => r matches Some((i, n)) && i == id && n == name
                            && (final(self).mode matches Mode::Devices(st) && st.message == st0.message),
                    }
                },
                _ => r is None && final(self).mode == old(self).mode,
            },
            *final(self) == (Dashboard { mode: final(self).mode, ..*old(self) }),
    {
        match &mut self.mode {
            Mode::Devices(state) => {
                let plan = transfer_plan(state);
                match plan {
                    TransferPlan::Nothing => None,
                    TransferPlan::Refuse(m) => {
                        state.message = Some(m);
                        None
                    },
                    TransferPlan::Go { id, name } => Some((id, name)),
                }
            },
            _ => None,
        }
    }

    /// Reflect a transfer's outcome: on success the status says where playback went, a poll is
    /// requested and the picker closes; a failure is shown in the picker (or on the status line).
    pub fn transfer_done(&mut self, res: Result<(), String>, name: &str)
        ensures
            match res {
                Ok(()) => final(self).mode is Normal && final(self).last_poll_ms is None
                    && final(self).player.status@ == theme::PLAY@ + " Moved playback to '"@ + name@ + "'"@,
                Err(e) => match old(self).mode {
                    Mode::Devices(st0) => final(self).mode matches Mode::Devices(st) && st.items == st0.items
                        && (st.message matches Some(m) && m@ == "transfer failed: "@ + e@),
                    _ => final(self).player.status@ == theme::WARN@ + " transfer failed: "@ + e@,
                },
            },
    {
        match res {
            Ok(()) => {
                self.player.status = transfer_done_status(name);
                self.last_poll_ms = None;
                self.mode = Mode::Normal;
            },
            Err(e) => match &mut self.mode {
                Mode::Devices(state) => {
                    let mut m = String::from_str("transfer failed: ");
                    push_str(&mut m, e.as_str());
                    state.message = Some(m);
                },
                _ => {
                    let mut m = String::from_str(theme::WARN);
                    push_str(&mut m, " transfer failed: ");
                    push_str(&mut m, e.as_str());
                    self.player.status = m;
                },
            },
        }
    }

    /// Show a search's outcome in the search screen: the classified results, or the error as its
    /// message (never a silent blank).
    pub fn search_done(&mut self, query: String, res: Result<SearchResults, String>)
        ensures
            match old(self).mode {
                Mode::Search(_) => final(self).mode matches Mode::Search(st) && match res {
                    Ok(r) => st.results == r && st.query == query && st.phase == SearchPhase::Results,
                    Err(e) => st.message == Some(e),
                },
                _ => final(self).mode == old(self).mode,
            },
    {
        match &mut self.mode {
            Mode::Search(state) => match res {
                Ok(r) => state.set_results(query, r),
                Err(e) => {
                    state.message = Some(e);
                },
            },
            _ => {},
        }
    }

    /// Reflect the outcome of starting playback from the search screen: like any control, and on
    /// success the search screen closes so the new track shows.
    pub fn search_played(&mut self, res: Result<(), CallError>, now_ms: u64)
        ensures
            match res {
                Ok(()) => final(self).mode is Normal && final(self).last_poll_ms is None
                    && final(self).player.status@ == theme::PLAY@ + " Playing"@
                    && final(self).limiter.until_ms is None && final(self).limiter.hits == 0,
                Err(e) => final(self).mode == old(self).mode && match e.rate_limit {
                    Some(hit) => rate_limit_noted(*old(self), *final(self), hit, now_ms as nat),
                    None => final(self).player.status@ == op_failed_status(e.message@)
                        && final(self).limiter == old(self).limiter
                        && final(self).last_poll_ms == old(self).last_poll_ms,
                },
            },
            final(self).player.poll_failures == old(self).player.poll_failures,
            final(self).player.now == old(self).player.now,
    {
        let ok = res.is_ok();
        self.finish(res, toggle_message(false), now_ms);
        if ok {
            self.mode = Mode::Normal;
        }
    }
}

/// A transfer decision as values.
pub enum PlanSpec {
    Nothing,
    Refuse(Seq<char>),
    Go(String, String),
}

/// The transfer decision for the selected device (see [`transfer_plan`]).
pub open spec fn transfer_spec(items: Seq<DeviceEntry>, selected: int) -> PlanSpec {
    if 0 <= selected < items.len() {
        let d = items[selected];
        if d.is_restricted {
            PlanSpec::Refuse("'"@ + d.name@ + "' is restricted and cannot be transferred to"@)
        } else {
            match d.id {
                Some(id) => PlanSpec::Go(id, d.name),
                None => PlanSpec::Refuse("'"@ + d.name@ + "' has no ID and cannot be transferred to"@),
            }
        }
    } else {
        PlanSpec::Nothing
    }
}

/// A copy of a list of rows.
fn duplicate_rows(rows: &[LibraryRow]) -> (r: Vec<LibraryRow>)
    ensures
        r@ == rows@,
{
    let mut r: Vec<LibraryRow> = Vec::new();
    let mut i: usize = 0;
    while i < rows.len()
        invariant
            i <= rows@.len(),
            r@ == rows@.take(i as int),
        decreases rows.len() - i,
    {
        r.push(rows[i].duplicate());
        assert(rows@.take(i + 1) =~= rows@.take(i as int).push(rows@[i as int]));
        i = i + 1;
    }
    assert(rows@.take(rows@.len() as int) =~= rows@);
    r
}

fn clone_opt(s: &Option<String>) -> (r: Option<String>)
    ensures
        r == *s,
{
    match s {
        Some(x) => Some(x.clone()),
        None => None,
    }
}


/// While a cooldown blocks calls there is no poll; once auto-refresh has stopped (too many
/// consecutive failures) only an explicit request (`r`, an operation) brings a poll back; and a
/// requested poll runs as soon as nothing blocks it.
pub proof fn lemma_poll_gating(last_poll_ms: Option<u64>, poll_failures: u32, blocked: bool, now_ms: nat)
    ensures
        blocked ==> !poll_due_spec(last_poll_ms, poll_failures, blocked, now_ms),
        poll_failures >= MAX_POLL_FAILURES && last_poll_ms is Some ==> !poll_due_spec(last_poll_ms, poll_failures, blocked, now_ms),
        !blocked && last_poll_ms is None ==> poll_due_spec(last_poll_ms, poll_failures, blocked, now_ms),
{
}

/// Every failure the dashboard reports on its own status line reads as a warning.
pub proof fn lemma_failures_read_as_warnings(e: Seq<char>)
    ensures
        status_kind_spec(op_failed_status(e)) == StatusKind::Warn,
        status_kind_spec(stopped_notice()) == StatusKind::Warn,
        status_kind_spec(theme::WARN@ + " "@ + e) == StatusKind::Warn,
{
    assert(op_failed_status(e) =~= theme::WARN@ + (" operation failed: "@ + e + " (press d to select and activate a device)"@));
    lemma_warn_prefix_is_warning(" operation failed: "@ + e + " (press d to select and activate a device)"@);
    assert(stopped_notice() =~= theme::WARN@ + " auto-refresh is stopped. Press r to retry / q to quit"@);
    lemma_warn_prefix_is_warning(" auto-refresh is stopped. Press r to retry / q to quit"@);
    assert(theme::WARN@ + " "@ + e =~= theme::WARN@ + (" "@ + e));
    lemma_warn_prefix_is_warning(" "@ + e);
}

} // verus!
