//! Screen geometry: rectangles, the split of an area into sized parts (delegated to ratatui's
//! constraint solver), and the dashboard's region layout.

use ratatui::layout as rl;
use vstd::prelude::*;

verus! {

/// A rectangle of terminal cells.
#[derive(Debug, Clone, Copy, PartialEq, Eq, Structural)]
pub struct Rect {
    pub x: u16,
    pub y: u16,
    pub width: u16,
    pub height: u16,
}

/// `a + b` saturated at `u16::MAX`.
pub open spec fn sat_add16(a: u16, b: nat) -> nat {
    if a + b > u16::MAX { u16::MAX as nat } else { (a + b) as nat }
}

/// The rectangle `Rect::new(x, y, width, height)` builds: width and height are clamped so that the
/// right and bottom edges stay within `u16`.
pub open spec fn rect_new(x: u16, y: u16, width: u16, height: u16) -> Rect {
    Rect {
        x,
        y,
        width: (sat_add16(x, width as nat) - x) as u16,
        height: (sat_add16(y, height as nat) - y) as u16,
    }
}

/// Whether `r` lies entirely inside `outer`.
pub open spec fn within(outer: Rect, r: Rect) -> bool {
    &&& r.x >= outer.x
    &&& r.y >= outer.y
    &&& sat_add16(r.x, r.width as nat) <= sat_add16(outer.x, outer.width as nat)
    &&& sat_add16(r.y, r.height as nat) <= sat_add16(outer.y, outer.height as nat)
}

fn sat_add(a: u16, b: u16) -> (r: u16)
    ensures
        r == sat_add16(a, b as nat),
{
    if a > u16::MAX - b { u16::MAX } else { a + b }
}

impl Rect {
    /// Create a rectangle, clamping width and height to keep both edges within `u16`.
    pub fn new(x: u16, y: u16, width: u16, height: u16) -> (r: Rect)
        ensures
            r == rect_new(x, y, width, height),
    {
        Rect { x, y, width: sat_add(x, width) - x, height: sat_add(y, height) - y }
    }

    /// The first column to the right of the rectangle (saturating).
    pub fn right(self) -> (r: u16)
        ensures
            r == sat_add16(self.x, self.width as nat),
    {
        sat_add(self.x, self.width)
    }

    /// The first row below the rectangle (saturating).
    pub fn bottom(self) -> (r: u16)
        ensures
            r == sat_add16(self.y, self.height as nat),
    {
        sat_add(self.y, self.height)
    }
}

/// A size constraint for one part of a split.
#[derive(Debug, Clone, Copy, PartialEq, Eq, Structural)]
pub enum Constraint {
    /// A percentage of the available space.
    Percentage(u16),
    /// An exact number of cells.
    Length(u16),
    /// At least this many cells.
    Min(u16),
}

/// What every part of a split satisfies: it lies inside the area, and it keeps the area's extent
/// across the split (a vertical split keeps `x` and `width`, a horizontal one `y` and `height`).
pub open spec fn split_part(area: Rect, vertical: bool, p: Rect) -> bool {
    &&& within(area, p)
    &&& if vertical {
        p.x == area.x && p.width == area.width
    } else {
        p.y == area.y && p.height == area.height
    }
}

/// Where a part starts along the split direction.
pub open spec fn main_start(vertical: bool, p: Rect) -> int {
    if vertical { p.y as int } else { p.x as int }
}

/// Where a part ends along the split direction.
pub open spec fn main_end(vertical: bool, p: Rect) -> int {
    if vertical { p.y + p.height } else { p.x + p.width }
}

/// `b` comes after `a` along the split direction, without overlapping it.
pub open spec fn follows(vertical: bool, a: Rect, b: Rect) -> bool {
    main_end(vertical, a) <= main_start(vertical, b)
}

/// Whether `parts` is an outcome ratatui's constraint solver can give when `Layout::split` (no
/// margin, no spacing, along `vertical`) splits `area` under `constraints`. The solver may pick
/// among several outcomes, so this is a relation, not a function of its arguments.
pub uninterp spec fn split_outcome(area: Rect, vertical: bool, constraints: Seq<Constraint>, parts: Seq<Rect>) -> bool;

/// `ratatui::layout::Layout::split` (no margin, no spacing): one rectangle per constraint, in
/// constraint order. Each part lies inside the area and spans it across the split direction, and
/// each part ends before the next begins: ratatui's required constraints keep every boundary
/// inside the area and in order, and `changes_to_rects` rounds them monotonically. How the space
/// is shared along the split depends on the solver (ratatui calls some constraint sets
/// indeterminate), so no size is stated.
#[verifier::external_body]
fn split(area: Rect, vertical: bool, constraints: &[Constraint]) -> (r: Vec<Rect>)
    ensures
        split_outcome(area, vertical, constraints@, r@),
        r@.len() == constraints@.len(),
        forall|k: int| 0 <= k < r@.len() ==> split_part(area, vertical, #[trigger] r@[k]),
        forall|k: int| 0 <= k < r@.len() - 1 ==> follows(vertical, #[trigger] r@[k], r@[k + 1]),
{
    let cs = constraints.iter().map(|c| match *c {
        Constraint::Percentage(p) => rl::Constraint::Percentage(p),
        Constraint::Length(n) => rl::Constraint::Length(n),
        Constraint::Min(n) => rl::Constraint::Min(n),
    });
    let dir = if vertical { rl::Direction::Vertical } else { rl::Direction::Horizontal };
    let rect = rl::Rect { x: area.x, y: area.y, width: area.width, height: area.height };
    let parts = rl::Layout::default().direction(dir).constraints(cs).split(rect);
    parts.iter().map(|p| Rect { x: p.x, y: p.y, width: p.width, height: p.height }).collect()
}

/// Allocate up to `count` single-row rectangles stacked from the top of `area`, dropping any that
/// do not fit, so priority-ordered rows never get crushed to height 0.
pub fn stack_rows(area: Rect, count: usize) -> (rows: Vec<Rect>)
    ensures
        rows@.len() == (if count <= sat_add16(area.y, area.height as nat) - area.y {
            count as nat
        } else {
            (sat_add16(area.y, area.height as nat) - area.y) as nat
        }),
        forall|k: int| 0 <= k < rows@.len() ==> #[trigger] rows@[k] == rect_new(area.x, (area.y + k) as u16, area.width, 1),
        forall|k: int| 0 <= k < rows@.len() ==> (#[trigger] rows@[k]).height == 1 && within(area, rows@[k]),
{
    let bottom = area.bottom();
    let mut rows: Vec<Rect> = Vec::new();
    let mut i: usize = 0;
    while i < count && (i as u16) < bottom - area.y && i < 65536
        invariant
            i <= count,
            bottom == sat_add16(area.y, area.height as nat),
            i <= bottom - area.y,
            rows@.len() == i,
            forall|k: int| 0 <= k < i ==> #[trigger] rows@[k] == rect_new(area.x, (area.y + k) as u16, area.width, 1),
            forall|k: int| 0 <= k < i ==> (#[trigger] rows@[k]).height == 1 && within(area, rows@[k]),
        decreases count - i,
    {
        let y = area.y + i as u16;
        let r = Rect::new(area.x, y, area.width, 1);
        rows.push(r);
        i = i + 1;
    }
    rows
}

// ---- dashboard --------------------------------------------------------------

/// Below this inner width the dashboard collapses to a single column (inclusive boundary).
pub const MIN_TWO_COL_WIDTH: u16 = 60;
/// Below this inner height the footer row is dropped first.
pub const MIN_FOOTER_HEIGHT: u16 = 12;
/// Below this inner height the visualizer pane is dropped (after the footer).
pub const MIN_VISUALIZER_HEIGHT: u16 = 10;

/// The dashboard regions carved out of the inner area (inside the outer border). Optional regions
/// are `None` when the terminal is too small (or, for `search_bar`, when search is inactive).
pub struct DashboardAreas {
    /// Upper-left Now Playing pane (always present).
    pub now_playing: Rect,
    /// Upper-right visualizer pane (`None` on narrow or short terminals).
    pub visualizer: Option<Rect>,
    /// The search input row (`Some` only while search is active).
    pub search_bar: Option<Rect>,
    /// Lower-left library pane (always present).
    pub library: Rect,
    /// Lower-right detail pane (`None` on narrow terminals).
    pub detail: Option<Rect>,
    /// The status line (reserved first, so it survives down to an inner height of 1).
    pub status: Rect,
    /// The playback bar row (reserved second, so it survives down to an inner height of 2).
    pub playbar: Rect,
    /// The footer/key-hint row (`None` on short terminals).
    pub footer: Option<Rect>,
}

/// Heights of the body, status, playbar and footer rows for an inner height `h`.
pub open spec fn row_heights(h: nat, show_footer: bool) -> (nat, nat, nat, nat) {
    let status_h: nat = if h >= 1 { 1 } else { 0 };
    let r1 = (h - status_h) as nat;
    let playbar_h: nat = if r1 >= 1 { 1 } else { 0 };
    let r2 = (r1 - playbar_h) as nat;
    let footer_h: nat = if show_footer && r2 >= 1 { 1 } else { 0 };
    let body_h = (r2 - footer_h) as nat;
    (body_h, status_h, playbar_h, footer_h)
}

/// The constraints of the vertical body split: the upper row, the search bar (while searching),
/// and the lower row.
pub open spec fn body_constraints(search_active: bool) -> Seq<Constraint> {
    if search_active {
        seq![Constraint::Percentage(45), Constraint::Length(1), Constraint::Min(1)]
    } else {
        seq![Constraint::Percentage(45), Constraint::Percentage(55)]
    }
}

/// Everything `dashboard_areas(inner, search_active)` returns: the bottom rows exactly, and the
/// body's regions as the solver may place them (each inside its parent, in order, spanning the
/// parent across the split).
pub open spec fn dashboard_spec(inner: Rect, search_active: bool, a: DashboardAreas) -> bool {
    let two_col = inner.width >= MIN_TWO_COL_WIDTH;
    let show_footer = inner.height >= MIN_FOOTER_HEIGHT;
    let show_vis = two_col && inner.height >= MIN_VISUALIZER_HEIGHT;
    let (body_h, status_h, playbar_h, footer_h) = row_heights(inner.height as nat, show_footer);
    let body = rect_new(inner.x, inner.y, inner.width, body_h as u16);
    let upper = Rect { x: body.x, y: a.now_playing.y, width: body.width, height: a.now_playing.height };
    let lower = Rect { x: body.x, y: a.library.y, width: body.width, height: a.library.height };
    &&& a.status == rect_new(inner.x, (inner.y + body_h) as u16, inner.width, status_h as u16)
    &&& a.playbar == rect_new(inner.x, (inner.y + body_h + status_h) as u16, inner.width, playbar_h as u16)
    &&& a.footer == (if show_footer {
        Some(rect_new(inner.x, (inner.y + body_h + status_h + playbar_h) as u16, inner.width, footer_h as u16))
    } else {
        None
    })
    &&& split_part(body, true, upper)
    &&& split_part(body, true, lower)
    &&& if search_active {
        a.search_bar matches Some(sb) && split_part(body, true, sb) && follows(true, upper, sb)
            && follows(true, sb, lower)
            && split_outcome(body, true, body_constraints(true), seq![upper, sb, lower])
    } else {
        a.search_bar is None && follows(true, upper, lower)
            && split_outcome(body, true, body_constraints(false), seq![upper, lower])
    }
    &&& if show_vis {
        a.visualizer matches Some(v) && split_part(upper, false, a.now_playing) && split_part(upper, false, v)
            && follows(false, a.now_playing, v)
            && split_outcome(upper, false, seq![Constraint::Percentage(50), Constraint::Percentage(50)], seq![a.now_playing, v])
    } else {
        a.visualizer is None && a.now_playing == upper
    }
    &&& if two_col {
        a.detail matches Some(d) && split_part(lower, false, a.library) && split_part(lower, false, d)
            && follows(false, a.library, d)
            && split_outcome(lower, false, seq![Constraint::Percentage(41), Constraint::Percentage(59)], seq![a.library, d])
    } else {
        a.detail is None && a.library == lower
    }
}

/// Split the inner area (inside the outer border) into dashboard regions. The mandatory bottom
/// rows are reserved with plain arithmetic, highest priority first (`status`, then `playbar`, then
/// `footer` when tall enough); the rest becomes the body, which the layout solver splits into
/// `upper / (search_bar) / lower` and each of those into two columns when wide enough.
#[verifier::rlimit(40)]
pub fn dashboard_areas(inner: Rect, search_active: bool) -> (a: DashboardAreas)
    requires
        inner.y + inner.height <= u16::MAX,
    ensures
        dashboard_spec(inner, search_active, a),
        within(inner, a.now_playing),
        within(inner, a.library),
        within(inner, a.status),
        within(inner, a.playbar),
        a.visualizer matches Some(r) ==> within(inner, r),
        a.search_bar matches Some(r) ==> within(inner, r),
        a.detail matches Some(r) ==> within(inner, r),
        a.footer matches Some(r) ==> within(inner, r),
        inner.x + inner.width <= u16::MAX && inner.width < MIN_TWO_COL_WIDTH ==> {
            &&& a.now_playing.x == inner.x && a.now_playing.width == inner.width
            &&& a.library.x == inner.x && a.library.width == inner.width
        },
{
    let two_col = inner.width >= MIN_TWO_COL_WIDTH;
    let show_footer = inner.height >= MIN_FOOTER_HEIGHT;
    let show_visualizer = two_col && inner.height >= MIN_VISUALIZER_HEIGHT;

    // 1. Reserve the mandatory bottom rows arithmetically, status first.
    let mut remaining = inner.height;
    let status_h = if remaining >= 1 { 1 } else { 0 };
    remaining = remaining - status_h;
    let playbar_h = if remaining >= 1 { 1 } else { 0 };
    remaining = remaining - playbar_h;
    let footer_h = if show_footer && remaining >= 1 { 1 } else { 0 };
    remaining = remaining - footer_h;
    let body_h = remaining;

    let x = inner.x;
    let w = inner.width;
    let mut y = inner.y;
    let body = Rect::new(x, y, w, body_h);
    y = y + body_h;
    let status = Rect::new(x, y, w, status_h);
    y = y + status_h;
    let playbar = Rect::new(x, y, w, playbar_h);
    y = y + playbar_h;
    let footer = if show_footer { Some(Rect::new(x, y, w, footer_h)) } else { None };

    // 2. Split the body into upper / (search_bar) / lower.
    let (upper, search_bar, lower) = if search_active {
        let cs = [Constraint::Percentage(45), Constraint::Length(1), Constraint::Min(1)];
        assert(cs@ =~= body_constraints(true));
        let rows = split(body, true, &cs);
        assert(rows@ =~= seq![rows@[0], rows@[1], rows@[2]]);
        (rows[0], Some(rows[1]), rows[2])
    } else {
        let cs = [Constraint::Percentage(45), Constraint::Percentage(55)];
        assert(cs@ =~= body_constraints(false));
        let rows = split(body, true, &cs);
        assert(rows@ =~= seq![rows@[0], rows@[1]]);
        (rows[0], None, rows[1])
    };

    // 3. Split the upper row into now_playing / visualizer.
    let (now_playing, visualizer) = if show_visualizer {
        let cs = [Constraint::Percentage(50), Constraint::Percentage(50)];
        assert(cs@ =~= seq![Constraint::Percentage(50), Constraint::Percentage(50)]);
        let cols = split(upper, false, &cs);
        assert(cols@ =~= seq![cols@[0], cols@[1]]);
        (cols[0], Some(cols[1]))
    } else {
        (upper, None)
    };

    // 4. Split the lower row into library / detail.
    let (library, detail) = if two_col {
        let cs = [Constraint::Percentage(41), Constraint::Percentage(59)];
        assert(cs@ =~= seq![Constraint::Percentage(41), Constraint::Percentage(59)]);
        let cols = split(lower, false, &cs);
        assert(cols@ =~= seq![cols@[0], cols@[1]]);
        (cols[0], Some(cols[1]))
    } else {
        (lower, None)
    };

    assert(upper == (Rect { x: body.x, y: now_playing.y, width: body.width, height: now_playing.height }));
    assert(lower == (Rect { x: body.x, y: library.y, width: body.width, height: library.height }));
    DashboardAreas { now_playing, visualizer, search_bar, library, detail, status, playbar, footer }
}

/// The status line survives down to an inner height of 1 and the playback bar down to 2; the
/// arithmetically reserved bottom rows never leave the inner area, and the footer only appears on
/// terminals at least `MIN_FOOTER_HEIGHT` rows tall.
pub proof fn lemma_bottom_rows_survive(inner: Rect, search_active: bool, a: DashboardAreas)
    requires
        inner.y + inner.height <= u16::MAX,
        dashboard_spec(inner, search_active, a),
    ensures
        inner.height >= 1 ==> a.status.height == 1,
        inner.height >= 2 ==> a.playbar.height == 1,
        inner.height == 0 ==> a.status.height == 0 && a.playbar.height == 0,
        within(inner, a.status),
        within(inner, a.playbar),
        a.footer is Some <==> inner.height >= MIN_FOOTER_HEIGHT,
        a.footer matches Some(f) ==> within(inner, f) && f.height == 1
            && f.y + 1 == inner.y + inner.height,
        a.playbar.y == a.status.y + a.status.height,
{
}

} // verus!
