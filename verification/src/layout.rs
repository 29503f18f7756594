//! Screen geometry: rectangles, the layout solver of the terminal UI library,
//! and where the splash screen and the main screen put their parts.

use vstd::prelude::*;

use ratatui::layout::{
    Constraint as TuiConstraint, Direction as TuiDirection, Layout as TuiLayout, Rect as TuiRect,
};

verus! {

/// A rectangle of terminal cells.
#[derive(Debug, Clone, Copy, PartialEq, Eq, Structural)]
pub struct Rect {
    pub x: u16,
    pub y: u16,
    pub width: u16,
    pub height: u16,
}

impl Rect {
    /// The rectangle does not reach past the last addressable cell.
    pub open spec fn wf(self) -> bool {
        self.x + self.width <= u16::MAX && self.y + self.height <= u16::MAX
    }
}

/// Which way an area is split.
#[derive(Debug, Clone, Copy, PartialEq, Eq, Structural)]
pub enum Direction {
    Horizontal,
    Vertical,
}

/// How big one part of a split should be.
#[derive(Debug, Clone, Copy, PartialEq, Eq, Structural)]
pub enum Constraint {
    /// Exactly this many cells.
    Length(u16),
    /// This percentage of the area.
    Percentage(u16),
    /// At least this many cells.
    Min(u16),
}

/// `inner` lies within `outer`.
pub open spec fn within(inner: Rect, outer: Rect) -> bool {
    &&& outer.x <= inner.x
    &&& inner.x + inner.width <= outer.x + outer.width
    &&& outer.y <= inner.y
    &&& inner.y + inner.height <= outer.y + outer.height
}

/// `parts` is one of the answers that `ratatui::layout::Layout::split` can
/// give for an area split in `direction` by `constraints`.  Nothing more is
/// said of it: the solver behind `split` keeps its rows and variables in
/// `std` hash maps seeded anew in every process, and the library documents
/// that conflicting constraints give an indeterminate result, so which of
/// several equally good answers comes back is not a function of the
/// arguments, and no single result is named.
pub uninterp spec fn split_outcome(
    direction: Direction,
    constraints: Seq<Constraint>,
    area: Rect,
    parts: Seq<Rect>,
) -> bool;

/// Calls `ratatui::layout::Layout::split` with the given direction and
/// constraints.  Claimed, of every outcome: it is an answer of the solver for
/// exactly these arguments; it has one rectangle per constraint; every part
/// lies within the area (the solver's required constraints keep every
/// boundary between the area's ends, and the parts are cut from the area as
/// the library's source builds them); and every part spans the area across
/// the split, once the area is clamped to the screen as `Rect::new` clamps
/// it.  Where the sizes along the split come out is left to `split_outcome`.
#[verifier::external_body]
fn split(direction: Direction, constraints: &Vec<Constraint>, area: Rect) -> (parts: Vec<Rect>)
    ensures
        split_outcome(direction, constraints@, area, parts@),
        parts@.len() == constraints@.len(),
        forall|i: int| 0 <= i < parts@.len() ==> within(#[trigger] parts@[i], area),
        forall|i: int|
            0 <= i < parts@.len() && direction == Direction::Vertical ==> #[trigger] parts@[i].x
                == area.x && (area.wf() ==> parts@[i].width == area.width),
        forall|i: int|
            0 <= i < parts@.len() && direction == Direction::Horizontal ==> #[trigger] parts@[i].y
                == area.y && (area.wf() ==> parts@[i].height == area.height),
{
    let tui_direction = match direction {
        Direction::Horizontal => TuiDirection::Horizontal,
        Direction::Vertical => TuiDirection::Vertical,
    };
    let tui_constraints = constraints.iter().map(|c| match *c {
        Constraint::Length(n) => TuiConstraint::Length(n),
        Constraint::Percentage(p) => TuiConstraint::Percentage(p),
        Constraint::Min(n) => TuiConstraint::Min(n),
    });
    let tui_area = TuiRect::new(area.x, area.y, area.width, area.height);
    let rects = TuiLayout::default().direction(tui_direction).constraints(tui_constraints).split(tui_area);
    rects.iter().map(|r| Rect { x: r.x, y: r.y, width: r.width, height: r.height }).collect()
}

/// The three percentages that put a `percent` share in the middle: what is
/// left over, halved (rounded down), on either side.
pub open spec fn centering(percent: u16) -> Seq<Constraint> {
    let side = ((100 - percent) / 2) as u16;
    seq![Constraint::Percentage(side), Constraint::Percentage(percent), Constraint::Percentage(side)]
}

/// The three percentages that put a `percent` share in the middle.
fn centering_constraints(percent: u16) -> (cs: Vec<Constraint>)
    requires
        percent <= 100,
    ensures
        cs@ == centering(percent),
{
    let side = (100 - percent) / 2;
    let cs = vec![Constraint::Percentage(side), Constraint::Percentage(percent), Constraint::Percentage(side)];
    assert(cs@ =~= centering(percent));
    cs
}

/// `c` is the middle cell when `r` is split top to bottom by
/// `centering(percent_y)` and the middle row then left to right by
/// `centering(percent_x)`.
pub open spec fn centered_in(percent_x: u16, percent_y: u16, r: Rect, c: Rect) -> bool {
    exists|rows: Seq<Rect>, cols: Seq<Rect>|
        #![trigger split_outcome(Direction::Vertical, centering(percent_y), r, rows), split_outcome(Direction::Horizontal, centering(percent_x), rows[1], cols)]
        {
            &&& split_outcome(Direction::Vertical, centering(percent_y), r, rows)
            &&& rows.len() == 3
            &&& split_outcome(Direction::Horizontal, centering(percent_x), rows[1], cols)
            &&& cols.len() == 3
            &&& c == cols[1]
        }
}

/// The rectangle of `percent_x` by `percent_y` percent centred in `r`.
pub fn centered_rect(percent_x: u16, percent_y: u16, r: Rect) -> (c: Rect)
    requires
        percent_x <= 100,
        percent_y <= 100,
    ensures
        centered_in(percent_x, percent_y, r, c),
        within(c, r),
{
    let rows = split(Direction::Vertical, &centering_constraints(percent_y), r);
    let cols = split(Direction::Horizontal, &centering_constraints(percent_x), rows[1]);
    assert(split_outcome(Direction::Vertical, centering(percent_y), r, rows@));
    assert(split_outcome(Direction::Horizontal, centering(percent_x), rows@[1], cols@));
    cols[1]
}

/// The area inside a frame drawn on all four sides, as the terminal UI
/// library's `Block::inner` computes it for such a block: one cell off each
/// side, never moving past the right or bottom edge.
pub open spec fn framed_inner(area: Rect) -> Rect {
    Rect {
        x: if area.x.saturating_add(1) < area.x.saturating_add(area.width) {
            area.x.saturating_add(1)
        } else {
            area.x.saturating_add(area.width)
        },
        y: if area.y.saturating_add(1) < area.y.saturating_add(area.height) {
            area.y.saturating_add(1)
        } else {
            area.y.saturating_add(area.height)
        },
        width: area.width.saturating_sub(1).saturating_sub(1),
        height: area.height.saturating_sub(1).saturating_sub(1),
    }
}

/// The area inside a frame drawn on all four sides of `area`.
pub fn frame_inner(area: Rect) -> (inner: Rect)
    ensures
        inner == framed_inner(area),
{
    let right = area.x.saturating_add(area.width);
    let bottom = area.y.saturating_add(area.height);
    let x1 = area.x.saturating_add(1);
    let y1 = area.y.saturating_add(1);
    Rect {
        x: if x1 < right { x1 } else { right },
        y: if y1 < bottom { y1 } else { bottom },
        width: area.width.saturating_sub(1).saturating_sub(1),
        height: area.height.saturating_sub(1).saturating_sub(1),
    }
}

/// Horizontal offset that centres content `content` cells wide in `available` cells.
pub fn center_offset(available: u16, content: u16) -> (offset: u16)
    ensures
        offset == available.saturating_sub(content) / 2,
        offset * 2 + content <= available || offset == 0,
{
    available.saturating_sub(content) / 2
}

/// Width of a tab bar: every label plus two cells of padding per label.
pub open spec fn strip_width(label_lens: Seq<u16>) -> int
    decreases label_lens.len(),
{
    if label_lens.len() == 0 {
        0
    } else {
        strip_width(label_lens.drop_last()) + label_lens.last() + 2
    }
}

/// Width of a tab bar with labels of the given lengths: their sum plus two
/// cells of padding per label.
pub fn tab_strip_width(label_lens: &Vec<u16>) -> (w: u16)
    requires
        strip_width(label_lens@) <= u16::MAX,
    ensures
        w == strip_width(label_lens@),
{
    let mut total: u16 = 0;
    let mut i: usize = 0;
    while i < label_lens.len()
        invariant
            i <= label_lens@.len(),
            total == strip_width(label_lens@.take(i as int)),
            strip_width(label_lens@) <= u16::MAX,
        decreases label_lens@.len() - i,
    {
        proof {
            lemma_strip_width_prefix(label_lens@, (i + 1) as nat);
            assert(label_lens@.take((i + 1) as int).drop_last() =~= label_lens@.take(i as int));
        }
        total = total + label_lens[i] + 2;
        i = i + 1;
    }
    proof {
        assert(label_lens@.take(i as int) =~= label_lens@);
    }
    total
}

/// A tab bar's width grows with every label.
proof fn lemma_strip_width_prefix(lens: Seq<u16>, n: nat)
    requires
        n <= lens.len(),
    ensures
        strip_width(lens.take(n as int)) <= strip_width(lens),
    decreases lens.len(),
{
    if n < lens.len() {
        assert(lens.drop_last().take(n as int) =~= lens.take(n as int));
        lemma_strip_width_prefix(lens.drop_last(), n);
    } else {
        assert(lens.take(n as int) =~= lens);
    }
}

/// The splash screen: the banner and the progress gauge.
#[derive(Debug, Clone, Copy, PartialEq, Eq, Structural)]
pub struct SplashLayout {
    pub banner: Rect,
    pub gauge: Rect,
}

/// The rows of the splash area: the banner, a gap, the gauge, and the rest.
pub open spec fn splash_rows() -> Seq<Constraint> {
    seq![Constraint::Length(5), Constraint::Length(2), Constraint::Length(1), Constraint::Min(0)]
}

/// The splash screen of a screen of `size`: in the middle 40% x 25% of it,
/// split by `splash_rows`, the banner is the first row and the gauge the third.
pub open spec fn splash_placed(size: Rect, l: SplashLayout) -> bool {
    exists|area: Rect, parts: Seq<Rect>|
        #![trigger centered_in(40, 25, size, area), split_outcome(Direction::Vertical, splash_rows(), area, parts)]
        {
            &&& centered_in(40, 25, size, area)
            &&& split_outcome(Direction::Vertical, splash_rows(), area, parts)
            &&& parts.len() == 4
            &&& l.banner == parts[0]
            &&& l.gauge == parts[2]
        }
}

/// Where the splash screen draws: in the middle 40% x 25% of the screen, the
/// banner on top and the gauge two rows below it.
pub fn splash_layout(size: Rect) -> (l: SplashLayout)
    ensures
        splash_placed(size, l),
        within(l.banner, size),
        within(l.gauge, size),
        l.banner.x == l.gauge.x,
        size.wf() ==> l.banner.width == l.gauge.width,
{
    let area = centered_rect(40, 25, size);
    let rows = vec![
        Constraint::Length(5),
        Constraint::Length(2),
        Constraint::Length(1),
        Constraint::Min(0),
    ];
    assert(rows@ =~= splash_rows());
    let parts = split(Direction::Vertical, &rows, area);
    let l = SplashLayout { banner: parts[0], gauge: parts[2] };
    assert(centered_in(40, 25, size, area) && split_outcome(Direction::Vertical, splash_rows(), area, parts@));
    l
}

/// The main screen: the framed area, the inside of the frame, the tab bar
/// and the body below it.
#[derive(Debug, Clone, Copy, PartialEq, Eq, Structural)]
pub struct MainLayout {
    pub frame: Rect,
    pub inner: Rect,
    pub tabs: Rect,
    pub body: Rect,
}

/// The split that centres a bar `width` cells wide in `available` cells: a
/// gap of half what is left over (rounded down), then the bar.
pub open spec fn bar_constraints(available: u16, width: u16) -> Seq<Constraint> {
    seq![Constraint::Length(available.saturating_sub(width) / 2), Constraint::Min(width)]
}

/// `bar` is the second part of `row` split left to right by
/// `bar_constraints(available, width)`.
pub open spec fn bar_placed(row: Rect, available: u16, width: u16, bar: Rect) -> bool {
    exists|parts: Seq<Rect>|
        #![trigger split_outcome(Direction::Horizontal, bar_constraints(available, width), row, parts)]
        {
            &&& split_outcome(Direction::Horizontal, bar_constraints(available, width), row, parts)
            &&& parts.len() == 2
            &&& bar == parts[1]
        }
}

/// Places a bar of `width` cells in `row`, centred in `available` cells.
fn bar_in(row: Rect, available: u16, width: u16) -> (bar: Rect)
    ensures
        bar_placed(row, available, width, bar),
        within(bar, row),
{
    let offset = center_offset(available, width);
    let cs = vec![Constraint::Length(offset), Constraint::Min(width)];
    assert(cs@ =~= bar_constraints(available, width));
    let parts = split(Direction::Horizontal, &cs, row);
    assert(split_outcome(Direction::Horizontal, bar_constraints(available, width), row, parts@));
    parts[1]
}

/// The rows of the screen: 10% above the frame, 80% for it, 10% below.
pub open spec fn main_rows() -> Seq<Constraint> {
    seq![Constraint::Percentage(10), Constraint::Percentage(80), Constraint::Percentage(10)]
}

/// The columns of the frame's row: 5% on the left, 90% for the frame, 5% on the right.
pub open spec fn main_cols() -> Seq<Constraint> {
    seq![Constraint::Percentage(5), Constraint::Percentage(90), Constraint::Percentage(5)]
}

/// The inside of the frame: two rows for the tab bar, the rest for the body.
pub open spec fn main_chunks() -> Seq<Constraint> {
    seq![Constraint::Length(2), Constraint::Min(0)]
}

/// The main screen of a screen of `size` with a tab bar `tabs_width` cells
/// wide: the frame is the middle cell of `main_rows` then `main_cols`; inside
/// it, split by `main_chunks`, the tab bar is centred in the first part and
/// the body is the second.
pub open spec fn main_placed(size: Rect, tabs_width: u16, l: MainLayout) -> bool {
    exists|rows: Seq<Rect>, cols: Seq<Rect>, chunks: Seq<Rect>|
        #![trigger split_outcome(Direction::Vertical, main_rows(), size, rows), split_outcome(Direction::Horizontal, main_cols(), rows[1], cols), split_outcome(Direction::Vertical, main_chunks(), l.inner, chunks)]
        {
            &&& split_outcome(Direction::Vertical, main_rows(), size, rows)
            &&& rows.len() == 3
            &&& split_outcome(Direction::Horizontal, main_cols(), rows[1], cols)
            &&& cols.len() == 3
            &&& l.frame == cols[1]
            &&& l.inner == framed_inner(l.frame)
            &&& split_outcome(Direction::Vertical, main_chunks(), l.inner, chunks)
            &&& chunks.len() == 2
            &&& bar_placed(chunks[0], chunks[0].width, tabs_width, l.tabs)
            &&& l.body == chunks[1]
        }
}

/// Where the main screen draws, for a screen of `size` and a tab bar
/// `tabs_width` cells wide.
pub fn main_layout(size: Rect, tabs_width: u16) -> (l: MainLayout)
    ensures
        main_placed(size, tabs_width, l),
        within(l.frame, size),
        l.inner == framed_inner(l.frame),
        within(l.tabs, l.inner),
        within(l.body, l.inner),
        l.body.x == l.inner.x,
        size.wf() ==> l.body.width == l.inner.width,
{
    let row_cs = vec![Constraint::Percentage(10), Constraint::Percentage(80), Constraint::Percentage(10)];
    assert(row_cs@ =~= main_rows());
    let rows = split(Direction::Vertical, &row_cs, size);
    let col_cs = vec![Constraint::Percentage(5), Constraint::Percentage(90), Constraint::Percentage(5)];
    assert(col_cs@ =~= main_cols());
    let cols = split(Direction::Horizontal, &col_cs, rows[1]);
    let frame = cols[1];
    let inner = frame_inner(frame);
    let chunk_cs = vec![Constraint::Length(2), Constraint::Min(0)];
    assert(chunk_cs@ =~= main_chunks());
    let chunks = split(Direction::Vertical, &chunk_cs, inner);
    let tabs = bar_in(chunks[0], chunks[0].width, tabs_width);
    let l = MainLayout { frame, inner, tabs, body: chunks[1] };
    assert(split_outcome(Direction::Vertical, main_rows(), size, rows@)
        && split_outcome(Direction::Horizontal, main_cols(), rows@[1], cols@)
        && split_outcome(Direction::Vertical, main_chunks(), l.inner, chunks@));
    l
}

/// The rows of the body around the account menu: an empty row, the menu's
/// row, and the rest.
pub open spec fn menu_rows() -> Seq<Constraint> {
    seq![Constraint::Length(0), Constraint::Length(1), Constraint::Min(0)]
}

/// `area` is where the account menu goes in `body`: the second part of `body`
/// split by `menu_rows`, with a menu `menu_width` cells wide centred in the
/// body's width.
pub open spec fn menu_placed(body: Rect, menu_width: u16, area: Rect) -> bool {
    exists|rows: Seq<Rect>|
        #![trigger split_outcome(Direction::Vertical, menu_rows(), body, rows)]
        {
            &&& split_outcome(Direction::Vertical, menu_rows(), body, rows)
            &&& rows.len() == 3
            &&& bar_placed(rows[1], body.width, menu_width, area)
        }
}

/// Where the account menu goes in the body: on its second row (the first is
/// empty), after a gap that centres a menu `menu_width` cells wide in the body.
pub fn account_menu_area(body: Rect, menu_width: u16) -> (area: Rect)
    ensures
        menu_placed(body, menu_width, area),
        within(area, body),
{
    let row_cs = vec![Constraint::Length(0), Constraint::Length(1), Constraint::Min(0)];
    assert(row_cs@ =~= menu_rows());
    let rows = split(Direction::Vertical, &row_cs, body);
    let area = bar_in(rows[1], body.width, menu_width);
    assert(split_outcome(Direction::Vertical, menu_rows(), body, rows@));
    area
}

} // verus!
