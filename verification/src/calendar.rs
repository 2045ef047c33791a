//! The grids: for an anchor date and a view mode, the ordered cells of the
//! month, the week or the day, each with the events shown on its date.

use crate::date::{
    civil_day, civil_month, civil_to_days, civil_year, in_range, weekday_index, Date, MAX_DAYS,
};
use crate::types::{events_view, CalendarEvent, CalendarEventView, ViewMode};
use vstd::prelude::*;

verus! {

/// One date slot of a grid.
#[derive(Clone, Debug, PartialEq)]
pub struct DayCell<'a> {
    pub date: Date,
    /// Whether the date lies in the month of the anchor date. Set in every
    /// cell of a week or a day grid.
    pub in_month: bool,
    /// Whether the date is the current date.
    pub is_today: bool,
    /// The events shown on the date, in the order of the event list.
    pub events: Vec<&'a CalendarEvent>,
}

/// The model of a [`DayCell`].
pub struct DayCellView {
    pub date: int,
    pub in_month: bool,
    pub is_today: bool,
    pub events: Seq<CalendarEventView>,
}

/// The models of a list of borrowed events, in order.
pub open spec fn refs_view(events: Seq<&CalendarEvent>) -> Seq<CalendarEventView> {
    events.map_values(|e: &CalendarEvent| e@)
}

impl<'a> View for DayCell<'a> {
    type V = DayCellView;

    open spec fn view(&self) -> DayCellView {
        DayCellView {
            date: self.date@,
            in_month: self.in_month,
            is_today: self.is_today,
            events: refs_view(self.events@),
        }
    }
}

/// The models of a list of cells, in order.
pub open spec fn cells_view(cells: Seq<DayCell>) -> Seq<DayCellView> {
    cells.map_values(|c: DayCell| c@)
}

/// The test "is shown on this day", as a function of the event.
pub open spec fn shown_on(day: int) -> spec_fn(CalendarEventView) -> bool {
    |e: CalendarEventView| e.content.occurs_on(day)
}

/// The events of a list that are shown on a day, in the order of the list.
pub open spec fn events_on_day(events: Seq<CalendarEventView>, day: int) -> Seq<CalendarEventView> {
    events.filter(shown_on(day))
}

/// The cell of a day.
pub open spec fn cell_of(day: int, in_month: bool, today: int, events: Seq<CalendarEventView>)
    -> DayCellView {
    DayCellView { date: day, in_month, is_today: day == today, events: events_on_day(events, day) }
}

/// The month after a month, as (year, month).
pub open spec fn following_month(year: int, month: int) -> (int, int) {
    if month == 12 {
        (year + 1, 1)
    } else {
        (year, month + 1)
    }
}

/// How a month is laid out in rows of seven days that start on Monday.
pub struct MonthLayout {
    /// Day number of the first day of the month.
    pub first: int,
    /// Number of days from the Monday of the first row to the first day of the
    /// month: the cells that belong to the month before.
    pub leading: int,
    /// Number of days of the month: the distance from its first day to the
    /// first day of the following month.
    pub days_in_month: int,
}

impl MonthLayout {
    /// Number of cells: the leading cells and the days of the month, filled
    /// up to whole rows of seven.
    pub open spec fn cell_count(self) -> int {
        (self.leading + self.days_in_month + 6) / 7 * 7
    }

    /// Day number of the first cell.
    pub open spec fn start(self) -> int {
        self.first - self.leading
    }

    /// Day number of the last cell.
    pub open spec fn end(self) -> int {
        self.start() + self.cell_count() - 1
    }

    /// Whether the layout is one a grid can be built from: the first day of
    /// the month stands in one of the seven columns, the month has a day, and
    /// every cell holds a date that can be held.
    pub open spec fn fits(self) -> bool {
        &&& 0 <= self.leading <= 6
        &&& 1 <= self.days_in_month
        &&& in_range(self.start())
        &&& in_range(self.end())
    }

    /// Whether the cell at place `i` holds a day of the month: it comes after
    /// the leading cells and before the cells of the following month.
    pub open spec fn holds_month_day(self, i: int) -> bool {
        self.leading <= i < self.leading + self.days_in_month
    }

    /// The cells of the layout: days in a row from the first cell on.
    pub open spec fn cells(self, today: int, events: Seq<CalendarEventView>) -> Seq<DayCellView> {
        Seq::new(
            self.cell_count() as nat,
            |i: int| cell_of(self.start() + i, self.holds_month_day(i), today, events),
        )
    }
}

/// The layout of the month of the anchor date; nothing where the first day
/// of that month or of the following month cannot be held, or where the
/// layout does not fit.
pub open spec fn month_layout(anchor: int) -> Option<MonthLayout> {
    let year = civil_year(anchor);
    let month = civil_month(anchor);
    let next = following_month(year, month);
    match (civil_to_days(year, month, 1), civil_to_days(next.0, next.1, 1)) {
        (Some(first), Some(after)) => {
            let layout = MonthLayout {
                first,
                leading: weekday_index(first),
                days_in_month: after - first,
            };
            if layout.fits() {
                Some(layout)
            } else {
                None
            }
        },
        _ => None,
    }
}

/// Whether `first` is the first day of the month of `anchor`: a day of the
/// same year and month, and the first of its month.
pub open spec fn is_first_of_month_of(first: int, anchor: int) -> bool {
    &&& civil_year(first) == civil_year(anchor)
    &&& civil_month(first) == civil_month(anchor)
    &&& civil_day(first) == 1
}

/// The cells of the month grid round an anchor date.
pub open spec fn month_cells(anchor: int, today: int, events: Seq<CalendarEventView>) -> Option<
    Seq<DayCellView>,
> {
    match month_layout(anchor) {
        Some(layout) => Some(layout.cells(today, events)),
        None => None,
    }
}

/// Whether the week of a date that lies `offset` days after its Monday can
/// be laid out: the offset is one of a week, and the seven days from the
/// Monday on can be held.
pub open spec fn week_fits(anchor: int, offset: int) -> bool {
    &&& 0 <= offset <= 6
    &&& in_range(anchor - offset)
    &&& in_range(anchor - offset + 6)
}

/// The cells of the seven days from `start` on.
pub open spec fn week_row(start: int, today: int, events: Seq<CalendarEventView>) -> Seq<
    DayCellView,
> {
    Seq::new(7, |i: int| cell_of(start + i, true, today, events))
}

/// Day number of the Monday of the week of the anchor date; nothing where
/// one of the seven days of that week cannot be held.
pub open spec fn week_start(anchor: int) -> Option<int> {
    if week_fits(anchor, weekday_index(anchor)) {
        Some(anchor - weekday_index(anchor))
    } else {
        None
    }
}

/// The cells of the week grid round an anchor date.
pub open spec fn week_cells(anchor: int, today: int, events: Seq<CalendarEventView>) -> Option<
    Seq<DayCellView>,
> {
    match week_start(anchor) {
        Some(start) => Some(week_row(start, today, events)),
        None => None,
    }
}

/// The one cell of the day grid of an anchor date.
pub open spec fn day_cells(anchor: int, today: int, events: Seq<CalendarEventView>) -> Seq<
    DayCellView,
> {
    seq![cell_of(anchor, true, today, events)]
}

/// The cells of the grid of a view mode round an anchor date.
pub open spec fn grid_cells(
    mode: ViewMode,
    anchor: int,
    today: int,
    events: Seq<CalendarEventView>,
) -> Option<Seq<DayCellView>> {
    match mode {
        ViewMode::Month => month_cells(anchor, today, events),
        ViewMode::Week => week_cells(anchor, today, events),
        ViewMode::Day => Some(day_cells(anchor, today, events)),
    }
}

/// The size of a month grid: a positive number of whole rows of seven cells
/// that hold the leading cells and every day of the month, with less than a
/// row to spare.
pub proof fn lemma_month_grid_size(
    layout: MonthLayout,
    today: int,
    events: Seq<CalendarEventView>,
)
    requires
        layout.fits(),
    ensures
        layout.cells(today, events).len() == layout.cell_count(),
        layout.cell_count() > 0,
        layout.cell_count() % 7 == 0,
        layout.cell_count() >= layout.days_in_month,
        layout.cell_count() >= layout.leading + layout.days_in_month,
        layout.cell_count() < layout.leading + layout.days_in_month + 7,
{
}

/// Every day of the month has its cell in the month grid: the day that lies
/// `k` days after the first of the month stands `k` cells after the leading
/// cells, and is flagged as a day of the month. The cells before it and the
/// cells after the last day of the month are not flagged.
pub proof fn lemma_month_grid_holds_month(
    layout: MonthLayout,
    today: int,
    events: Seq<CalendarEventView>,
    k: int,
)
    requires
        layout.fits(),
        0 <= k < layout.days_in_month,
    ensures
        ({
            let cells = layout.cells(today, events);
            &&& layout.leading + k < cells.len()
            &&& cells[layout.leading + k].date == layout.first + k
            &&& cells[layout.leading + k].in_month
            &&& forall|i: int|
                0 <= i < cells.len() ==> ((#[trigger] cells[i]).in_month <==> layout.first
                    <= cells[i].date < layout.first + layout.days_in_month)
        }),
{
}

/// A month grid starts on a Monday and ends on a Sunday: the first day of
/// the month stands in the column of its weekday, so the first cell of its
/// row is a Monday, and the cells fill whole rows of seven.
pub proof fn lemma_month_grid_starts_on_monday(layout: MonthLayout)
    requires
        layout.fits(),
        layout.leading == weekday_index(layout.first),
    ensures
        weekday_index(layout.start()) == 0,
        weekday_index(layout.end()) == 6,
        forall|i: int|
            0 <= i < layout.cell_count() ==> weekday_index(layout.start() + i) == #[trigger] (i
                % 7),
{
}

/// A week grid starts on the Monday of the anchor's week: its first cell is
/// a Monday, and the cell at each place is the weekday of that place.
pub proof fn lemma_week_grid_starts_on_monday(anchor: int)
    ensures
        weekday_index(anchor - weekday_index(anchor)) == 0,
        forall|i: int|
            0 <= i < 7 ==> #[trigger] weekday_index(anchor - weekday_index(anchor) + i) == i,
{
}

/// The week grid holds the anchor date, in the cell of its weekday, and its
/// days follow one another.
pub proof fn lemma_week_grid_holds_anchor(
    anchor: int,
    offset: int,
    today: int,
    events: Seq<CalendarEventView>,
)
    requires
        week_fits(anchor, offset),
    ensures
        ({
            let cells = week_row(anchor - offset, today, events);
            &&& cells.len() == 7
            &&& cells[offset].date == anchor
            &&& forall|i: int| 0 <= i < 7 ==> (#[trigger] cells[i]).date == cells[0].date + i
        }),
{
}

/// The events of a list that are shown on a day, in the order of the list.
pub fn events_on<'a>(events: &'a Vec<CalendarEvent>, day: &Date) -> (shown: Vec<&'a CalendarEvent>)
    ensures
        refs_view(shown@) == events_on_day(events_view(events@), day@),
{
    let ghost all = events_view(events@);
    let ghost test = shown_on(day@);
    let mut shown: Vec<&'a CalendarEvent> = Vec::new();
    let mut i: usize = 0;
    proof {
        reveal(Seq::filter);
    }
    while i < events.len()
        invariant
            i <= events@.len(),
            all == events_view(events@),
            test == shown_on(day@),
            refs_view(shown@) == all.take(i as int).filter(test),
        decreases events@.len() - i,
    {
        let event = &events[i];
        proof {
            assert(all.take(i + 1) =~= all.take(i as int).push(event@));
            all.take(i as int).lemma_filter_push(event@, test);
        }
        if event.occurs_on(day) {
            shown.push(event);
        }
        i = i + 1;
    }
    assert(all.take(events@.len() as int) =~= all);
    shown
}

/// The cell of a date.
pub fn cell_for<'a>(date: Date, in_month: bool, today: &Date, events: &'a Vec<CalendarEvent>) -> (cell:
    DayCell<'a>)
    ensures
        cell@ == cell_of(date@, in_month, today@, events_view(events@)),
{
    let is_today = date.is_same(today);
    let shown = events_on(events, &date);
    DayCell { date, in_month, is_today, events: shown }
}

/// The cells of `count` days in a row from `start`, those at the places from
/// `from` up to but not including `until` flagged as days of the month.
fn run_of_cells<'a>(
    start: Date,
    count: i32,
    from: i32,
    until: i32,
    today: &Date,
    events: &'a Vec<CalendarEvent>,
) -> (cells: Vec<DayCell<'a>>)
    requires
        0 <= count,
        in_range(start@ + count - 1) || count == 0,
    ensures
        cells@.len() == count,
        forall|i: int|
            0 <= i < count ==> (#[trigger] cells@[i])@ == cell_of(
                start@ + i,
                from <= i < until,
                today@,
                events_view(events@),
            ),
{
    let mut cells: Vec<DayCell<'a>> = Vec::new();
    let mut i: i32 = 0;
    while i < count
        invariant
            0 <= i <= count,
            in_range(start@ + count - 1) || count == 0,
            cells@.len() == i,
            forall|k: int|
                0 <= k < i ==> (#[trigger] cells@[k])@ == cell_of(
                    start@ + k,
                    from <= k < until,
                    today@,
                    events_view(events@),
                ),
        decreases count - i,
    {
        let date = start.plus_days(i).unwrap();
        let cell = cell_for(date, from <= i && i < until, today, events);
        cells.push(cell);
        i = i + 1;
    }
    cells
}

/// The month grid of a month that starts on `first`, `leading` days after a
/// Monday, and has `days_in_month` days. Nothing where such a month cannot
/// be laid out.
pub fn month_grid_of<'a>(
    first: &Date,
    leading: u32,
    days_in_month: i32,
    today: &Date,
    events: &'a Vec<CalendarEvent>,
) -> (grid: Option<Vec<DayCell<'a>>>)
    ensures
        ({
            let layout = MonthLayout {
                first: first@,
                leading: leading as int,
                days_in_month: days_in_month as int,
            };
            match grid {
                Some(cells) => layout.fits() && cells_view(cells@) == layout.cells(
                    today@,
                    events_view(events@),
                ),
                None => !layout.fits(),
            }
        }),
{
    if leading > 6 || days_in_month < 1 {
        return None;
    }
    let lead: i32 = leading as i32;
    let start = match first.plus_days(-lead) {
        Some(date) => date,
        None => {
            return None;
        },
    };
    let wide: i64 = (lead as i64 + days_in_month as i64 + 6) / 7 * 7;
    if start.days() as i64 + wide - 1 > MAX_DAYS as i64 {
        return None;
    }
    let count: i32 = wide as i32;
    let cells = run_of_cells(start, count, lead, lead + days_in_month, today, events);
    Some(cells)
}

/// The month grid round an anchor date: whole weeks from the Monday on or
/// before the first day of the anchor's month up to a Sunday on or after
/// its last day.
pub fn month_grid<'a>(anchor: &Date, today: &Date, events: &'a Vec<CalendarEvent>) -> (grid:
    Option<Vec<DayCell<'a>>>)
    ensures
        match grid {
            Some(cells) => {
                &&& month_cells(anchor@, today@, events_view(events@)) == Some(cells_view(cells@))
                &&& cells@.len() > 0
                &&& cells@.len() % 7 == 0
                &&& cells@.len() >= month_layout(anchor@).unwrap().days_in_month
                &&& is_first_of_month_of(month_layout(anchor@).unwrap().first, anchor@)
                &&& weekday_index(cells@[0].date@) == 0
                &&& weekday_index(cells@[cells@.len() - 1].date@) == 6
            },
            None => month_cells(anchor@, today@, events_view(events@)) is None,
        },
{
    let year: i32 = anchor.year();
    let month: u32 = anchor.month();
    let (next_year, next_month): (i32, u32) = if month == 12 {
        (year + 1, 1)
    } else {
        (year, month + 1)
    };
    let first = match Date::from_ymd(year, month, 1) {
        Some(date) => date,
        None => {
            return None;
        },
    };
    let after = match Date::from_ymd(next_year, next_month, 1) {
        Some(date) => date,
        None => {
            return None;
        },
    };
    let leading: u32 = first.days_from_monday();
    let days_in_month: i32 = after.days_since(&first);
    let grid = month_grid_of(&first, leading, days_in_month, today, events);
    proof {
        if grid is Some {
            let layout = month_layout(anchor@).unwrap();
            lemma_month_grid_size(layout, today@, events_view(events@));
            lemma_month_grid_starts_on_monday(layout);
            let cells = grid->0@;
            assert(cells[0]@ == cells_view(cells)[0]);
            assert(cells[cells.len() - 1]@ == cells_view(cells)[cells.len() - 1]);
            assert(cells_view(grid->0@).len() == grid->0@.len());
        }
    }
    grid
}

/// The week grid of the week in which `anchor` lies `offset` days after the
/// Monday. Nothing where such a week cannot be laid out.
pub fn week_grid_of<'a>(
    anchor: &Date,
    offset: u32,
    today: &Date,
    events: &'a Vec<CalendarEvent>,
) -> (grid: Option<Vec<DayCell<'a>>>)
    ensures
        match grid {
            Some(cells) => week_fits(anchor@, offset as int) && cells_view(cells@) == week_row(
                anchor@ - offset,
                today@,
                events_view(events@),
            ),
            None => !week_fits(anchor@, offset as int),
        },
{
    if offset > 6 {
        return None;
    }
    let start = match anchor.plus_days(-(offset as i32)) {
        Some(date) => date,
        None => {
            return None;
        },
    };
    if start.plus_days(6).is_none() {
        return None;
    }
    let cells = run_of_cells(start, 7, 0, 7, today, events);
    Some(cells)
}

/// The week grid round an anchor date: the seven days from the Monday of
/// the anchor's week.
pub fn week_grid<'a>(anchor: &Date, today: &Date, events: &'a Vec<CalendarEvent>) -> (grid:
    Option<Vec<DayCell<'a>>>)
    ensures
        match grid {
            Some(cells) => {
                &&& week_cells(anchor@, today@, events_view(events@)) == Some(cells_view(cells@))
                &&& cells@.len() == 7
                &&& weekday_index(cells@[0].date@) == 0
            },
            None => week_cells(anchor@, today@, events_view(events@)) is None,
        },
{
    let grid = week_grid_of(anchor, anchor.days_from_monday(), today, events);
    proof {
        if grid is Some {
            let cells = grid->0@;
            assert(cells_view(cells).len() == cells.len());
            assert(cells[0]@ == cells_view(cells)[0]);
            lemma_week_grid_starts_on_monday(anchor@);
        }
    }
    grid
}

/// The day grid of an anchor date: one cell. Where that cell holds no event,
/// the day is to be shown as empty rather than left blank.
pub fn day_grid<'a>(anchor: &Date, today: &Date, events: &'a Vec<CalendarEvent>) -> (cells: Vec<
    DayCell<'a>,
>)
    ensures
        cells_view(cells@) == day_cells(anchor@, today@, events_view(events@)),
        cells@.len() == 1,
{
    let mut cells: Vec<DayCell<'a>> = Vec::new();
    cells.push(cell_for(*anchor, true, today, events));
    cells
}

/// The grid of a view mode round an anchor date; nothing where one of its
/// cells would hold a date that cannot be held.
pub fn calendar<'a>(
    view_mode: ViewMode,
    current_date: &Date,
    today: &Date,
    events: &'a Vec<CalendarEvent>,
) -> (grid: Option<Vec<DayCell<'a>>>)
    ensures
        match grid {
            Some(cells) => grid_cells(view_mode, current_date@, today@, events_view(events@))
                == Some(cells_view(cells@)),
            None => grid_cells(view_mode, current_date@, today@, events_view(events@)) is None,
        },
{
    match view_mode {
        ViewMode::Month => month_grid(current_date, today, events),
        ViewMode::Week => week_grid(current_date, today, events),
        ViewMode::Day => Some(day_grid(current_date, today, events)),
    }
}

} // verus!
