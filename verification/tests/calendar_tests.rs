use chrono::{Datelike, NaiveDate};
use notion_cafe::calendar::{
    calendar, cell_for, day_grid, events_on, month_grid, month_grid_of, week_grid, week_grid_of,
};
use notion_cafe::date::{Date, Weekday, MAX_DAYS, MIN_DAYS};
use notion_cafe::types::{CalendarEvent, ViewMode};

fn ymd(year: i32, month: u32, day: u32) -> Date {
    Date::from_ymd(year, month, day).unwrap()
}

fn event(title: &str, start: Date, end: Option<Date>) -> CalendarEvent {
    CalendarEvent {
        id: format!("id-{}", title),
        title: title.to_string(),
        database_id: "local-1".to_string(),
        notion_page_id: Some(format!("page-{}", title)),
        start_date: start,
        end_date: end,
        all_day: true,
        description: None,
        color: "#667eea".to_string(),
        created_at: 0,
        updated_at: 0,
    }
}

fn titles(events: &[&CalendarEvent]) -> Vec<String> {
    events.iter().map(|e| e.title.clone()).collect()
}

fn days_in_month(year: i32, month: u32) -> i64 {
    let first = NaiveDate::from_ymd_opt(year, month, 1).unwrap();
    let next = if month == 12 {
        NaiveDate::from_ymd_opt(year + 1, 1, 1).unwrap()
    } else {
        NaiveDate::from_ymd_opt(year, month + 1, 1).unwrap()
    };
    next.signed_duration_since(first).num_days()
}

#[test]
fn an_event_without_end_is_shown_on_its_start_date_only() {
    let e = event("one", ymd(2024, 3, 5), None);
    assert!(e.occurs_on(&ymd(2024, 3, 5)));
    assert!(!e.occurs_on(&ymd(2024, 3, 4)));
    assert!(!e.occurs_on(&ymd(2024, 3, 6)));
    assert_eq!(e.last_day(), ymd(2024, 3, 5));
    assert!(e.is_well_formed());
}

#[test]
fn an_event_with_end_is_shown_from_start_to_end() {
    let e = event("span", ymd(2024, 2, 28), Some(ymd(2024, 3, 2)));
    assert!(!e.occurs_on(&ymd(2024, 2, 27)));
    assert!(e.occurs_on(&ymd(2024, 2, 28)));
    assert!(e.occurs_on(&ymd(2024, 2, 29)));
    assert!(e.occurs_on(&ymd(2024, 3, 1)));
    assert!(e.occurs_on(&ymd(2024, 3, 2)));
    assert!(!e.occurs_on(&ymd(2024, 3, 3)));
    assert_eq!(e.last_day(), ymd(2024, 3, 2));
    assert!(e.is_well_formed());
}

#[test]
fn an_event_that_ends_on_its_start_date() {
    let e = event("day", ymd(2024, 3, 5), Some(ymd(2024, 3, 5)));
    assert!(e.occurs_on(&ymd(2024, 3, 5)));
    assert!(!e.occurs_on(&ymd(2024, 3, 4)));
    assert!(!e.occurs_on(&ymd(2024, 3, 6)));
    assert!(e.is_well_formed());
}

#[test]
fn the_rule_holds_for_every_day_round_an_event() {
    let spans = [
        event("a", ymd(2024, 3, 5), None),
        event("b", ymd(2024, 3, 5), Some(ymd(2024, 3, 9))),
        event("c", ymd(2024, 3, 5), Some(ymd(2024, 3, 1))),
    ];
    for e in spans.iter() {
        let mut offset = -10;
        while offset <= 10 {
            let day = ymd(2024, 3, 5).plus_days(offset).unwrap();
            let last = e.end_date.unwrap_or(e.start_date);
            assert_eq!(e.occurs_on(&day), day >= e.start_date && day <= last);
            offset += 1;
        }
    }
}

#[test]
fn events_on_keeps_the_order_of_the_list() {
    let events = vec![
        event("late", ymd(2024, 3, 6), None),
        event("span", ymd(2024, 3, 4), Some(ymd(2024, 3, 6))),
        event("early", ymd(2024, 3, 4), None),
        event("again", ymd(2024, 3, 6), None),
    ];
    assert_eq!(titles(&events_on(&events, &ymd(2024, 3, 6))), ["late", "span", "again"]);
    assert_eq!(titles(&events_on(&events, &ymd(2024, 3, 5))), ["span"]);
    assert_eq!(titles(&events_on(&events, &ymd(2024, 3, 4))), ["span", "early"]);
    assert!(events_on(&events, &ymd(2024, 3, 7)).is_empty());
    assert!(events_on(&vec![], &ymd(2024, 3, 7)).is_empty());
}

#[test]
fn a_cell_holds_its_date_its_flags_and_its_events() {
    let events = vec![event("one", ymd(2024, 3, 5), None)];
    let cell = cell_for(ymd(2024, 3, 5), false, &ymd(2024, 3, 5), &events);
    assert_eq!(cell.date, ymd(2024, 3, 5));
    assert!(!cell.in_month);
    assert!(cell.is_today);
    assert_eq!(titles(&cell.events), ["one"]);
    let other = cell_for(ymd(2024, 3, 6), true, &ymd(2024, 3, 5), &events);
    assert!(other.in_month);
    assert!(!other.is_today);
    assert!(other.events.is_empty());
}

#[test]
fn march_2024_takes_five_rows_from_february_26() {
    let events = vec![];
    let cells = month_grid(&ymd(2024, 3, 15), &ymd(2024, 3, 5), &events).unwrap();
    // March 1, 2024 is a Friday: four cells of February come first.
    assert_eq!(cells.len(), 35);
    assert_eq!(cells[0].date, ymd(2024, 2, 26));
    assert_eq!(cells[3].date, ymd(2024, 2, 29));
    assert_eq!(cells[4].date, ymd(2024, 3, 1));
    assert_eq!(cells[34].date, ymd(2024, 3, 31));
    for (i, cell) in cells.iter().enumerate() {
        assert_eq!(cell.date, ymd(2024, 2, 26).plus_days(i as i32).unwrap());
        assert_eq!(cell.in_month, (4..35).contains(&i));
        assert_eq!(cell.is_today, cell.date == ymd(2024, 3, 5));
        assert!(cell.events.is_empty());
    }
    assert_eq!(cells.iter().filter(|c| c.is_today).count(), 1);
}

#[test]
fn february_2021_fills_four_rows_exactly() {
    let events = vec![];
    let cells = month_grid(&ymd(2021, 2, 14), &ymd(2024, 3, 5), &events).unwrap();
    assert_eq!(cells.len(), 28);
    assert_eq!(cells[0].date, ymd(2021, 2, 1));
    assert_eq!(cells[27].date, ymd(2021, 2, 28));
    assert!(cells.iter().all(|c| c.in_month));
    assert!(cells.iter().all(|c| !c.is_today));
}

#[test]
fn july_2023_takes_six_rows_and_runs_into_august() {
    let events = vec![];
    let cells = month_grid(&ymd(2023, 7, 1), &ymd(2023, 7, 1), &events).unwrap();
    // July 1, 2023 is a Saturday: five leading cells and 31 days make 36.
    assert_eq!(cells.len(), 42);
    assert_eq!(cells[0].date, ymd(2023, 6, 26));
    assert_eq!(cells[5].date, ymd(2023, 7, 1));
    assert!(cells[5].is_today);
    assert_eq!(cells[35].date, ymd(2023, 7, 31));
    assert_eq!(cells[36].date, ymd(2023, 8, 1));
    assert_eq!(cells[41].date, ymd(2023, 8, 6));
    assert!(!cells[4].in_month);
    assert!(cells[5].in_month);
    assert!(cells[35].in_month);
    assert!(!cells[36].in_month);
}

#[test]
fn december_runs_into_the_next_year() {
    let events = vec![];
    let cells = month_grid(&ymd(2024, 12, 31), &ymd(2025, 1, 1), &events).unwrap();
    // December 1, 2024 is a Sunday.
    assert_eq!(cells.len(), 42);
    assert_eq!(cells[0].date, ymd(2024, 11, 25));
    assert_eq!(cells[6].date, ymd(2024, 12, 1));
    assert_eq!(cells[36].date, ymd(2024, 12, 31));
    assert_eq!(cells[37].date, ymd(2025, 1, 1));
    assert!(cells[37].is_today);
    assert!(!cells[37].in_month);
    assert_eq!(cells[41].date, ymd(2025, 1, 5));
}

#[test]
fn the_month_grid_does_not_depend_on_the_day_of_the_anchor() {
    let events = vec![event("one", ymd(2024, 3, 5), None)];
    let today = ymd(2024, 3, 5);
    let from_first = month_grid(&ymd(2024, 3, 1), &today, &events).unwrap();
    let from_last = month_grid(&ymd(2024, 3, 31), &today, &events).unwrap();
    assert_eq!(from_first, from_last);
}

#[test]
fn events_stand_in_the_cells_of_their_days() {
    let events = vec![
        event("span", ymd(2024, 2, 28), Some(ymd(2024, 3, 2))),
        event("one", ymd(2024, 3, 1), None),
        event("far", ymd(2024, 5, 1), None),
    ];
    let cells = month_grid(&ymd(2024, 3, 15), &ymd(2024, 3, 5), &events).unwrap();
    for cell in cells.iter() {
        let expected: Vec<&CalendarEvent> = events
            .iter()
            .filter(|e| cell.date >= e.start_date && cell.date <= e.end_date.unwrap_or(e.start_date))
            .collect();
        assert_eq!(cell.events, expected);
    }
    assert_eq!(titles(&cells[2].events), ["span"]);
    assert_eq!(titles(&cells[4].events), ["span", "one"]);
    assert_eq!(titles(&cells[5].events), ["span"]);
    assert!(cells[6].events.is_empty());
}

#[test]
fn month_grids_are_whole_weeks_that_hold_the_month() {
    let events = vec![];
    let today = ymd(2024, 3, 5);
    for year in [1, 1600, 1900, 1999, 2000, 2023, 2024, 2100, 9999] {
        for month in 1..=12u32 {
            let cells = month_grid(&ymd(year, month, 1), &today, &events).unwrap();
            let days = days_in_month(year, month) as usize;
            assert!(cells.len() > 0);
            assert_eq!(cells.len() % 7, 0);
            assert!(cells.len() >= days);
            assert!(cells.len() < days + 13);
            assert_eq!(cells[0].date.weekday(), Weekday::Mon);
            assert_eq!(cells[cells.len() - 1].date.weekday(), Weekday::Sun);
            assert_eq!(cells.iter().filter(|c| c.in_month).count(), days);
            let first = cells.iter().position(|c| c.in_month).unwrap();
            assert_eq!(cells[first].date, ymd(year, month, 1));
            assert!(first < 7);
            for (i, cell) in cells.iter().enumerate() {
                assert_eq!(cell.date.days(), cells[0].date.days() + i as i32);
                assert_eq!(cell.in_month, cell.date.month() == month);
            }
        }
    }
}

#[test]
fn the_month_grid_agrees_with_chrono_on_the_leading_cells() {
    let events = vec![];
    let today = ymd(2024, 3, 5);
    for month in 1..=12u32 {
        let cells = month_grid(&ymd(2025, month, 10), &today, &events).unwrap();
        let first = NaiveDate::from_ymd_opt(2025, month, 1).unwrap();
        let leading = first.weekday().num_days_from_monday() as usize;
        let days = days_in_month(2025, month) as usize;
        assert_eq!(cells.len(), (leading + days + 6) / 7 * 7);
        assert_eq!(cells[leading].date.days(), first.num_days_from_ce());
    }
}

#[test]
fn no_month_grid_at_the_end_of_the_range() {
    let events = vec![];
    let last = Date::from_days(MAX_DAYS).unwrap();
    assert_eq!(month_grid(&last, &last, &events), None);
    assert_eq!(calendar(ViewMode::Month, &last, &last, &events), None);
    // The month before still has a month after it.
    let november = last.plus_days(-31).unwrap();
    assert_eq!(november.month(), 11);
    assert!(month_grid(&november, &last, &events).is_some());
}

#[test]
fn no_month_grid_where_the_first_row_starts_before_the_range() {
    let events = vec![];
    let first = Date::from_days(MIN_DAYS).unwrap();
    let grid = month_grid(&first, &first, &events);
    if first.weekday() == Weekday::Mon {
        assert!(grid.is_some());
    } else {
        assert_eq!(grid, None);
    }
    let next_month = first.plus_days(31).unwrap();
    assert!(month_grid(&next_month, &first, &events).is_some());
}

#[test]
fn the_week_grid_runs_from_monday_to_sunday() {
    let events = vec![
        event("mon", ymd(2024, 3, 4), None),
        event("span", ymd(2024, 3, 6), Some(ymd(2024, 3, 12))),
        event("before", ymd(2024, 3, 3), None),
    ];
    let today = ymd(2024, 3, 7);
    // March 6, 2024 is a Wednesday.
    let cells = week_grid(&ymd(2024, 3, 6), &today, &events).unwrap();
    assert_eq!(cells.len(), 7);
    for (i, cell) in cells.iter().enumerate() {
        assert_eq!(cell.date, ymd(2024, 3, 4 + i as u32));
        assert!(cell.in_month);
        assert_eq!(cell.is_today, i == 3);
    }
    assert_eq!(cells[0].date.weekday(), Weekday::Mon);
    assert_eq!(cells[6].date.weekday(), Weekday::Sun);
    assert_eq!(titles(&cells[0].events), ["mon"]);
    assert!(cells[1].events.is_empty());
    assert_eq!(titles(&cells[2].events), ["span"]);
    assert_eq!(titles(&cells[6].events), ["span"]);
}

#[test]
fn every_day_of_a_week_gives_the_same_week_grid() {
    let events = vec![];
    let today = ymd(2024, 3, 7);
    let monday = week_grid(&ymd(2024, 3, 4), &today, &events).unwrap();
    for day in 4..=10u32 {
        assert_eq!(week_grid(&ymd(2024, 3, day), &today, &events).unwrap(), monday);
    }
    let next = week_grid(&ymd(2024, 3, 11), &today, &events).unwrap();
    assert_eq!(next[0].date, ymd(2024, 3, 11));
}

#[test]
fn a_week_grid_can_cross_months_and_years() {
    let events = vec![];
    let cells = week_grid(&ymd(2025, 1, 1), &ymd(2025, 1, 1), &events).unwrap();
    assert_eq!(cells[0].date, ymd(2024, 12, 30));
    assert_eq!(cells[2].date, ymd(2025, 1, 1));
    assert!(cells[2].is_today);
    assert_eq!(cells[6].date, ymd(2025, 1, 5));
}

#[test]
fn no_week_grid_where_a_day_of_the_week_is_out_of_range() {
    let events = vec![];
    let last = Date::from_days(MAX_DAYS).unwrap();
    let first = Date::from_days(MIN_DAYS).unwrap();
    let at_end = week_grid(&last, &last, &events);
    assert_eq!(at_end.is_some(), last.weekday() == Weekday::Sun);
    let at_start = week_grid(&first, &first, &events);
    assert_eq!(at_start.is_some(), first.weekday() == Weekday::Mon);
    assert!(week_grid(&last.plus_days(-7).unwrap(), &last, &events).is_some());
    assert!(week_grid(&first.plus_days(7).unwrap(), &last, &events).is_some());
}

#[test]
fn the_day_grid_is_one_cell() {
    let events = vec![
        event("one", ymd(2024, 3, 5), None),
        event("other", ymd(2024, 3, 6), None),
    ];
    let cells = day_grid(&ymd(2024, 3, 5), &ymd(2024, 3, 5), &events);
    assert_eq!(cells.len(), 1);
    assert_eq!(cells[0].date, ymd(2024, 3, 5));
    assert!(cells[0].is_today);
    assert!(cells[0].in_month);
    assert_eq!(titles(&cells[0].events), ["one"]);
}

#[test]
fn a_day_without_events_has_an_empty_cell() {
    let events = vec![event("one", ymd(2024, 3, 5), None)];
    let cells = day_grid(&ymd(2024, 3, 7), &ymd(2024, 3, 5), &events);
    assert_eq!(cells.len(), 1);
    assert!(cells[0].events.is_empty());
    assert!(!cells[0].is_today);
    let last = Date::from_days(MAX_DAYS).unwrap();
    assert_eq!(day_grid(&last, &last, &events).len(), 1);
}

#[test]
fn calendar_builds_the_grid_of_the_mode() {
    let events = vec![event("one", ymd(2024, 3, 5), None)];
    let anchor = ymd(2024, 3, 6);
    let today = ymd(2024, 3, 5);
    assert_eq!(calendar(ViewMode::Month, &anchor, &today, &events), month_grid(&anchor, &today, &events));
    assert_eq!(calendar(ViewMode::Week, &anchor, &today, &events), week_grid(&anchor, &today, &events));
    assert_eq!(calendar(ViewMode::Day, &anchor, &today, &events), Some(day_grid(&anchor, &today, &events)));
    assert_eq!(calendar(ViewMode::Month, &anchor, &today, &events).unwrap().len(), 35);
    assert_eq!(calendar(ViewMode::Week, &anchor, &today, &events).unwrap().len(), 7);
    assert_eq!(calendar(ViewMode::Day, &anchor, &today, &events).unwrap().len(), 1);
}

#[test]
fn a_month_laid_out_from_its_first_day_its_column_and_its_length() {
    let events = vec![event("one", ymd(2024, 3, 1), None)];
    let today = ymd(2024, 3, 5);
    let cells = month_grid_of(&ymd(2024, 3, 1), 4, 31, &today, &events).unwrap();
    assert_eq!(cells.len(), 35);
    assert_eq!(cells[0].date, ymd(2024, 2, 26));
    assert_eq!(cells[4].date, ymd(2024, 3, 1));
    assert_eq!(titles(&cells[4].events), ["one"]);
    assert_eq!(cells[34].date, ymd(2024, 3, 31));
    for (i, cell) in cells.iter().enumerate() {
        assert_eq!(cell.in_month, i >= 4);
        assert_eq!(cell.is_today, i == 8);
    }
    assert_eq!(Some(cells), month_grid(&ymd(2024, 3, 20), &today, &events));
}

#[test]
fn the_number_of_cells_for_every_column_and_length() {
    let events = vec![];
    let first = ymd(2024, 3, 1);
    for leading in 0..=6u32 {
        for days in 1..=40i32 {
            let cells = month_grid_of(&first, leading, days, &first, &events).unwrap();
            let filled = leading as usize + days as usize;
            assert_eq!(cells.len(), (filled + 6) / 7 * 7);
            assert_eq!(cells.len() % 7, 0);
            assert!(cells.len() >= filled && cells.len() < filled + 7);
            assert_eq!(cells[0].date, first.plus_days(-(leading as i32)).unwrap());
            assert_eq!(cells[leading as usize].date, first);
            assert_eq!(cells.iter().filter(|c| c.in_month).count(), days as usize);
            assert!(cells[leading as usize].in_month);
            assert!(cells[filled - 1].in_month);
            assert!(leading == 0 || !cells[leading as usize - 1].in_month);
            assert!(filled == cells.len() || !cells[filled].in_month);
        }
    }
}

#[test]
fn no_month_without_a_day_or_off_the_week() {
    let events = vec![];
    let first = ymd(2024, 3, 1);
    assert_eq!(month_grid_of(&first, 7, 31, &first, &events), None);
    assert_eq!(month_grid_of(&first, u32::MAX, 31, &first, &events), None);
    assert_eq!(month_grid_of(&first, 4, 0, &first, &events), None);
    assert_eq!(month_grid_of(&first, 4, -1, &first, &events), None);
    assert_eq!(month_grid_of(&first, 4, i32::MIN, &first, &events), None);
    assert_eq!(month_grid_of(&first, 4, i32::MAX, &first, &events), None);
    assert_eq!(month_grid_of(&first, 0, 1, &first, &events).map(|c| c.len()), Some(7));
}

#[test]
fn no_month_with_a_cell_out_of_range() {
    let events = vec![];
    let last = Date::from_days(MAX_DAYS).unwrap();
    let first = Date::from_days(MIN_DAYS).unwrap();
    // Seven cells end on the last date; an eighth day does not fit.
    let week_before = last.plus_days(-6).unwrap();
    assert_eq!(month_grid_of(&week_before, 0, 7, &last, &events).map(|c| c.len()), Some(7));
    assert_eq!(month_grid_of(&week_before, 0, 8, &last, &events), None);
    assert_eq!(month_grid_of(&week_before, 1, 6, &last, &events).map(|c| c.len()), Some(7));
    assert_eq!(month_grid_of(&week_before, 1, 7, &last, &events), None);
    assert_eq!(month_grid_of(&first, 0, 28, &last, &events).map(|c| c.len()), Some(28));
    assert_eq!(month_grid_of(&first, 1, 28, &last, &events), None);
    assert_eq!(month_grid_of(&first.plus_days(1).unwrap(), 1, 28, &last, &events).map(|c| c.len()), Some(35));
}

#[test]
fn a_week_laid_out_from_a_date_and_its_place_in_the_week() {
    let events = vec![event("one", ymd(2024, 3, 4), None)];
    let today = ymd(2024, 3, 6);
    let cells = week_grid_of(&ymd(2024, 3, 6), 2, &today, &events).unwrap();
    assert_eq!(cells.len(), 7);
    assert_eq!(cells[0].date, ymd(2024, 3, 4));
    assert_eq!(cells[2].date, ymd(2024, 3, 6));
    assert!(cells[2].is_today);
    assert_eq!(titles(&cells[0].events), ["one"]);
    assert_eq!(Some(cells), week_grid(&ymd(2024, 3, 6), &today, &events));
    for offset in 0..=6u32 {
        let cells = week_grid_of(&ymd(2024, 3, 6), offset, &today, &events).unwrap();
        assert_eq!(cells[offset as usize].date, ymd(2024, 3, 6));
        assert_eq!(cells[6].date.days(), cells[0].date.days() + 6);
    }
}

#[test]
fn no_week_off_the_week_or_out_of_range() {
    let events = vec![];
    let anchor = ymd(2024, 3, 6);
    assert_eq!(week_grid_of(&anchor, 7, &anchor, &events), None);
    assert_eq!(week_grid_of(&anchor, u32::MAX, &anchor, &events), None);
    let last = Date::from_days(MAX_DAYS).unwrap();
    assert!(week_grid_of(&last, 6, &last, &events).is_some());
    assert_eq!(week_grid_of(&last, 5, &last, &events), None);
    let first = Date::from_days(MIN_DAYS).unwrap();
    assert!(week_grid_of(&first, 0, &last, &events).is_some());
    assert_eq!(week_grid_of(&first, 1, &last, &events), None);
}
