use notion_cafe::calendar::week_grid;
use notion_cafe::date::{Date, MAX_DAYS, MIN_DAYS};
use notion_cafe::titles::{
    day_title, day_title_from, event_span, event_span_from, month_and_day_from, month_and_day_text,
    month_title, month_title_from, week_title, week_title_from,
};
use notion_cafe::types::CalendarEvent;

fn ymd(year: i32, month: u32, day: u32) -> Date {
    Date::from_ymd(year, month, day).unwrap()
}

fn event(title: &str, start: Date, end: Option<Date>) -> CalendarEvent {
    CalendarEvent {
        id: format!("id-{}", title),
        title: title.to_string(),
        database_id: "local-1".to_string(),
        notion_page_id: None,
        start_date: start,
        end_date: end,
        all_day: true,
        description: None,
        color: "#667eea".to_string(),
        created_at: 0,
        updated_at: 0,
    }
}

#[test]
fn the_month_heading_is_year_and_month() {
    assert_eq!(month_title(&ymd(2024, 3, 15)), "2024 三月");
    assert_eq!(month_title(&ymd(2024, 12, 1)), "2024 十二月");
    assert_eq!(month_title(&ymd(987, 1, 31)), "987 一月");
    assert_eq!(month_title(&ymd(-44, 3, 15)), "-44 三月");
}

#[test]
fn the_week_heading_names_monday_and_sunday() {
    assert_eq!(week_title(&ymd(2024, 3, 6)).as_deref(), Some("三月 4 - 三月 10"));
    assert_eq!(week_title(&ymd(2025, 1, 1)).as_deref(), Some("十二月 30 - 一月 5"));
    assert_eq!(week_title(&ymd(2024, 2, 29)).as_deref(), Some("二月 26 - 三月 3"));
    let events = vec![];
    let last = Date::from_days(MAX_DAYS).unwrap();
    assert_eq!(week_title(&last).is_some(), week_grid(&last, &last, &events).is_some());
    let first = Date::from_days(MIN_DAYS).unwrap();
    assert_eq!(week_title(&first).is_some(), week_grid(&first, &first, &events).is_some());
}

#[test]
fn the_day_heading_is_year_month_and_day() {
    assert_eq!(day_title(&ymd(2024, 3, 5)), "2024 三月 5日");
    assert_eq!(day_title(&ymd(2024, 11, 30)), "2024 十一月 30日");
}

#[test]
fn the_days_of_an_event_in_words() {
    assert_eq!(
        event_span(&event("span", ymd(2024, 2, 28), Some(ymd(2024, 3, 2)))),
        "2024年02月28日 - 2024年03月02日"
    );
    assert_eq!(event_span(&event("one", ymd(2024, 3, 5), None)), "2024年03月05日 - 无结束日期");
}


#[test]
fn headings_from_their_parts() {
    assert_eq!(month_title_from("2024", 3), "2024 三月");
    assert_eq!(month_title_from("", 13), " 未知");
    assert_eq!(month_and_day_from(12, "30"), "十二月 30");
    assert_eq!(week_title_from("三月 4", "三月 10"), "三月 4 - 三月 10");
    assert_eq!(day_title_from("2024", 3, "5"), "2024 三月 5日");
    assert_eq!(event_span_from("a", Some("b")), "a - b");
    assert_eq!(event_span_from("a", None), "a - 无结束日期");
    assert_eq!(month_and_day_text(&ymd(2024, 2, 29)), "二月 29");
}
