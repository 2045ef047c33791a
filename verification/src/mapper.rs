//! From a row of a remote database to a calendar event.
//!
//! A row becomes an event where the property named by the source's date
//! property holds a date that can be read; any other row is passed over
//! without complaint. The title falls back to a placeholder. An end date
//! that cannot be read, or that lies before the start date, is left out, so
//! that no event ends before it starts.

use crate::date::{date_of_text, now_millis, Date};
use crate::json::{
    field_at, field_of, first_item, first_item_of, optional_str, text_at, text_of, Json, JsonView,
};
use crate::text::owned;
use crate::types::{
    contents, events_view, new_id, optional_day, pages_view, CalendarEvent, CalendarEventView,
    DatabaseConfig, DatabaseConfigView, EventContent, NotionPage, NotionPageView,
};
use vstd::prelude::*;

verus! {

/// Title of an event whose row has none that can be read.
pub const UNTITLED: &'static str = "无标题";

/// The title a row's properties give under the property called `field`: the
/// plain text of the first run of its title, or the placeholder where any
/// step on the way there is missing or of another kind.
pub open spec fn title_of(properties: JsonView, field: Seq<char>) -> Seq<char> {
    match text_of(
        field_of(first_item_of(field_of(properties.field(field), "title"@)), "plain_text"@),
    ) {
        Some(title) => title,
        None => UNTITLED@,
    }
}

/// The text under the member `part` (`start` or `end`) of the date that the
/// property called `field` holds; nothing where any step on the way there
/// is missing or of another kind.
pub open spec fn date_text_of(properties: JsonView, field: Seq<char>, part: Seq<char>) -> Option<
    Seq<char>,
> {
    text_of(field_of(field_of(properties.field(field), "date"@), part))
}

/// The day number read from the member `part` (`start` or `end`) of the date
/// that the property called `field` holds.
pub open spec fn day_of(properties: JsonView, field: Seq<char>, part: Seq<char>) -> Option<int> {
    match date_text_of(properties, field, part) {
        Some(text) => date_of_text(text),
        None => None,
    }
}

/// The end date an event keeps: the end date read, unless it lies before
/// the start date, in which case the event has none.
pub open spec fn kept_end(start: int, end: Option<int>) -> Option<int> {
    match end {
        Some(day) => if start <= day {
            Some(day)
        } else {
            None
        },
        None => None,
    }
}

/// What the event of a row under a source says, once its dates are read:
/// the title of the row, the identifiers of the source and of the row, the
/// start date, the end date where it is not before the start date, the
/// colour of the source; it lasts all day and has no description.
pub open spec fn assembled(
    page: NotionPageView,
    source: DatabaseConfigView,
    start: int,
    end: Option<int>,
) -> EventContent {
    EventContent {
        title: title_of(page.properties, source.title_property),
        database_id: source.id,
        notion_page_id: Some(page.id),
        start_date: start,
        end_date: kept_end(start, end),
        all_day: true,
        description: None,
        color: source.color,
    }
}

/// What the event made of a row under a source says; nothing where the row
/// has no start date that can be read. An end date that cannot be read, or
/// that lies before the start date, is left out.
pub open spec fn mapped(page: NotionPageView, source: DatabaseConfigView) -> Option<EventContent> {
    match day_of(page.properties, source.date_property, "start"@) {
        Some(start) => Some(
            assembled(page, source, start, day_of(page.properties, source.date_property, "end"@)),
        ),
        None => None,
    }
}

/// Whether `event` is an outcome of mapping the row under the source: the
/// row's event, under whatever identifier and times, or nothing where the
/// row gives no event.
pub open spec fn is_mapping_of(
    event: Option<CalendarEventView>,
    page: NotionPageView,
    source: DatabaseConfigView,
) -> bool {
    match event {
        Some(e) => mapped(page, source) == Some(e.content),
        None => mapped(page, source) is None,
    }
}

/// The mapping of rows under one source, as a function of the row.
pub open spec fn mapping_under(source: DatabaseConfigView) -> spec_fn(NotionPageView) -> Option<
    EventContent,
> {
    |page: NotionPageView| mapped(page, source)
}

/// What the events made of a list of rows say, in the order of the rows;
/// rows that give no event leave no trace.
pub open spec fn mapped_all(pages: Seq<NotionPageView>, source: DatabaseConfigView) -> Seq<
    EventContent,
> {
    pages.filter_map(mapping_under(source))
}

/// Every event made of a row is well formed: where it has an end date, the
/// end date is not before the start date.
pub proof fn lemma_mapped_is_well_formed(page: NotionPageView, source: DatabaseConfigView)
    ensures
        mapped(page, source) matches Some(content) ==> content.well_formed(),
{
}

/// Every event of a mapped list is well formed.
pub proof fn lemma_mapped_all_are_well_formed(
    pages: Seq<NotionPageView>,
    source: DatabaseConfigView,
)
    ensures
        forall|i: int|
            0 <= i < mapped_all(pages, source).len() ==> (#[trigger] mapped_all(
                pages,
                source,
            )[i]).well_formed(),
{
    let all = mapped_all(pages, source);
    assert forall|i: int| 0 <= i < all.len() implies (#[trigger] all[i]).well_formed() by {
        assert(all.contains(all[i]));
        lemma_mapped_all_members(pages, source, all[i]);
        let k = choose|k: int|
            0 <= k < pages.len() && mapped(#[trigger] pages[k], source) == Some(all[i]);
        lemma_mapped_is_well_formed(pages[k], source);
    }
}

/// Mapping is a function of the row and the source: two outcomes of mapping
/// the same row under the same source are both an event or both nothing,
/// and two events say the same; they can differ in their identifiers and in
/// the times at which they were read, and in nothing else.
pub proof fn lemma_mapping_is_pure(
    page: NotionPageView,
    source: DatabaseConfigView,
    first: Option<CalendarEventView>,
    second: Option<CalendarEventView>,
)
    requires
        is_mapping_of(first, page, source),
        is_mapping_of(second, page, source),
    ensures
        first is Some <==> second is Some,
        first is Some ==> first.unwrap().content == second.unwrap().content,
{
}

/// Every event of a mapped list comes from a row of the list that gives it,
/// and every row that gives an event has it in the mapped list.
pub proof fn lemma_mapped_all_members(
    pages: Seq<NotionPageView>,
    source: DatabaseConfigView,
    content: EventContent,
)
    ensures
        mapped_all(pages, source).contains(content) <==> exists|i: int|
            0 <= i < pages.len() && mapped(#[trigger] pages[i], source) == Some(content),
    decreases pages.len(),
{
    if pages.len() > 0 {
        // The mapped list is that of the rows before the last, followed by the
        // event of the last row if it gives one.
        let before = pages.drop_last();
        let last = pages.len() - 1;
        let mapped_before = mapped_all(before, source);
        let mapped_pages = mapped_all(pages, source);
        lemma_mapped_all_members(before, source, content);
        if mapped_pages.contains(content) {
            let k = choose|k: int| 0 <= k < mapped_pages.len() && mapped_pages[k] == content;
            if k < mapped_before.len() {
                // It is an event of an earlier row.
                assert(mapped_before.contains(content));
            } else {
                // It is the event of the last row.
                assert(mapped(pages[last], source) == Some(content));
            }
        }
        if exists|i: int|
            0 <= i < pages.len() && mapped(#[trigger] pages[i], source) == Some(content) {
            let i = choose|i: int|
                0 <= i < pages.len() && mapped(#[trigger] pages[i], source) == Some(content);
            if i < last {
                assert(mapped(before[i], source) == Some(content));
                let k = choose|k: int| 0 <= k < mapped_before.len() && mapped_before[k] == content;
                assert(mapped_pages[k] == content);
            } else {
                assert(mapped_pages[mapped_before.len() as int] == content);
            }
        }
    }
}

/// A list of rows that each give an event maps to as many events, the event
/// at each place being that of the row at that place.
pub proof fn lemma_mapped_all_complete(pages: Seq<NotionPageView>, source: DatabaseConfigView)
    requires
        forall|i: int| 0 <= i < pages.len() ==> mapped(#[trigger] pages[i], source) is Some,
    ensures
        mapped_all(pages, source).len() == pages.len(),
        forall|i: int|
            0 <= i < pages.len() ==> Some(#[trigger] mapped_all(pages, source)[i]) == mapped(
                pages[i],
                source,
            ),
    decreases pages.len(),
{
    if pages.len() > 0 {
        let before = pages.drop_last();
        assert forall|i: int| 0 <= i < before.len() implies mapped(
            #[trigger] before[i],
            source,
        ) is Some by {
            assert(before[i] == pages[i]);
        }
        lemma_mapped_all_complete(before, source);
        assert(mapped_all(pages, source) =~= mapped_all(before, source).push(
            mapped(pages.last(), source).unwrap(),
        ));
    }
}

/// The title of a row under the property called `field`.
pub fn record_title(properties: &Json, field: &str) -> (title: String)
    ensures
        title@ == title_of(properties@, field@),
{
    let runs = field_at(properties.get(field), "title");
    match text_at(field_at(first_item(runs), "plain_text")) {
        Some(text) => owned(text),
        None => owned(UNTITLED),
    }
}

/// The text under the member `part` of the date property called `field`.
pub fn record_date_text<'a>(properties: &'a Json, field: &str, part: &str) -> (text: Option<
    &'a str,
>)
    ensures
        optional_str(text) == date_text_of(properties@, field@, part@),
{
    text_at(field_at(field_at(properties.get(field), "date"), part))
}

/// The date under the member `part` of the date property called `field`.
pub fn record_day(properties: &Json, field: &str, part: &str) -> (day: Option<Date>)
    ensures
        match day {
            Some(d) => day_of(properties@, field@, part@) == Some(d@),
            None => day_of(properties@, field@, part@) is None,
        },
{
    match record_date_text(properties, field, part) {
        Some(text) => Date::parse(text),
        None => None,
    }
}

/// The event of a row under a source, once its dates are read, with the
/// identifier and the time of reading given by the caller. An end date
/// before the start date is left out, so that the event is well formed.
pub fn assemble_event(
    page: &NotionPage,
    source: &DatabaseConfig,
    start: Date,
    end: Option<Date>,
    id: String,
    now: i64,
) -> (event: CalendarEvent)
    ensures
        event@.content == assembled(page@, source@, start@, optional_day(end)),
        event@.content.well_formed(),
        event.id == id,
        event.created_at == now,
        event.updated_at == now,
        event.start_date == start,
{
    let end = match end {
        Some(day) => if day.is_before(&start) {
            None
        } else {
            Some(day)
        },
        None => None,
    };
    CalendarEvent {
        id,
        title: record_title(&page.properties, source.title_property.as_str()),
        database_id: source.id.clone(),
        notion_page_id: Some(page.id.clone()),
        start_date: start,
        end_date: end,
        all_day: true,
        description: None,
        color: source.color.clone(),
        created_at: now,
        updated_at: now,
    }
}

/// The event made of a row under a source, with the identifier and the time
/// of reading given by the caller.
pub fn map_record(page: &NotionPage, source: &DatabaseConfig, id: String, now: i64) -> (event:
    Option<CalendarEvent>)
    ensures
        match event {
            Some(e) => {
                &&& mapped(page@, source@) == Some(e@.content)
                &&& e@.content.well_formed()
                &&& e.id == id
                &&& e.created_at == now
                &&& e.updated_at == now
            },
            None => mapped(page@, source@) is None,
        },
{
    let start = match record_day(&page.properties, source.date_property.as_str(), "start") {
        Some(day) => day,
        None => {
            return None;
        },
    };
    let end = record_day(&page.properties, source.date_property.as_str(), "end");
    Some(assemble_event(page, source, start, end, id, now))
}

/// The event made of a row under a source, under a fresh identifier and
/// stamped with the current time; nothing where the row has no start date
/// that can be read.
pub fn extract_event_from_page(page: &NotionPage, db_config: &DatabaseConfig) -> (event: Option<
    CalendarEvent,
>)
    ensures
        is_mapping_of(
            match event {
                Some(e) => Some(e@),
                None => None,
            },
            page@,
            db_config@,
        ),
        event matches Some(e) ==> e@.content.well_formed(),
        event matches Some(e) ==> e.created_at == e.updated_at,
{
    map_record(page, db_config, new_id(), now_millis())
}

/// The events made of the rows a query of a source returned, in the order
/// of the rows.
pub fn load_events_from_database(pages: &Vec<NotionPage>, db_config: &DatabaseConfig) -> (events:
    Vec<CalendarEvent>)
    ensures
        contents(events_view(events@)) == mapped_all(pages_view(pages@), db_config@),
        forall|i: int| 0 <= i < events@.len() ==> (#[trigger] events@[i])@.content.well_formed(),
{
    let mut events: Vec<CalendarEvent> = Vec::new();
    let mut i: usize = 0;
    while i < pages.len()
        invariant
            i <= pages@.len(),
            contents(events_view(events@)) == mapped_all(
                pages_view(pages@).take(i as int),
                db_config@,
            ),
            forall|k: int|
                0 <= k < events@.len() ==> (#[trigger] events@[k])@.content.well_formed(),
        decreases pages@.len() - i,
    {
        proof {
            let upto = pages_view(pages@).take(i + 1);
            assert(upto.drop_last() =~= pages_view(pages@).take(i as int));
        }
        match extract_event_from_page(&pages[i], db_config) {
            Some(event) => {
                events.push(event);
            },
            None => {},
        }
        i = i + 1;
    }
    assert(pages_view(pages@).take(pages@.len() as int) =~= pages_view(pages@));
    events
}

} // verus!
