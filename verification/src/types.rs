//! The data the library works on: configured sources, events, the view
//! state, and rows as the remote store hands them over.

use crate::date::Date;
use crate::json::{Json, JsonView};
use vstd::prelude::*;

verus! {

/// Name shown for a source that was not given one.
pub const DEFAULT_SOURCE_NAME: &'static str = "我的日历";

/// Name of the date property read where none was configured.
pub const DEFAULT_DATE_PROPERTY: &'static str = "Date";

/// Name of the title property read where none was configured.
pub const DEFAULT_TITLE_PROPERTY: &'static str = "Name";

/// Colour of a source that was not given one.
pub const DEFAULT_COLOR: &'static str = "#667eea";

/// Whether a character is a digit of base 16 in lower case.
pub open spec fn is_lower_hex(c: char) -> bool {
    ('0' <= c <= '9') || ('a' <= c <= 'f')
}

/// A fresh random identifier, in the hyphenated form of a UUID: 36
/// characters, groups of 8, 4, 4, 4 and 12 digits of base 16 in lower case
/// with a hyphen between one group and the next.
pub fn new_id() -> (id: String)
    ensures
        is_hyphenated_id(id@),
{
    random_uuid_text()
}

/// Whether a place of a hyphenated identifier is one where a hyphen stands:
/// after the groups of 8, 4, 4 and 4 digits.
pub open spec fn is_hyphen_place(place: int) -> bool {
    place == 8 || place == 13 || place == 18 || place == 23
}

/// Whether a character is the one that stands at a place of a hyphenated
/// identifier: a hyphen at a hyphen's place, a digit of base 16 in lower
/// case at any other.
pub open spec fn fits_id_place(place: int, c: char) -> bool {
    if is_hyphen_place(place) {
        c == '-'
    } else {
        is_lower_hex(c)
    }
}

/// Whether a text has the hyphenated form of a UUID.
pub open spec fn is_hyphenated_id(id: Seq<char>) -> bool {
    &&& id.len() == 36
    &&& forall|place: int| 0 <= place < 36 ==> fits_id_place(place, #[trigger] id[place])
}

/// Trusted: `uuid::Uuid::new_v4`, as its `Display` prints it, which is the
/// hyphenated form in lower case: 36 characters, hyphens at the places 8,
/// 13, 18 and 23, digits of base 16 at the others. Which digits they are is
/// random, and nothing is promised of them.
#[verifier::external_body]
fn random_uuid_text() -> (id: String)
    ensures
        is_hyphenated_id(id@),
{
    uuid::Uuid::new_v4().to_string()
}

/// The characters of an optional text.
pub open spec fn optional_text(text: Option<String>) -> Option<Seq<char>> {
    match text {
        Some(t) => Some(t@),
        None => None,
    }
}

/// The day number of an optional date.
pub open spec fn optional_day(date: Option<Date>) -> Option<int> {
    match date {
        Some(d) => Some(d@),
        None => None,
    }
}

/// One configured source: a remote database whose rows become events.
#[derive(Debug, PartialEq)]
pub struct DatabaseConfig {
    /// Local identifier.
    pub id: String,
    /// Name shown to the user.
    pub name: String,
    /// Identifier of the remote database; empty while none is set.
    pub notion_database_id: String,
    /// Name of the property that holds a row's date.
    pub date_property: String,
    /// Name of the property that holds a row's title.
    pub title_property: String,
    /// Colour the source's events are drawn in.
    pub color: String,
}

/// The model of a [`DatabaseConfig`].
pub struct DatabaseConfigView {
    pub id: Seq<char>,
    pub name: Seq<char>,
    pub notion_database_id: Seq<char>,
    pub date_property: Seq<char>,
    pub title_property: Seq<char>,
    pub color: Seq<char>,
}

impl View for DatabaseConfig {
    type V = DatabaseConfigView;

    open spec fn view(&self) -> DatabaseConfigView {
        DatabaseConfigView {
            id: self.id@,
            name: self.name@,
            notion_database_id: self.notion_database_id@,
            date_property: self.date_property@,
            title_property: self.title_property@,
            color: self.color@,
        }
    }
}

impl Clone for DatabaseConfig {
    fn clone(&self) -> (copy: Self)
        ensures
            copy == *self,
    {
        DatabaseConfig {
            id: self.id.clone(),
            name: self.name.clone(),
            notion_database_id: self.notion_database_id.clone(),
            date_property: self.date_property.clone(),
            title_property: self.title_property.clone(),
            color: self.color.clone(),
        }
    }
}

impl Default for DatabaseConfig {
    /// A source under a fresh identifier, with the default name, property
    /// names and colour, and no remote database yet.
    fn default() -> (config: Self)
        ensures
            config.name@ == DEFAULT_SOURCE_NAME@,
            config.notion_database_id@.len() == 0,
            config.date_property@ == DEFAULT_DATE_PROPERTY@,
            config.title_property@ == DEFAULT_TITLE_PROPERTY@,
            config.color@ == DEFAULT_COLOR@,
    {
        DatabaseConfig {
            id: new_id(),
            name: DEFAULT_SOURCE_NAME.to_string(),
            notion_database_id: String::new(),
            date_property: DEFAULT_DATE_PROPERTY.to_string(),
            title_property: DEFAULT_TITLE_PROPERTY.to_string(),
            color: DEFAULT_COLOR.to_string(),
        }
    }
}

/// A calendar event.
#[derive(Debug, PartialEq)]
pub struct CalendarEvent {
    /// Local identifier, made anew each time the event is read.
    pub id: String,
    pub title: String,
    /// Local identifier of the source the event belongs to.
    pub database_id: String,
    /// Identifier of the remote row the event was read from.
    pub notion_page_id: Option<String>,
    pub start_date: Date,
    pub end_date: Option<Date>,
    pub all_day: bool,
    pub description: Option<String>,
    pub color: String,
    /// When the event was read, in milliseconds since the Unix epoch.
    pub created_at: i64,
    pub updated_at: i64,
}

/// What an event says: all of it but its local identifier and the times at
/// which it was read.
pub struct EventContent {
    pub title: Seq<char>,
    pub database_id: Seq<char>,
    pub notion_page_id: Option<Seq<char>>,
    pub start_date: int,
    pub end_date: Option<int>,
    pub all_day: bool,
    pub description: Option<Seq<char>>,
    pub color: Seq<char>,
}

impl EventContent {
    /// The last day the event covers: its end date, or its start date where
    /// it has no end date.
    pub open spec fn last_day(self) -> int {
        match self.end_date {
            Some(end) => end,
            None => self.start_date,
        }
    }

    /// Whether the event is shown on the day with the given number: the day
    /// lies in the days from the start date to the last day, both included.
    pub open spec fn occurs_on(self, day: int) -> bool {
        self.start_date <= day <= self.last_day()
    }

    /// Whether an end date, if there is one, is not before the start date.
    pub open spec fn well_formed(self) -> bool {
        match self.end_date {
            Some(end) => self.start_date <= end,
            None => true,
        }
    }
}

/// The rule by which an event is shown on a day: the day is not before the
/// start date and not after the end date, or the start date where the event
/// has no end date. An event without an end date is shown on its start date
/// and on no other day. An event that is well formed is shown on its first
/// and on its last day; one whose end date lies before its start date is
/// shown on no day.
pub proof fn lemma_shown_days(event: EventContent, day: int)
    ensures
        event.occurs_on(day) == (day >= event.start_date && day <= match event.end_date {
            Some(end) => end,
            None => event.start_date,
        }),
        event.end_date is None ==> event.occurs_on(event.start_date),
        event.end_date is None ==> (event.occurs_on(day) <==> day == event.start_date),
        event.well_formed() ==> event.occurs_on(event.start_date) && event.occurs_on(
            event.last_day(),
        ),
        !event.well_formed() ==> !event.occurs_on(day),
{
}

/// The model of a [`CalendarEvent`].
pub struct CalendarEventView {
    pub id: Seq<char>,
    pub content: EventContent,
    pub created_at: int,
    pub updated_at: int,
}

impl View for CalendarEvent {
    type V = CalendarEventView;

    open spec fn view(&self) -> CalendarEventView {
        CalendarEventView {
            id: self.id@,
            content: EventContent {
                title: self.title@,
                database_id: self.database_id@,
                notion_page_id: optional_text(self.notion_page_id),
                start_date: self.start_date@,
                end_date: optional_day(self.end_date),
                all_day: self.all_day,
                description: optional_text(self.description),
                color: self.color@,
            },
            created_at: self.created_at as int,
            updated_at: self.updated_at as int,
        }
    }
}

impl Clone for CalendarEvent {
    fn clone(&self) -> (copy: Self)
        ensures
            copy == *self,
    {
        CalendarEvent {
            id: self.id.clone(),
            title: self.title.clone(),
            database_id: self.database_id.clone(),
            notion_page_id: self.notion_page_id.clone(),
            start_date: self.start_date,
            end_date: self.end_date,
            all_day: self.all_day,
            description: self.description.clone(),
            color: self.color.clone(),
            created_at: self.created_at,
            updated_at: self.updated_at,
        }
    }
}

impl CalendarEvent {
    /// The last day the event covers.
    pub fn last_day(&self) -> (day: Date)
        ensures
            day@ == self@.content.last_day(),
    {
        match self.end_date {
            Some(end) => end,
            None => self.start_date,
        }
    }

    /// Whether the event is shown on `day`.
    pub fn occurs_on(&self, day: &Date) -> (shown: bool)
        ensures
            shown == self@.content.occurs_on(day@),
            shown == (day@ >= self@.content.start_date && day@ <= match self@.content.end_date {
                Some(end) => end,
                None => self@.content.start_date,
            }),
    {
        let last = self.last_day();
        day.is_within(&self.start_date, &last)
    }

    /// Whether an end date, if there is one, is not before the start date.
    pub fn is_well_formed(&self) -> (ok: bool)
        ensures
            ok == self@.content.well_formed(),
    {
        match self.end_date {
            Some(end) => !end.is_before(&self.start_date),
            None => true,
        }
    }
}

/// The models of a list of events, in order.
pub open spec fn events_view(events: Seq<CalendarEvent>) -> Seq<CalendarEventView> {
    events.map_values(|e: CalendarEvent| e@)
}

/// What each event of a list says, in order.
pub open spec fn contents(events: Seq<CalendarEventView>) -> Seq<EventContent> {
    events.map_values(|e: CalendarEventView| e.content)
}

/// Which of the three grids is shown.
#[derive(Clone, Copy, Debug, PartialEq, Eq, Structural)]
pub enum ViewMode {
    Month,
    Week,
    Day,
}

impl ViewMode {
    /// The sign the mode is labelled with.
    pub fn as_str(&self) -> (label: &'static str)
        ensures
            label@ == match self {
                ViewMode::Month => "月"@,
                ViewMode::Week => "周"@,
                ViewMode::Day => "日"@,
            },
    {
        match self {
            ViewMode::Month => "月",
            ViewMode::Week => "周",
            ViewMode::Day => "日",
        }
    }

    /// Number of days by which one step forward or back moves the anchor
    /// date: 30 for the month, 7 for the week, 1 for the day.
    pub open spec fn step_days(self) -> int {
        match self {
            ViewMode::Month => 30,
            ViewMode::Week => 7,
            ViewMode::Day => 1,
        }
    }

    /// Number of days of one step in this mode.
    pub fn step(&self) -> (days: i32)
        ensures
            days == self.step_days(),
    {
        match self {
            ViewMode::Month => 30,
            ViewMode::Week => 7,
            ViewMode::Day => 1,
        }
    }
}

/// A run of text as the remote store sends it.
#[derive(Debug)]
pub struct NotionText {
    pub plain_text: String,
}

impl Clone for NotionText {
    fn clone(&self) -> (copy: Self)
        ensures
            copy == *self,
    {
        NotionText { plain_text: self.plain_text.clone() }
    }
}

/// A remote database as the store lists it.
#[derive(Debug)]
pub struct NotionDatabase {
    pub id: String,
    pub title: Vec<NotionText>,
    pub properties: Json,
}

/// One row of a remote database.
#[derive(Debug)]
pub struct NotionPage {
    pub id: String,
    pub properties: Json,
    pub created_time: String,
    pub last_edited_time: String,
}

/// The model of a [`NotionPage`].
pub struct NotionPageView {
    pub id: Seq<char>,
    pub properties: JsonView,
    pub created_time: Seq<char>,
    pub last_edited_time: Seq<char>,
}

impl View for NotionPage {
    type V = NotionPageView;

    open spec fn view(&self) -> NotionPageView {
        NotionPageView {
            id: self.id@,
            properties: self.properties@,
            created_time: self.created_time@,
            last_edited_time: self.last_edited_time@,
        }
    }
}

/// The models of a list of rows, in order.
pub open spec fn pages_view(pages: Seq<NotionPage>) -> Seq<NotionPageView> {
    pages.map_values(|p: NotionPage| p@)
}

/// One page of a listing of the remote store. The store says whether more
/// pages follow; they are never asked for.
#[derive(Debug)]
pub struct NotionListResponse<T> {
    pub results: Vec<T>,
    pub has_more: bool,
    pub next_cursor: Option<String>,
}

/// What the application keeps between sessions.
#[derive(Debug, PartialEq)]
pub struct AppState {
    /// The credential for the remote store, if one was entered.
    pub notion_api_key: Option<String>,
    /// The configured sources, in the order they were added.
    pub databases: Vec<DatabaseConfig>,
    pub current_view: ViewMode,
    /// The anchor date: the date the grid is built round.
    pub current_date: Date,
    pub selected_database_ids: Vec<String>,
}

impl Clone for AppState {
    fn clone(&self) -> (copy: Self)
        ensures
            copy.notion_api_key == self.notion_api_key,
            copy.databases@ == self.databases@,
            copy.current_view == self.current_view,
            copy.current_date == self.current_date,
            copy.selected_database_ids@ == self.selected_database_ids@,
    {
        AppState {
            notion_api_key: self.notion_api_key.clone(),
            databases: self.databases.clone(),
            current_view: self.current_view,
            current_date: self.current_date,
            selected_database_ids: self.selected_database_ids.clone(),
        }
    }
}

impl Default for AppState {
    /// No credential, one source with the default settings, the month grid,
    /// anchored on the current date.
    fn default() -> (state: Self)
        ensures
            state.notion_api_key is None,
            state.databases@.len() == 1,
            state.databases@[0].name@ == DEFAULT_SOURCE_NAME@,
            state.databases@[0].notion_database_id@.len() == 0,
            state.databases@[0].date_property@ == DEFAULT_DATE_PROPERTY@,
            state.databases@[0].title_property@ == DEFAULT_TITLE_PROPERTY@,
            state.databases@[0].color@ == DEFAULT_COLOR@,
            state.current_view == ViewMode::Month,
            state.selected_database_ids@.len() == 0,
    {
        let mut databases: Vec<DatabaseConfig> = Vec::new();
        databases.push(DatabaseConfig::default());
        AppState {
            notion_api_key: None,
            databases,
            current_view: ViewMode::Month,
            current_date: Date::today(),
            selected_database_ids: Vec::new(),
        }
    }
}

} // verus!
