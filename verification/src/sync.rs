//! The synchronisation controller: the event list with its loading and
//! error flags, and the rules by which it is refreshed from the configured
//! sources and by which edits are written back.
//!
//! The controller talks to no network. It says which remote call is due, and
//! is told how the call ended; whoever drives it performs the calls.

use crate::api::{create_members, date_value};
use crate::date::{date_of_text, in_range, Date};
use crate::json::{member_named, optional_str, JsonView};
use crate::mapper::{
    date_text_of, lemma_mapped_all_members, lemma_mapped_is_well_formed,
    load_events_from_database, mapped, mapped_all,
};
use crate::text::{joined, owned, same_text};
use crate::types::{
    contents, events_view, optional_text, pages_view, AppState, CalendarEvent, DatabaseConfig,
    DatabaseConfigView, EventContent, NotionPage, NotionPageView, ViewMode,
};
use vstd::prelude::*;

verus! {

/// How a query of one source ended, as a model: the rows it returned, or the
/// message of its failure.
pub type Answer = Result<Seq<NotionPageView>, Seq<char>>;

/// The model of the outcome of a query.
pub open spec fn answer_view(outcome: Result<Vec<NotionPage>, String>) -> Answer {
    match outcome {
        Ok(pages) => Ok(pages_view(pages@)),
        Err(message) => Err(message@),
    }
}

/// The models of a list of sources, in order.
pub open spec fn sources_view(sources: Seq<DatabaseConfig>) -> Seq<DatabaseConfigView> {
    sources.map_values(|s: DatabaseConfig| s@)
}

/// The test "has a remote database set", as a function of the source.
pub open spec fn has_remote() -> spec_fn(DatabaseConfigView) -> bool {
    |s: DatabaseConfigView| s.notion_database_id.len() > 0
}

/// The sources a refresh queries: those with a remote database set, in the
/// order they are configured in.
pub open spec fn queried(sources: Seq<DatabaseConfigView>) -> Seq<DatabaseConfigView> {
    sources.filter(has_remote())
}

/// What one source adds to a refresh: the events of the rows its query
/// returned, or nothing where the query failed.
pub open spec fn contribution(source: DatabaseConfigView, answer: Answer) -> Seq<EventContent> {
    match answer {
        Ok(pages) => mapped_all(pages, source),
        Err(_) => Seq::empty(),
    }
}

/// What the events gathered from the first sources of `targets` say, one
/// answer per source, in the order of the sources.
pub open spec fn aggregated(targets: Seq<DatabaseConfigView>, answers: Seq<Answer>) -> Seq<
    EventContent,
>
    decreases answers.len(),
{
    if answers.len() == 0 {
        Seq::empty()
    } else {
        aggregated(targets, answers.drop_last()) + contribution(
            targets[answers.len() - 1],
            answers.last(),
        )
    }
}

/// The line logged for a source whose query failed.
pub open spec fn failure_line(name: Seq<char>, message: Seq<char>) -> Seq<char> {
    "加载数据库 "@ + name + " 失败: "@ + message
}

/// The message shown when saving an event failed.
pub open spec fn save_failure(message: Seq<char>) -> Seq<char> {
    "保存失败: "@ + message
}

/// The message shown when deleting an event failed.
pub open spec fn delete_failure(message: Seq<char>) -> Seq<char> {
    "删除失败: "@ + message
}

/// An event is among those gathered exactly where one of the answers
/// contributes it.
pub proof fn lemma_aggregated_members(
    targets: Seq<DatabaseConfigView>,
    answers: Seq<Answer>,
    content: EventContent,
)
    ensures
        aggregated(targets, answers).contains(content) <==> exists|k: int|
            0 <= k < answers.len() && #[trigger] contribution(targets[k], answers[k]).contains(
                content,
            ),
    decreases answers.len(),
{
    if answers.len() > 0 {
        let last = answers.len() - 1;
        let before = aggregated(targets, answers.drop_last());
        let added = contribution(targets[last], answers[last]);
        let all = aggregated(targets, answers);
        lemma_aggregated_members(targets, answers.drop_last(), content);
        if all.contains(content) {
            let j = choose|j: int| 0 <= j < all.len() && all[j] == content;
            if j < before.len() {
                // An earlier answer contributes it.
                assert(before.contains(content));
            } else {
                // The last answer contributes it.
                assert(added[j - before.len()] == content);
                assert(contribution(targets[last], answers[last]).contains(content));
            }
        }
        if exists|k: int|
            0 <= k < answers.len() && #[trigger] contribution(targets[k], answers[k]).contains(
                content,
            ) {
            let k = choose|k: int|
                0 <= k < answers.len() && #[trigger] contribution(targets[k], answers[k]).contains(
                    content,
                );
            if k < last {
                assert(contribution(targets[k], answers.drop_last()[k]).contains(content));
                let j = choose|j: int| 0 <= j < before.len() && before[j] == content;
                assert(all[j] == content);
            } else {
                let j = choose|j: int| 0 <= j < added.len() && added[j] == content;
                assert(all[before.len() + j] == content);
            }
        }
    }
}

/// A row that a source's query returned, and that gives an event under that
/// source, is in the refreshed list: the list holds an event whose remote
/// identifier is the row's. So a row made by a write is shown by the refresh
/// that follows it, once the store returns the row.
pub proof fn lemma_refresh_shows_returned_row(
    targets: Seq<DatabaseConfigView>,
    answers: Seq<Answer>,
    k: int,
    i: int,
)
    requires
        0 <= k < answers.len(),
        answers[k] is Ok,
        0 <= i < answers[k]->Ok_0.len(),
        mapped(answers[k]->Ok_0[i], targets[k]) is Some,
    ensures
        exists|j: int|
            0 <= j < aggregated(targets, answers).len() && (#[trigger] aggregated(
                targets,
                answers,
            )[j]).notion_page_id == Some(answers[k]->Ok_0[i].id),
{
    let pages = answers[k]->Ok_0;
    let content = mapped(pages[i], targets[k]).unwrap();
    lemma_mapped_all_members(pages, targets[k], content);
    assert(contribution(targets[k], answers[k]).contains(content));
    lemma_aggregated_members(targets, answers, content);
    let all = aggregated(targets, answers);
    let j = choose|j: int| 0 <= j < all.len() && all[j] == content;
    assert(all[j].notion_page_id == Some(pages[i].id));
}

/// A remote identifier that no returned row has is the remote identifier of
/// no event of the refreshed list. So a row deleted by a write is gone after
/// the refresh that follows it, once the store no longer returns the row.
pub proof fn lemma_refresh_drops_missing_row(
    targets: Seq<DatabaseConfigView>,
    answers: Seq<Answer>,
    id: Seq<char>,
)
    requires
        forall|k: int, i: int|
            0 <= k < answers.len() && answers[k] is Ok && 0 <= i < answers[k]->Ok_0.len() ==> (
            #[trigger] answers[k]->Ok_0[i]).id != id,
    ensures
        forall|j: int|
            0 <= j < aggregated(targets, answers).len() ==> (#[trigger] aggregated(
                targets,
                answers,
            )[j]).notion_page_id != Some(id),
{
    let all = aggregated(targets, answers);
    assert forall|j: int| 0 <= j < all.len() implies (#[trigger] all[j]).notion_page_id != Some(
        id,
    ) by {
        // Some answer contributes the event, and that answer holds rows.
        let content = all[j];
        assert(all.contains(content));
        lemma_aggregated_members(targets, answers, content);
        let k = choose|k: int|
            0 <= k < answers.len() && #[trigger] contribution(targets[k], answers[k]).contains(
                content,
            );
        let pages = answers[k]->Ok_0;
        // One of its rows gives the event, whose remote identifier is the
        // row's, and so is not `id`.
        lemma_mapped_all_members(pages, targets[k], content);
        let i = choose|i: int|
            0 <= i < pages.len() && mapped(#[trigger] pages[i], targets[k]) == Some(content);
        assert(content.notion_page_id == Some(pages[i].id));
    }
}

/// Every event of a refreshed list is well formed: where it has an end
/// date, the end date is not before the start date.
pub proof fn lemma_refreshed_events_are_well_formed(
    targets: Seq<DatabaseConfigView>,
    answers: Seq<Answer>,
)
    ensures
        forall|j: int|
            0 <= j < aggregated(targets, answers).len() ==> (#[trigger] aggregated(
                targets,
                answers,
            )[j]).well_formed(),
{
    let all = aggregated(targets, answers);
    assert forall|j: int| 0 <= j < all.len() implies (#[trigger] all[j]).well_formed() by {
        // Some answer contributes the event, and that answer holds rows, one
        // of which gives the event.
        let content = all[j];
        assert(all.contains(content));
        lemma_aggregated_members(targets, answers, content);
        let k = choose|k: int|
            0 <= k < answers.len() && #[trigger] contribution(targets[k], answers[k]).contains(
                content,
            );
        let pages = answers[k]->Ok_0;
        lemma_mapped_all_members(pages, targets[k], content);
        let i = choose|i: int|
            0 <= i < pages.len() && mapped(#[trigger] pages[i], targets[k]) == Some(content);
        lemma_mapped_is_well_formed(pages[i], targets[k]);
    }
}

/// A row that holds what a creation in a source asked for is read back as
/// an event of that source: it gives an event exactly where the date it was
/// created with can be read, and that event starts on that date, has no
/// end date, and carries the row's identifier. The title is read from the
/// plain text the store keeps for it.
pub proof fn lemma_created_row_is_read_back(
    page: NotionPageView,
    source: DatabaseConfigView,
    title: Seq<char>,
    date: Seq<char>,
)
    requires
        page.properties == JsonView::Object(
            create_members(source.title_property, source.date_property, title, date),
        ),
    ensures
        mapped(page, source) is Some <==> date_of_text(date) is Some,
        mapped(page, source) matches Some(content) ==> {
            &&& Some(content.start_date) == date_of_text(date)
            &&& content.end_date is None
            &&& content.notion_page_id == Some(page.id)
            &&& content.database_id == source.id
        },
{
    let members = create_members(source.title_property, source.date_property, title, date);
    // The date stands last, so it is what the date property names.
    assert(members.last() == (source.date_property, date_value(date)));
    assert(page.properties.field(source.date_property) == Some(date_value(date)));
    let range = seq![("start"@, JsonView::Text(date))];
    assert(seq![("date"@, JsonView::Object(range))].last().0 == "date"@);
    assert(date_value(date).field("date"@) == Some(JsonView::Object(range)));
    assert(range.last().0 == "start"@);
    assert(JsonView::Object(range).field("start"@) == Some(JsonView::Text(date)));
    assert(date_text_of(page.properties, source.date_property, "start"@) == Some(date));
    // The range has one member, `start`, so it has no `end`.
    reveal_strlit("start");
    reveal_strlit("end");
    assert("start"@ != "end"@) by {
        assert("start"@.len() == 5);
        assert("end"@.len() == 3);
    }
    assert(range.drop_last().len() == 0);
    assert(member_named(range.drop_last(), "end"@) is None);
    assert(JsonView::Object(range).field("end"@) is None);
    assert(date_text_of(page.properties, source.date_property, "end"@) is None);
}

/// Sources whose queries fail add nothing: the refreshed list is made of the
/// events of the sources that answered, as if the others were not there.
pub proof fn lemma_failed_source_adds_nothing(
    targets: Seq<DatabaseConfigView>,
    answers: Seq<Answer>,
)
    requires
        answers.len() > 0,
        answers.last() is Err,
    ensures
        aggregated(targets, answers) == aggregated(targets, answers.drop_last()),
{
}

/// A refresh under way: the sources it queries, the answers it has had so
/// far, and the events gathered from them. A refresh under way always has a
/// source whose answer is due.
pub struct Refresh {
    targets: Vec<DatabaseConfig>,
    position: usize,
    gathered: Vec<CalendarEvent>,
    answers: Ghost<Seq<Answer>>,
}

/// What is due in a refresh.
pub enum RefreshStep {
    /// The source [`Refresh::source`] is to be queried and the outcome handed
    /// to [`Refresh::step`].
    Query(Refresh),
    /// Every source has answered: the event list is to be replaced by these
    /// events.
    Done(Vec<CalendarEvent>),
}

impl Refresh {
    #[verifier::type_invariant]
    spec fn sound(self) -> bool {
        &&& self.position < self.targets@.len()
        &&& self.answers@.len() == self.position
        &&& contents(events_view(self.gathered@)) == aggregated(
            sources_view(self.targets@),
            self.answers@,
        )
    }

    /// The sources the refresh queries, in order.
    pub closed spec fn targets(self) -> Seq<DatabaseConfigView> {
        sources_view(self.targets@)
    }

    /// The answers had so far, one for each of the first sources.
    pub closed spec fn answers(self) -> Seq<Answer> {
        self.answers@
    }

    /// The source whose answer is due.
    pub fn source(&self) -> (source: &DatabaseConfig)
        ensures
            self.answers().len() < self.targets().len(),
            source@ == self.targets()[self.answers().len() as int],
    {
        proof {
            use_type_invariant(self);
        }
        &self.targets[self.position]
    }

    /// Takes the outcome of the query of the due source. Rows become events
    /// and are added to those gathered; a failure adds nothing and gives a
    /// line for the log. Then the next source is due, or the refresh is done.
    pub fn step(self, outcome: Result<Vec<NotionPage>, String>) -> (next: (
        RefreshStep,
        Option<String>,
    ))
        ensures
            self.answers().len() < self.targets().len(),
            match next.0 {
                RefreshStep::Query(run) => {
                    &&& run.targets() == self.targets()
                    &&& run.answers() == self.answers().push(answer_view(outcome))
                    &&& run.answers().len() < run.targets().len()
                },
                RefreshStep::Done(events) => {
                    &&& self.answers().len() + 1 == self.targets().len()
                    &&& contents(events_view(events@)) == aggregated(
                        self.targets(),
                        self.answers().push(answer_view(outcome)),
                    )
                    &&& forall|i: int|
                        0 <= i < events@.len() ==> (#[trigger] events@[i])@.content.well_formed()
                },
            },
            match outcome {
                Ok(_) => next.1 is None,
                Err(message) => next.1 matches Some(line) && line@ == failure_line(
                    self.targets()[self.answers().len() as int].name,
                    message@,
                ),
            },
    {
        proof {
            use_type_invariant(&self);
        }
        let Refresh { targets, position, gathered, answers } = self;
        let mut gathered = gathered;
        let total: usize = targets.len();
        let ghost before = contents(events_view(gathered@));
        let ghost answered = answers@.push(answer_view(outcome));
        proof {
            assert(answered.drop_last() =~= answers@);
        }
        let log = match &outcome {
            Ok(pages) => {
                let mut events = load_events_from_database(pages, &targets[position]);
                let ghost added = contents(events_view(events@));
                gathered.append(&mut events);
                assert(contents(events_view(gathered@)) =~= before + added);
                None
            },
            Err(message) => {
                let mut line = joined("加载数据库 ", targets[position].name.as_str());
                line.append(" 失败: ");
                line.append(message.as_str());
                Some(line)
            },
        };
        if position + 1 < total {
            (
                RefreshStep::Query(
                    Refresh { targets, position: position + 1, gathered, answers: Ghost(answered) },
                ),
                log,
            )
        } else {
            proof {
                lemma_refreshed_events_are_well_formed(sources_view(targets@), answered);
                assert forall|i: int| 0 <= i < gathered@.len() implies (
                #[trigger] gathered@[i])@.content.well_formed() by {
                    let all = aggregated(sources_view(targets@), answered);
                    assert(gathered@[i]@.content == contents(events_view(gathered@))[i]);
                    assert(all[i].well_formed());
                }
            }
            (RefreshStep::Done(gathered), log)
        }
    }
}

/// A call to the remote store that the controller asks for.
#[derive(Clone, Debug, PartialEq)]
pub enum RemoteCall {
    /// Make a row in a remote database, its title and its date under the
    /// properties that the source of that database reads them from.
    Create {
        database_id: String,
        title_property: String,
        date_property: String,
        title: String,
        date: String,
    },
    /// Change the given fields of a row, and no others.
    Update { page_id: String, new_title: Option<String>, new_date: Option<String> },
    /// Archive a row, which is how the store deletes.
    Archive { page_id: String },
}

/// The model of a [`RemoteCall`].
pub enum RemoteCallView {
    Create {
        database_id: Seq<char>,
        title_property: Seq<char>,
        date_property: Seq<char>,
        title: Seq<char>,
        date: Seq<char>,
    },
    Update { page_id: Seq<char>, new_title: Option<Seq<char>>, new_date: Option<Seq<char>> },
    Archive { page_id: Seq<char> },
}

impl View for RemoteCall {
    type V = RemoteCallView;

    open spec fn view(&self) -> RemoteCallView {
        match self {
            RemoteCall::Create {
                database_id,
                title_property,
                date_property,
                title,
                date,
            } => RemoteCallView::Create {
                database_id: database_id@,
                title_property: title_property@,
                date_property: date_property@,
                title: title@,
                date: date@,
            },
            RemoteCall::Update { page_id, new_title, new_date } => RemoteCallView::Update {
                page_id: page_id@,
                new_title: optional_text(*new_title),
                new_date: optional_text(*new_date),
            },
            RemoteCall::Archive { page_id } => RemoteCallView::Archive { page_id: page_id@ },
        }
    }
}

/// The call that creates a row for an event in a source: the row goes to
/// the remote database of the source, and holds the title and the date
/// under the properties the source reads them from.
pub open spec fn creation_in(source: DatabaseConfigView, title: Seq<char>, date: Seq<char>)
    -> RemoteCallView {
    RemoteCallView::Create {
        database_id: source.notion_database_id,
        title_property: source.title_property,
        date_property: source.date_property,
        title,
        date,
    }
}

/// The kind of a write, which decides the wording of its failure.
#[derive(Clone, Copy, Debug, PartialEq, Eq, Structural)]
pub enum WriteKind {
    /// Creating or updating an event.
    Save,
    /// Deleting an event.
    Delete,
}

/// Index of the first source with the given local identifier.
pub open spec fn source_index(sources: Seq<DatabaseConfigView>, id: Seq<char>) -> Option<int>
    decreases sources.len(),
{
    if sources.len() == 0 {
        None
    } else {
        match source_index(sources.drop_last(), id) {
            Some(i) => Some(i),
            None => if sources.last().id == id {
                Some(sources.len() - 1)
            } else {
                None
            },
        }
    }
}

/// The first source with the given local identifier.
pub fn find_source<'a>(sources: &'a Vec<DatabaseConfig>, id: &str) -> (found: Option<
    &'a DatabaseConfig,
>)
    ensures
        match found {
            Some(source) => {
                &&& source_index(sources_view(sources@), id@) matches Some(i)
                &&& 0 <= i < sources@.len()
                &&& sources@[i] == *source
                &&& source.id@ == id@
            },
            None => source_index(sources_view(sources@), id@) is None,
        },
{
    let ghost all = sources_view(sources@);
    let mut i: usize = 0;
    while i < sources.len()
        invariant
            i <= sources@.len(),
            all == sources_view(sources@),
            source_index(all.take(i as int), id@) is None,
        decreases sources@.len() - i,
    {
        proof {
            assert(all.take(i + 1).drop_last() =~= all.take(i as int));
        }
        if same_text(sources[i].id.as_str(), id) {
            proof {
                lemma_source_index_prefix(all, id@, i + 1);
            }
            return Some(&sources[i]);
        }
        i = i + 1;
    }
    assert(all.take(sources@.len() as int) =~= all);
    None
}

/// A source found among the first `n` sources is the one found among all.
proof fn lemma_source_index_prefix(sources: Seq<DatabaseConfigView>, id: Seq<char>, n: int)
    requires
        0 <= n <= sources.len(),
        source_index(sources.take(n), id) is Some,
    ensures
        source_index(sources, id) == source_index(sources.take(n), id),
    decreases sources.len() - n,
{
    if n < sources.len() {
        assert(sources.take(n + 1).drop_last() =~= sources.take(n));
        lemma_source_index_prefix(sources, id, n + 1);
    } else {
        assert(sources.take(n) =~= sources);
    }
}

/// The controller: what the application holds while it runs.
pub struct SyncController {
    /// The credential, the sources and the view state.
    pub state: AppState,
    /// The events of the last refresh.
    pub events: Vec<CalendarEvent>,
    /// Whether a refresh is under way.
    pub is_loading: bool,
    /// The message of the last write that failed, until it is dismissed.
    pub error_message: Option<String>,
    pub show_settings: bool,
    pub show_event_modal: bool,
    /// The date last chosen in the grid.
    pub selected_date: Option<Date>,
    /// The event being edited, if any.
    pub editing_event: Option<CalendarEvent>,
}

impl SyncController {
    /// A controller over the given state, with no events yet.
    pub fn new(state: AppState) -> (controller: SyncController)
        ensures
            controller.state == state,
            controller.events@.len() == 0,
            !controller.is_loading,
            controller.error_message is None,
            !controller.show_settings,
            !controller.show_event_modal,
            controller.selected_date is None,
            controller.editing_event is None,
    {
        SyncController {
            state,
            events: Vec::new(),
            is_loading: false,
            error_message: None,
            show_settings: false,
            show_event_modal: false,
            selected_date: None,
            editing_event: None,
        }
    }

    /// Shows another grid. The anchor date stays.
    pub fn set_view(&mut self, view: ViewMode)
        ensures
            final(self).state == (AppState { current_view: view, ..old(self).state }),
            *final(self) == (SyncController { state: final(self).state, ..*old(self) }),
    {
        self.state.current_view = view;
    }

    /// Moves the anchor date one step forward: 30 days in the month grid, 7
    /// in the week grid, 1 in the day grid. Where the date so reached cannot
    /// be held, nothing moves.
    pub fn go_next(&mut self) -> (moved: bool)
        ensures
            moved == in_range(old(self).state.current_date@ + old(self).state.current_view.step_days()),
            moved ==> final(self).state.current_date@ == old(self).state.current_date@ + old(
                self,
            ).state.current_view.step_days(),
            final(self).state == (AppState {
                current_date: final(self).state.current_date,
                ..old(self).state
            }),
            *final(self) == (SyncController { state: final(self).state, ..*old(self) }),
            !moved ==> *final(self) == *old(self),
    {
        let step: i32 = self.state.current_view.step();
        match self.state.current_date.plus_days(step) {
            Some(date) => {
                self.state.current_date = date;
                true
            },
            None => false,
        }
    }

    /// Moves the anchor date one step back: 30 days in the month grid, 7 in
    /// the week grid, 1 in the day grid. Where the date so reached cannot be
    /// held, nothing moves.
    pub fn go_previous(&mut self) -> (moved: bool)
        ensures
            moved == in_range(old(self).state.current_date@ - old(self).state.current_view.step_days()),
            moved ==> final(self).state.current_date@ == old(self).state.current_date@ - old(
                self,
            ).state.current_view.step_days(),
            final(self).state == (AppState {
                current_date: final(self).state.current_date,
                ..old(self).state
            }),
            *final(self) == (SyncController { state: final(self).state, ..*old(self) }),
            !moved ==> *final(self) == *old(self),
    {
        let step: i32 = self.state.current_view.step();
        match self.state.current_date.plus_days(-step) {
            Some(date) => {
                self.state.current_date = date;
                true
            },
            None => false,
        }
    }

    /// Moves the anchor date to the current date.
    pub fn go_today(&mut self, today: Date)
        ensures
            final(self).state == (AppState { current_date: today, ..old(self).state }),
            *final(self) == (SyncController { state: final(self).state, ..*old(self) }),
    {
        self.state.current_date = today;
    }

    /// A date of the grid was chosen: the event form opens for a new event
    /// on that date.
    pub fn select_date(&mut self, date: Date)
        ensures
            *final(self) == (SyncController {
                selected_date: Some(date),
                editing_event: None,
                show_event_modal: true,
                ..*old(self)
            }),
    {
        self.selected_date = Some(date);
        self.editing_event = None;
        self.show_event_modal = true;
    }

    /// An event of the grid was chosen: the event form opens for it.
    pub fn select_event(&mut self, event: CalendarEvent)
        ensures
            *final(self) == (SyncController {
                editing_event: Some(event),
                show_event_modal: true,
                ..*old(self)
            }),
    {
        self.editing_event = Some(event);
        self.show_event_modal = true;
    }

    /// Closes the event form.
    pub fn close_event_modal(&mut self)
        ensures
            *final(self) == (SyncController { show_event_modal: false, ..*old(self) }),
    {
        self.show_event_modal = false;
    }

    /// Opens the settings.
    pub fn open_settings(&mut self)
        ensures
            *final(self) == (SyncController { show_settings: true, ..*old(self) }),
    {
        self.show_settings = true;
    }

    /// Closes the settings.
    pub fn close_settings(&mut self)
        ensures
            *final(self) == (SyncController { show_settings: false, ..*old(self) }),
    {
        self.show_settings = false;
    }

    /// Takes the error message away.
    pub fn dismiss_error(&mut self)
        ensures
            *final(self) == (SyncController { error_message: None, ..*old(self) }),
    {
        self.error_message = None;
    }

    /// Takes over the state the settings were saved with, and starts a
    /// refresh under it.
    pub fn apply_settings(&mut self, new_state: AppState) -> (step: Option<RefreshStep>)
        ensures
            final(self).state == new_state,
            match step {
                None => {
                    &&& new_state.notion_api_key is None
                    &&& *final(self) == (SyncController { state: new_state, ..*old(self) })
                },
                Some(due) => {
                    &&& new_state.notion_api_key is Some
                    &&& *final(self) == (SyncController {
                        state: new_state,
                        is_loading: true,
                        error_message: None,
                        ..*old(self)
                    })
                    &&& match due {
                        RefreshStep::Query(run) => {
                            &&& run.targets() == queried(sources_view(new_state.databases@))
                            &&& run.answers().len() == 0
                            &&& run.targets().len() > 0
                        },
                        RefreshStep::Done(events) => {
                            &&& queried(sources_view(new_state.databases@)).len() == 0
                            &&& events@.len() == 0
                        },
                    }
                },
            },
    {
        self.state = new_state;
        self.begin_refresh()
    }

    /// Whether a credential is set.
    pub open spec fn has_credential(self) -> bool {
        self.state.notion_api_key is Some
    }

    /// Starts a refresh. Without a credential nothing happens. With one, the
    /// loading flag is set, the error message is cleared, and the first
    /// source with a remote database is due; where no source has one, the
    /// refresh is done at once, with no events.
    pub fn begin_refresh(&mut self) -> (step: Option<RefreshStep>)
        ensures
            match step {
                None => !old(self).has_credential() && *final(self) == *old(self),
                Some(due) => {
                    &&& old(self).has_credential()
                    &&& *final(self) == (SyncController {
                        is_loading: true,
                        error_message: None,
                        ..*old(self)
                    })
                    &&& match due {
                        RefreshStep::Query(run) => {
                            &&& run.targets() == queried(sources_view(old(self).state.databases@))
                            &&& run.answers().len() == 0
                            &&& run.targets().len() > 0
                        },
                        RefreshStep::Done(events) => {
                            &&& queried(sources_view(old(self).state.databases@)).len() == 0
                            &&& events@.len() == 0
                        },
                    }
                },
            },
    {
        if self.state.notion_api_key.is_none() {
            return None;
        }
        self.is_loading = true;
        self.error_message = None;
        let targets = sources_with_remote(&self.state.databases);
        if targets.len() == 0 {
            Some(RefreshStep::Done(Vec::new()))
        } else {
            let gathered: Vec<CalendarEvent> = Vec::new();
            assert(contents(events_view(gathered@)) =~= Seq::<EventContent>::empty());
            Some(
                RefreshStep::Query(
                    Refresh { targets, position: 0, gathered, answers: Ghost(Seq::empty()) },
                ),
            )
        }
    }

    /// Ends a refresh: the event list is replaced as a whole by the events
    /// gathered, and the loading flag is cleared.
    pub fn finish_refresh(&mut self, events: Vec<CalendarEvent>)
        ensures
            *final(self) == (SyncController { events, is_loading: false, ..*old(self) }),
    {
        self.events = events;
        self.is_loading = false;
    }

    /// The call that creates an event in the source with the given local
    /// identifier, under the property names of that source. Nothing where no
    /// credential is set or no source has that identifier.
    pub fn create(&self, title: &str, date: &str, source_id: &str) -> (call: Option<RemoteCall>)
        ensures
            match call {
                Some(c) => {
                    &&& self.has_credential()
                    &&& source_index(sources_view(self.state.databases@), source_id@) matches Some(
                        i,
                    )
                    &&& 0 <= i < self.state.databases@.len()
                    &&& c@ == creation_in(self.state.databases@[i]@, title@, date@)
                },
                None => !self.has_credential() || source_index(
                    sources_view(self.state.databases@),
                    source_id@,
                ) is None,
            },
    {
        if self.state.notion_api_key.is_none() {
            return None;
        }
        match find_source(&self.state.databases, source_id) {
            Some(source) => Some(
                RemoteCall::Create {
                    database_id: source.notion_database_id.clone(),
                    title_property: source.title_property.clone(),
                    date_property: source.date_property.clone(),
                    title: owned(title),
                    date: owned(date),
                },
            ),
            None => None,
        }
    }

    /// The call that changes the given fields of a remote row. Nothing where
    /// no credential is set.
    pub fn update(&self, remote_id: &str, title: Option<&str>, date: Option<&str>) -> (call:
        Option<RemoteCall>)
        ensures
            match call {
                Some(c) => self.has_credential() && c@ == RemoteCallView::Update {
                    page_id: remote_id@,
                    new_title: optional_str(title),
                    new_date: optional_str(date),
                },
                None => !self.has_credential(),
            },
    {
        if self.state.notion_api_key.is_none() {
            return None;
        }
        let new_title = match title {
            Some(t) => Some(owned(t)),
            None => None,
        };
        let new_date = match date {
            Some(d) => Some(owned(d)),
            None => None,
        };
        Some(RemoteCall::Update { page_id: owned(remote_id), new_title, new_date })
    }

    /// The call that deletes a remote row. Nothing where no credential is set.
    pub fn delete(&self, remote_id: &str) -> (call: Option<RemoteCall>)
        ensures
            match call {
                Some(c) => self.has_credential() && c@ == RemoteCallView::Archive {
                    page_id: remote_id@,
                },
                None => !self.has_credential(),
            },
    {
        if self.state.notion_api_key.is_none() {
            return None;
        }
        Some(RemoteCall::Archive { page_id: owned(remote_id) })
    }

    /// The call that saves what the event form holds: an update of title and
    /// date where the form edits a remote row, a creation in the chosen
    /// source where it does not. Nothing where no credential is set or the
    /// chosen source is not configured.
    pub fn save_event(&self, title: &str, date: &str, source_id: &str, page_id: Option<&str>) -> (call:
        Option<RemoteCall>)
        ensures
            match call {
                Some(c) => {
                    &&& self.has_credential()
                    &&& source_index(sources_view(self.state.databases@), source_id@) matches Some(
                        i,
                    )
                    &&& 0 <= i < self.state.databases@.len()
                    &&& c@ == match page_id {
                        Some(id) => RemoteCallView::Update {
                            page_id: id@,
                            new_title: Some(title@),
                            new_date: Some(date@),
                        },
                        None => creation_in(self.state.databases@[i]@, title@, date@),
                    }
                },
                None => !self.has_credential() || source_index(
                    sources_view(self.state.databases@),
                    source_id@,
                ) is None,
            },
    {
        if self.state.notion_api_key.is_none() {
            return None;
        }
        if find_source(&self.state.databases, source_id).is_none() {
            return None;
        }
        match page_id {
            Some(id) => self.update(id, Some(title), Some(date)),
            None => self.create(title, date, source_id),
        }
    }

    /// Takes the outcome of a write. After a success the event list is to be
    /// refreshed, and nothing changes until then. After a failure the error
    /// message is set, in place of any earlier one, and the events stay as
    /// they are; nothing is tried again.
    pub fn write_done(&mut self, kind: WriteKind, outcome: Result<(), String>) -> (refresh: bool)
        ensures
            refresh == outcome is Ok,
            match outcome {
                Ok(_) => *final(self) == *old(self),
                Err(message) => {
                    &&& final(self).error_message matches Some(text)
                    &&& text@ == match kind {
                        WriteKind::Save => save_failure(message@),
                        WriteKind::Delete => delete_failure(message@),
                    }
                    &&& *final(self) == (SyncController {
                        error_message: final(self).error_message,
                        ..*old(self)
                    })
                },
            },
    {
        match outcome {
            Ok(_) => true,
            Err(message) => {
                let text = match kind {
                    WriteKind::Save => joined("保存失败: ", message.as_str()),
                    WriteKind::Delete => joined("删除失败: ", message.as_str()),
                };
                self.error_message = Some(text);
                false
            },
        }
    }
}

/// The sources with a remote database set, in order.
pub fn sources_with_remote(sources: &Vec<DatabaseConfig>) -> (targets: Vec<DatabaseConfig>)
    ensures
        sources_view(targets@) == queried(sources_view(sources@)),
{
    let ghost all = sources_view(sources@);
    let ghost test = has_remote();
    let mut targets: Vec<DatabaseConfig> = Vec::new();
    let mut i: usize = 0;
    proof {
        reveal(Seq::filter);
    }
    while i < sources.len()
        invariant
            i <= sources@.len(),
            all == sources_view(sources@),
            test == has_remote(),
            sources_view(targets@) == all.take(i as int).filter(test),
        decreases sources@.len() - i,
    {
        let source = &sources[i];
        proof {
            assert(all.take(i + 1) =~= all.take(i as int).push(source@));
            all.take(i as int).lemma_filter_push(source@, test);
        }
        if !source.notion_database_id.as_str().is_empty() {
            targets.push(source.clone());
        }
        i = i + 1;
    }
    assert(all.take(sources@.len() as int) =~= all);
    targets
}

} // verus!
