//! The form an event is made or edited in: what it starts out with, and what
//! it hands over when it is submitted.

use crate::date::{iso_text, Date};
use crate::text::owned;
use crate::types::{optional_text, CalendarEvent, DatabaseConfig};
use vstd::prelude::*;

verus! {

/// The message shown where a form is submitted without a title.
pub const TITLE_MISSING: &'static str = "请输入事件标题";

/// The form of one event.
#[derive(Clone, Debug, PartialEq)]
pub struct EventForm {
    pub title: String,
    /// The date, in the form `2024-03-05`.
    pub date: String,
    /// Local identifier of the source the event belongs to.
    pub database_id: String,
    /// Identifier of the remote row, where the form edits one.
    pub page_id: Option<String>,
    /// Whether the form makes a new event.
    pub is_new: bool,
    pub error_message: Option<String>,
}

/// What a submitted form asks to be saved.
#[derive(Clone, Debug, PartialEq)]
pub struct Submission {
    pub title: String,
    pub date: String,
    pub database_id: String,
    pub page_id: Option<String>,
}

/// The day a form starts out with: the start date of the event it edits, or
/// else the date chosen in the grid, or else the current date.
pub open spec fn starting_day(event: Option<CalendarEvent>, selected: Option<Date>, today: Date)
    -> int {
    match event {
        Some(e) => e.start_date@,
        None => match selected {
            Some(date) => date@,
            None => today@,
        },
    }
}

/// The source a form starts out with: that of the event it edits, or else
/// the first configured source, or else none.
pub open spec fn starting_source(event: Option<CalendarEvent>, databases: Seq<DatabaseConfig>)
    -> Seq<char> {
    match event {
        Some(e) => e.database_id@,
        None => if databases.len() > 0 {
            databases[0].id@
        } else {
            Seq::empty()
        },
    }
}

/// The title a form starts out with: that of the event it edits, or none.
pub open spec fn starting_title(event: Option<CalendarEvent>) -> Seq<char> {
    match event {
        Some(e) => e.title@,
        None => Seq::empty(),
    }
}

/// The remote row a form edits, if any.
pub open spec fn starting_page(event: Option<CalendarEvent>) -> Option<Seq<char>> {
    match event {
        Some(e) => optional_text(e.notion_page_id),
        None => None,
    }
}

impl EventForm {
    /// The form as it opens: for the given event, or for a new event where
    /// none is given.
    pub fn open(
        event: &Option<CalendarEvent>,
        databases: &Vec<DatabaseConfig>,
        selected_date: Option<Date>,
        today: Date,
    ) -> (form: EventForm)
        ensures
            form.is_new == (*event is None),
            form.title@ == starting_title(*event),
            form.date@ == iso_text(starting_day(*event, selected_date, today)),
            form.database_id@ == starting_source(*event, databases@),
            optional_text(form.page_id) == starting_page(*event),
            form.error_message is None,
    {
        match event {
            Some(e) => EventForm {
                title: e.title.clone(),
                date: e.start_date.to_iso_text(),
                database_id: e.database_id.clone(),
                page_id: e.notion_page_id.clone(),
                is_new: false,
                error_message: None,
            },
            None => {
                let day = match selected_date {
                    Some(date) => date,
                    None => today,
                };
                let database_id = if databases.len() > 0 {
                    databases[0].id.clone()
                } else {
                    String::new()
                };
                EventForm {
                    title: String::new(),
                    date: day.to_iso_text(),
                    database_id,
                    page_id: None,
                    is_new: true,
                    error_message: None,
                }
            },
        }
    }

    /// Submits the form. Without a title nothing is handed over and the
    /// form shows a message; with one, what the form holds is handed over to
    /// be saved and the form stays as it is.
    pub fn submit(&mut self) -> (submission: Option<Submission>)
        ensures
            match submission {
                Some(s) => {
                    &&& old(self).title@.len() > 0
                    &&& s.title@ == old(self).title@
                    &&& s.date@ == old(self).date@
                    &&& s.database_id@ == old(self).database_id@
                    &&& optional_text(s.page_id) == optional_text(old(self).page_id)
                    &&& *final(self) == *old(self)
                },
                None => {
                    &&& old(self).title@.len() == 0
                    &&& final(self).error_message matches Some(text)
                    &&& text@ == TITLE_MISSING@
                    &&& *final(self) == (EventForm {
                        error_message: final(self).error_message,
                        ..*old(self)
                    })
                },
            },
    {
        if self.title.as_str().is_empty() {
            self.error_message = Some(owned(TITLE_MISSING));
            return None;
        }
        Some(
            Submission {
                title: self.title.clone(),
                date: self.date.clone(),
                database_id: self.database_id.clone(),
                page_id: self.page_id.clone(),
            },
        )
    }

    /// The remote row to delete where the form edits one; nothing for a form
    /// that does not.
    pub fn delete(&self) -> (page_id: Option<String>)
        ensures
            optional_text(page_id) == optional_text(self.page_id),
    {
        self.page_id.clone()
    }
}

} // verus!
