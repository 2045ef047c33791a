//! Calendar events mirrored from the rows of Notion databases.
//!
//! Rows of the configured databases become calendar events ([`mapper`]), the
//! events are laid out in month, week and day grids ([`calendar`]), and a
//! controller says when the event list is refreshed and how edits are
//! written back ([`sync`]). The library opens no connection and draws
//! nothing: it builds requests as plain data ([`api`]), takes the answers as
//! plain data, and leaves sending and drawing to the application round it.
//!
//! Dates, their parts, their weekdays and their written forms come from
//! `chrono` ([`date`]); identifiers come from `uuid`. Both stand behind small
//! functions whose contracts are taken on trust, as do a few operations on
//! text ([`text`]). Everything else is verified against its contract.

pub mod api;
pub mod calendar;
pub mod date;
pub mod event_form;
pub mod json;
pub mod mapper;
pub mod settings;
pub mod sync;
pub mod text;
pub mod titles;
pub mod types;
pub mod utils;
