//! The settings: changes to the credential and to the list of sources, and
//! the test the settings have to pass before they are saved.

use crate::text::{decimal, decimal_text, joined, same_text, utf8_len};
use crate::types::{
    new_id, AppState, DatabaseConfig, DatabaseConfigView, DEFAULT_DATE_PROPERTY,
    DEFAULT_TITLE_PROPERTY,
};
use crate::utils::{
    all_hex, clean_database_id, cleaned, generate_color, is_valid_database_id,
    is_valid_notion_key, palette, KEY_PREFIX,
};
use vstd::prelude::*;

verus! {

/// The message for a credential of the wrong form.
pub const KEY_MESSAGE: &'static str = "Notion API Key 格式不正确（应以 'secret_' 开头）";

/// The message shown once settings are saved.
pub const SAVED_MESSAGE: &'static str = "设置已保存";

/// The message shown where settings pass the test and still cannot be
/// stored, for the reason given.
pub open spec fn store_failure(reason: Seq<char>) -> Seq<char> {
    "保存失败: "@ + reason
}

/// The message shown where settings cannot be stored.
pub fn store_error(reason: &str) -> (message: String)
    ensures
        message@ == store_failure(reason@),
{
    joined("保存失败: ", reason)
}

/// Why settings are not saved.
#[derive(Clone, Debug, PartialEq, Eq)]
pub enum SettingsError {
    /// The credential has not the form of one.
    InvalidApiKey,
    /// The source at this place, of this name, names a remote database by an
    /// identifier of the wrong form.
    InvalidDatabaseId { index: usize, name: String },
}

/// Whether a credential, if one is set, has the form of one.
pub open spec fn key_passes(key: Option<String>) -> bool {
    match key {
        Some(k) => KEY_PREFIX@.is_prefix_of(k@) && utf8_len(k@) > 20,
        None => true,
    }
}

/// Whether a source names no remote database, or names one by an identifier
/// that, cleaned, is 32 digits of base 16.
pub open spec fn source_passes(source: DatabaseConfigView) -> bool {
    source.notion_database_id.len() == 0 || (cleaned(source.notion_database_id).len() == 32
        && all_hex(cleaned(source.notion_database_id)))
}

/// The name a new source is given, from the digits of its number: the word
/// for "database" and the number.
pub open spec fn numbered_words(number: Seq<char>) -> Seq<char> {
    "数据库 "@ + number
}

/// The name a new source is given: the word for "database" and its number.
pub open spec fn numbered_name(number: int) -> Seq<char> {
    numbered_words(decimal_text(number))
}

/// The message for a source whose database identifier has the wrong form.
pub open spec fn source_message(name: Seq<char>) -> Seq<char> {
    "数据库 '"@ + name + "' 的 ID 格式不正确"@
}

/// Sets the credential; an empty text takes it away.
pub fn set_api_key(state: &mut AppState, value: String)
    ensures
        final(state).notion_api_key == if value@.len() == 0 {
            None
        } else {
            Some(value)
        },
        *final(state) == (AppState {
            notion_api_key: final(state).notion_api_key,
            ..*old(state)
        }),
{
    if value.as_str().is_empty() {
        state.notion_api_key = None;
    } else {
        state.notion_api_key = Some(value);
    }
}

/// A source as it is added: under the given identifier, named by the given
/// digits of its number, in the colour that is the turn of its place, with
/// the default property names and no remote database.
pub fn numbered_source(id: String, number: &str, place: usize) -> (source: DatabaseConfig)
    ensures
        source.id == id,
        source.name@ == numbered_words(number@),
        source.color@ == palette()[place as int % 10],
        source.notion_database_id@.len() == 0,
        source.date_property@ == DEFAULT_DATE_PROPERTY@,
        source.title_property@ == DEFAULT_TITLE_PROPERTY@,
{
    DatabaseConfig {
        id,
        name: joined("数据库 ", number),
        notion_database_id: String::new(),
        date_property: DEFAULT_DATE_PROPERTY.to_string(),
        title_property: DEFAULT_TITLE_PROPERTY.to_string(),
        color: generate_color(place),
    }
}

/// Adds a source at the end of the list: under a fresh identifier, named by
/// its number, in the colour that is its turn, with the default property
/// names and no remote database.
pub fn add_database(state: &mut AppState)
    ensures
        final(state).databases@.len() == old(state).databases@.len() + 1,
        final(state).databases@.take(old(state).databases@.len() as int) == old(state).databases@,
        ({
            let count = old(state).databases@.len() as int;
            let added = final(state).databases@[count];
            &&& added.name@ == numbered_name(count + 1)
            &&& added.color@ == palette()[count % 10]
            &&& added.notion_database_id@.len() == 0
            &&& added.date_property@ == DEFAULT_DATE_PROPERTY@
            &&& added.title_property@ == DEFAULT_TITLE_PROPERTY@
        }),
        *final(state) == (AppState { databases: final(state).databases, ..*old(state) }),
{
    let count: usize = state.databases.len();
    let digits = decimal(count as i128 + 1);
    let added = numbered_source(new_id(), digits.as_str(), count);
    state.databases.push(added);
}

/// The test "has another local identifier than `id`", as a function of the
/// source.
pub open spec fn is_other_than(id: Seq<char>) -> spec_fn(DatabaseConfig) -> bool {
    |d: DatabaseConfig| d.id@ != id
}

/// Takes every source with the given local identifier off the list; the
/// others keep their order.
pub fn remove_database(state: &mut AppState, id: &str)
    ensures
        final(state).databases@ == old(state).databases@.filter(is_other_than(id@)),
        *final(state) == (AppState { databases: final(state).databases, ..*old(state) }),
{
    let ghost all = state.databases@;
    let ghost test = is_other_than(id@);
    let mut kept: Vec<DatabaseConfig> = Vec::new();
    let mut i: usize = 0;
    proof {
        reveal(Seq::filter);
    }
    while i < state.databases.len()
        invariant
            i <= state.databases@.len(),
            *state == *old(state),
            all == state.databases@,
            test == is_other_than(id@),
            kept@ == all.take(i as int).filter(test),
        decreases state.databases@.len() - i,
    {
        let source = &state.databases[i];
        proof {
            assert(all.take(i + 1) =~= all.take(i as int).push(*source));
            all.take(i as int).lemma_filter_push(*source, test);
        }
        if !same_text(source.id.as_str(), id) {
            kept.push(source.clone());
        }
        i = i + 1;
    }
    assert(all.take(all.len() as int) =~= all);
    state.databases = kept;
}

/// Puts `source` in the place of the source at `index`; where the list has
/// no such place, nothing changes.
pub fn update_database(state: &mut AppState, index: usize, source: DatabaseConfig)
    ensures
        final(state).databases@ == if index < old(state).databases@.len() {
            old(state).databases@.update(index as int, source)
        } else {
            old(state).databases@
        },
        *final(state) == (AppState { databases: final(state).databases, ..*old(state) }),
{
    if index < state.databases.len() {
        state.databases.set(index, source);
    }
}

/// The source under another name.
pub fn with_name(source: &DatabaseConfig, name: String) -> (changed: DatabaseConfig)
    ensures
        changed == (DatabaseConfig { name, ..*source }),
{
    let mut changed = source.clone();
    changed.name = name;
    changed
}

/// The source with the remote database that the entered text names: the
/// text is kept cleaned, without hyphens and in lower case.
pub fn with_remote_id(source: &DatabaseConfig, entered: &str) -> (changed: DatabaseConfig)
    ensures
        changed.notion_database_id@ == cleaned(entered@),
        changed == (DatabaseConfig { notion_database_id: changed.notion_database_id, ..*source }),
{
    let mut changed = source.clone();
    changed.notion_database_id = clean_database_id(entered);
    changed
}

/// The source with another date property.
pub fn with_date_property(source: &DatabaseConfig, property: String) -> (changed: DatabaseConfig)
    ensures
        changed == (DatabaseConfig { date_property: property, ..*source }),
{
    let mut changed = source.clone();
    changed.date_property = property;
    changed
}

/// The source with another title property.
pub fn with_title_property(source: &DatabaseConfig, property: String) -> (changed: DatabaseConfig)
    ensures
        changed == (DatabaseConfig { title_property: property, ..*source }),
{
    let mut changed = source.clone();
    changed.title_property = property;
    changed
}

/// Tests settings before they are saved and before any request is made. A
/// credential must have the form of one. Every source that names a remote
/// database must name it by an identifier that, cleaned, has the form of
/// one; the first source that does not is named in the error.
pub fn validate(state: &AppState) -> (outcome: Result<(), SettingsError>)
    ensures
        match outcome {
            Ok(_) => {
                &&& key_passes(state.notion_api_key)
                &&& forall|i: int|
                    0 <= i < state.databases@.len() ==> source_passes(
                        (#[trigger] state.databases@[i])@,
                    )
            },
            Err(SettingsError::InvalidApiKey) => !key_passes(state.notion_api_key),
            Err(SettingsError::InvalidDatabaseId { index, name }) => {
                &&& key_passes(state.notion_api_key)
                &&& index < state.databases@.len()
                &&& !source_passes(state.databases@[index as int]@)
                &&& forall|i: int| 0 <= i < index ==> source_passes((#[trigger] state.databases@[i])@)
                &&& name@ == state.databases@[index as int].name@
            },
        },
{
    match &state.notion_api_key {
        Some(key) => {
            if !is_valid_notion_key(key.as_str()) {
                return Err(SettingsError::InvalidApiKey);
            }
        },
        None => {},
    }
    let mut index: usize = 0;
    while index < state.databases.len()
        invariant
            index <= state.databases@.len(),
            key_passes(state.notion_api_key),
            forall|i: int| 0 <= i < index ==> source_passes((#[trigger] state.databases@[i])@),
        decreases state.databases@.len() - index,
    {
        let source = &state.databases[index];
        if !source.notion_database_id.as_str().is_empty() {
            let clean = clean_database_id(source.notion_database_id.as_str());
            if !is_valid_database_id(clean.as_str()) {
                return Err(SettingsError::InvalidDatabaseId { index, name: source.name.clone() });
            }
        }
        index = index + 1;
    }
    Ok(())
}

impl SettingsError {
    /// The message shown for settings that are not saved.
    pub fn message(&self) -> (message: String)
        ensures
            message@ == match self {
                SettingsError::InvalidApiKey => KEY_MESSAGE@,
                SettingsError::InvalidDatabaseId { index, name } => source_message(name@),
            },
    {
        match self {
            SettingsError::InvalidApiKey => KEY_MESSAGE.to_string(),
            SettingsError::InvalidDatabaseId { index, name } => {
                let mut message = joined("数据库 '", name.as_str());
                message.append("' 的 ID 格式不正确");
                message
            },
        }
    }
}

} // verus!
