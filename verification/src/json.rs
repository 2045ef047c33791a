//! JSON values as the library holds them: a tree of plain data that rows from
//! the remote store arrive in and that request bodies are built as.

use crate::text::same_text;
use vstd::prelude::*;

verus! {

/// One named member of a JSON object.
#[derive(Debug, PartialEq)]
pub struct JsonMember {
    pub name: String,
    pub value: Json,
}

/// A JSON value.
#[derive(Debug, PartialEq)]
pub enum Json {
    Null,
    Bool(bool),
    /// A number that is a whole number in the range of `i64`.
    Integer(i64),
    /// Any other number, as the digits it is written with.
    Decimal(String),
    Text(String),
    Array(Vec<Json>),
    /// The members in the order they were written. Where a name occurs more
    /// than once, the last member of that name is the one that counts.
    Object(Vec<JsonMember>),
}

/// The mathematical model of a [`Json`] value.
pub enum JsonView {
    Null,
    Bool(bool),
    Integer(int),
    Decimal(Seq<char>),
    Text(Seq<char>),
    Array(Seq<JsonView>),
    Object(Seq<(Seq<char>, JsonView)>),
}

/// The value of the last member called `name`, if there is one.
pub open spec fn member_named(members: Seq<(Seq<char>, JsonView)>, name: Seq<char>) -> Option<
    JsonView,
>
    decreases members.len(),
{
    if members.len() == 0 {
        None
    } else if members.last().0 == name {
        Some(members.last().1)
    } else {
        member_named(members.drop_last(), name)
    }
}

impl JsonView {
    /// The member called `name` of an object; nothing for any other value.
    pub open spec fn field(self, name: Seq<char>) -> Option<JsonView> {
        match self {
            JsonView::Object(members) => member_named(members, name),
            _ => None,
        }
    }

    /// The characters of a text value; nothing for any other value.
    pub open spec fn as_text(self) -> Option<Seq<char>> {
        match self {
            JsonView::Text(text) => Some(text),
            _ => None,
        }
    }

    /// The items of an array; nothing for any other value.
    pub open spec fn as_items(self) -> Option<Seq<JsonView>> {
        match self {
            JsonView::Array(items) => Some(items),
            _ => None,
        }
    }
}

/// The member called `name` of the value, if the value is there and is an
/// object that has one.
pub open spec fn field_of(value: Option<JsonView>, name: Seq<char>) -> Option<JsonView> {
    match value {
        Some(v) => v.field(name),
        None => None,
    }
}

/// The first item of the value, if the value is there and is an array that
/// is not empty.
pub open spec fn first_item_of(value: Option<JsonView>) -> Option<JsonView> {
    match value {
        Some(JsonView::Array(items)) => if items.len() > 0 {
            Some(items[0])
        } else {
            None
        },
        _ => None,
    }
}

/// The characters of the value, if the value is there and is a text.
pub open spec fn text_of(value: Option<JsonView>) -> Option<Seq<char>> {
    match value {
        Some(v) => v.as_text(),
        None => None,
    }
}

/// The models of the items of an array, in order.
pub open spec fn items_view(items: Seq<Json>) -> Seq<JsonView>
    decreases items,
{
    Seq::new(
        items.len(),
        |i: int|
            if 0 <= i < items.len() {
                items[i].view()
            } else {
                JsonView::Null
            },
    )
}

/// The names and the models of the values of an object's members, in order.
pub open spec fn members_view(members: Seq<JsonMember>) -> Seq<(Seq<char>, JsonView)>
    decreases members,
{
    Seq::new(
        members.len(),
        |i: int|
            if 0 <= i < members.len() {
                (members[i].name@, members[i].value.view())
            } else {
                (Seq::empty(), JsonView::Null)
            },
    )
}

impl View for Json {
    type V = JsonView;

    open spec fn view(&self) -> JsonView
        decreases self,
    {
        match self {
            Json::Null => JsonView::Null,
            Json::Bool(b) => JsonView::Bool(*b),
            Json::Integer(n) => JsonView::Integer(*n as int),
            Json::Decimal(digits) => JsonView::Decimal(digits@),
            Json::Text(text) => JsonView::Text(text@),
            Json::Array(items) => JsonView::Array(items_view(items@)),
            Json::Object(members) => JsonView::Object(members_view(members@)),
        }
    }
}

/// What the model of an array is made of.
pub proof fn lemma_array_view(items: Vec<Json>)
    ensures
        Json::Array(items)@ == JsonView::Array(items_view(items@)),
        items_view(items@).len() == items@.len(),
        forall|i: int| 0 <= i < items@.len() ==> #[trigger] items_view(items@)[i] == items@[i]@,
{
}

/// What the model of an object is made of.
pub proof fn lemma_object_view(members: Vec<JsonMember>)
    ensures
        Json::Object(members)@ == JsonView::Object(members_view(members@)),
        members_view(members@).len() == members@.len(),
        forall|i: int|
            0 <= i < members@.len() ==> #[trigger] members_view(members@)[i] == (
                members@[i].name@,
                members@[i].value@,
            ),
{
}

impl Json {
    /// A text value with the given characters.
    pub fn text(characters: &str) -> (value: Json)
        ensures
            value@ == JsonView::Text(characters@),
    {
        Json::Text(characters.to_string())
    }

    /// An object with one member.
    pub fn object1(name: &str, value: Json) -> (object: Json)
        ensures
            object@ == JsonView::Object(seq![(name@, value@)]),
    {
        let mut members: Vec<JsonMember> = Vec::new();
        members.push(JsonMember { name: name.to_string(), value });
        let object = Json::Object(members);
        assert(object@->Object_0 =~= seq![(name@, value@)]);
        object
    }

    /// An object with two members, in the order given.
    pub fn object2(first: &str, first_value: Json, second: &str, second_value: Json) -> (object:
        Json)
        ensures
            object@ == JsonView::Object(seq![(first@, first_value@), (second@, second_value@)]),
    {
        let mut members: Vec<JsonMember> = Vec::new();
        members.push(JsonMember { name: first.to_string(), value: first_value });
        members.push(JsonMember { name: second.to_string(), value: second_value });
        let object = Json::Object(members);
        assert(object@->Object_0 =~= seq![(first@, first_value@), (second@, second_value@)]);
        object
    }

    /// An array with one item.
    pub fn array1(item: Json) -> (array: Json)
        ensures
            array@ == JsonView::Array(seq![item@]),
    {
        let mut items: Vec<Json> = Vec::new();
        items.push(item);
        let array = Json::Array(items);
        assert(array@->Array_0 =~= seq![item@]);
        array
    }

    /// The member called `name`, where the value is an object that has one.
    pub fn get(&self, name: &str) -> (found: Option<&Json>)
        ensures
            match found {
                Some(value) => self@.field(name@) == Some(value@),
                None => self@.field(name@) is None,
            },
    {
        match self {
            Json::Object(members) => {
                let ghost all = members_view(members@);
                proof {
                    lemma_object_view(*members);
                    assert(all.take(all.len() as int) =~= all);
                }
                let mut i: usize = members.len();
                while i > 0
                    invariant
                        i <= members@.len(),
                        all == members_view(members@),
                        self@ == JsonView::Object(all),
                        member_named(all, name@) == member_named(all.take(i as int), name@),
                    decreases i,
                {
                    i = i - 1;
                    let member = &members[i];
                    proof {
                        let upto = all.take(i + 1);
                        assert(upto.drop_last() =~= all.take(i as int));
                    }
                    if same_text(member.name.as_str(), name) {
                        return Some(&member.value);
                    }
                }
                None
            },
            _ => None,
        }
    }

    /// The characters of a text value.
    pub fn as_str(&self) -> (text: Option<&str>)
        ensures
            match text {
                Some(characters) => self@.as_text() == Some(characters@),
                None => self@.as_text() is None,
            },
    {
        match self {
            Json::Text(text) => Some(text.as_str()),
            _ => None,
        }
    }

    /// The items of an array.
    pub fn as_array(&self) -> (items: Option<&Vec<Json>>)
        ensures
            match items {
                Some(list) => self@.as_items() == Some(items_view(list@)),
                None => self@.as_items() is None,
            },
    {
        match self {
            Json::Array(items) => Some(items),
            _ => None,
        }
    }
}

/// The model of a value that may be missing.
pub open spec fn optional_view(value: Option<&Json>) -> Option<JsonView> {
    match value {
        Some(v) => Some(v@),
        None => None,
    }
}

/// The characters of a text that may be missing.
pub open spec fn optional_str(text: Option<&str>) -> Option<Seq<char>> {
    match text {
        Some(t) => Some(t@),
        None => None,
    }
}

/// The member called `name` of a value that may be missing.
pub fn field_at<'a>(value: Option<&'a Json>, name: &str) -> (found: Option<&'a Json>)
    ensures
        optional_view(found) == field_of(optional_view(value), name@),
{
    match value {
        Some(v) => v.get(name),
        None => None,
    }
}

/// The first item of a value that may be missing.
pub fn first_item<'a>(value: Option<&'a Json>) -> (found: Option<&'a Json>)
    ensures
        optional_view(found) == first_item_of(optional_view(value)),
{
    match value {
        Some(v) => match v.as_array() {
            Some(items) => {
                if items.len() > 0 {
                    proof {
                        lemma_array_view(*items);
                    }
                    Some(&items[0])
                } else {
                    None
                }
            },
            None => None,
        },
        None => None,
    }
}

/// The characters of a value that may be missing.
pub fn text_at<'a>(value: Option<&'a Json>) -> (found: Option<&'a str>)
    ensures
        optional_str(found) == text_of(optional_view(value)),
{
    match value {
        Some(v) => v.as_str(),
        None => None,
    }
}

} // verus!
