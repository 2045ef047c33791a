//! The requests made of the remote store, as plain data: method, address,
//! headers and body. Nothing here opens a connection; whoever holds a
//! [`Request`] sends it.

use crate::json::{members_view, Json, JsonMember, JsonView};
use crate::sync::{RemoteCall, RemoteCallView};
use crate::text::{decimal, decimal_text, has_part, joined, occurs_in, owned};
use vstd::prelude::*;

verus! {

/// The version of the protocol every request names.
pub const NOTION_VERSION: &'static str = "2022-06-28";

/// Address of the remote store itself.
pub const DIRECT_BASE: &'static str = "https://api.notion.com/v1";

/// Address of the relay that is used where the application is served from a
/// host that cannot reach the store directly.
pub const PROXY_BASE: &'static str = "/api/notion";

/// Number of rows asked for in one query. Further pages are not asked for.
pub const PAGE_SIZE: i64 = 100;

/// Whether requests from the given host go by the relay.
pub open spec fn goes_by_relay(hostname: Option<Seq<char>>) -> bool {
    match hostname {
        Some(host) => occurs_in("vercel.app"@, host) || occurs_in("now.sh"@, host),
        None => false,
    }
}

/// The address requests go to from the given host.
pub open spec fn api_base(hostname: Option<Seq<char>>) -> Seq<char> {
    if goes_by_relay(hostname) {
        PROXY_BASE@
    } else {
        DIRECT_BASE@
    }
}

/// The characters of a host name that may be unknown.
pub open spec fn optional_host(hostname: Option<&str>) -> Option<Seq<char>> {
    match hostname {
        Some(host) => Some(host@),
        None => None,
    }
}

/// The address requests go to: the relay where the application is served
/// from a host of `vercel.app` or `now.sh`, the store itself from any other
/// host and where the host is unknown.
pub fn get_notion_api_base(hostname: Option<&str>) -> (base: String)
    ensures
        base@ == api_base(optional_host(hostname)),
{
    match hostname {
        Some(host) => {
            if has_part(host, "vercel.app") || has_part(host, "now.sh") {
                owned(PROXY_BASE)
            } else {
                owned(DIRECT_BASE)
            }
        },
        None => owned(DIRECT_BASE),
    }
}

/// The method of a request.
#[derive(Clone, Copy, Debug, PartialEq, Eq, Structural)]
pub enum Method {
    Get,
    Post,
    Patch,
}

/// One header of a request.
#[derive(Clone, Debug, PartialEq)]
pub struct Header {
    pub name: String,
    pub value: String,
}

/// A request to the remote store.
#[derive(Debug, PartialEq)]
pub struct Request {
    pub method: Method,
    pub url: String,
    pub headers: Vec<Header>,
    pub body: Option<Json>,
}

/// The model of a [`Request`].
pub struct RequestView {
    pub method: Method,
    pub url: Seq<char>,
    pub headers: Seq<(Seq<char>, Seq<char>)>,
    pub body: Option<JsonView>,
}

/// The names and values of a list of headers, in order.
pub open spec fn headers_view(headers: Seq<Header>) -> Seq<(Seq<char>, Seq<char>)> {
    headers.map_values(|h: Header| (h.name@, h.value@))
}

impl View for Request {
    type V = RequestView;

    open spec fn view(&self) -> RequestView {
        RequestView {
            method: self.method,
            url: self.url@,
            headers: headers_view(self.headers@),
            body: match self.body {
                Some(body) => Some(body@),
                None => None,
            },
        }
    }
}

/// The headers every request carries: the credential as a bearer token, the
/// version of the protocol, and the kind of the content.
pub open spec fn standard_headers(api_key: Seq<char>) -> Seq<(Seq<char>, Seq<char>)> {
    seq![
        ("Authorization"@, "Bearer "@ + api_key),
        ("Notion-Version"@, NOTION_VERSION@),
        ("Content-Type"@, "application/json"@),
    ]
}

/// The body of a query: the number of rows asked for.
pub open spec fn query_body() -> JsonView {
    JsonView::Object(seq![("page_size"@, JsonView::Integer(PAGE_SIZE as int))])
}

/// The value of a title property: one run of text with the given content.
pub open spec fn title_value(title: Seq<char>) -> JsonView {
    JsonView::Object(
        seq![
            (
                "title"@,
                JsonView::Array(
                    seq![
                        JsonView::Object(
                            seq![
                                ("text"@, JsonView::Object(seq![("content"@, JsonView::Text(title))])),
                            ],
                        ),
                    ],
                ),
            ),
        ],
    )
}

/// The value of a date property: a date with the given start.
pub open spec fn date_value(date: Seq<char>) -> JsonView {
    JsonView::Object(
        seq![("date"@, JsonView::Object(seq![("start"@, JsonView::Text(date))]))],
    )
}

/// The properties of a row that is created: its title under the title
/// property of its source, then its date under the date property of its
/// source.
pub open spec fn create_members(
    title_property: Seq<char>,
    date_property: Seq<char>,
    title: Seq<char>,
    date: Seq<char>,
) -> Seq<(Seq<char>, JsonView)> {
    seq![(title_property, title_value(title)), (date_property, date_value(date))]
}

/// The body that creates a row: the database it goes to, and its title and
/// date under the property names of its source.
pub open spec fn create_body(
    database_id: Seq<char>,
    title_property: Seq<char>,
    date_property: Seq<char>,
    title: Seq<char>,
    date: Seq<char>,
) -> JsonView {
    JsonView::Object(
        seq![
            ("parent"@, JsonView::Object(seq![("database_id"@, JsonView::Text(database_id))])),
            (
                "properties"@,
                JsonView::Object(create_members(title_property, date_property, title, date)),
            ),
        ],
    )
}

/// The properties an update names: the title where one is given, under the
/// property `Name`, then the date where one is given, under the property
/// `Date`, and nothing else.
pub open spec fn update_members(title: Option<Seq<char>>, date: Option<Seq<char>>) -> Seq<
    (Seq<char>, JsonView),
> {
    let named_title = match title {
        Some(t) => seq![("Name"@, title_value(t))],
        None => Seq::empty(),
    };
    let named_date = match date {
        Some(d) => seq![("Date"@, date_value(d))],
        None => Seq::empty(),
    };
    named_title + named_date
}

/// The body that updates a row: only the properties that are given.
pub open spec fn update_body(title: Option<Seq<char>>, date: Option<Seq<char>>) -> JsonView {
    JsonView::Object(seq![("properties"@, JsonView::Object(update_members(title, date)))])
}

/// The body that deletes a row, which the store does by archiving it.
pub open spec fn archive_body() -> JsonView {
    JsonView::Object(seq![("archived"@, JsonView::Bool(true))])
}

/// The message for an answer whose status is not one of success, from the
/// digits of the status and the text of the answer.
pub open spec fn failure_words(status: Seq<char>, text: Seq<char>) -> Seq<char> {
    "API 错误 ("@ + status + "): "@ + text
}

/// The message for an answer whose status is not one of success, from the
/// digits of the status alone.
pub open spec fn brief_failure_words(status: Seq<char>) -> Seq<char> {
    "API 错误: "@ + status
}

/// The message for an answer whose status is not one of success.
pub open spec fn api_failure(status: int, text: Seq<char>) -> Seq<char> {
    failure_words(decimal_text(status), text)
}

/// The message for an answer whose status is not one of success, where the
/// text of the answer is not read.
pub open spec fn api_failure_brief(status: int) -> Seq<char> {
    brief_failure_words(decimal_text(status))
}

/// Whether a status is one of success: from 200 to 299.
pub fn is_success(status: u16) -> (ok: bool)
    ensures
        ok == (200 <= status <= 299),
{
    200 <= status && status <= 299
}

/// The message for an answer whose status is written with the given digits
/// and that says the given text.
pub fn api_error_from(status: &str, text: &str) -> (message: String)
    ensures
        message@ == failure_words(status@, text@),
{
    let mut message = joined("API 错误 (", status);
    message.append("): ");
    message.append(text);
    message
}

/// The message for an answer whose status is written with the given digits.
pub fn api_error_brief_from(status: &str) -> (message: String)
    ensures
        message@ == brief_failure_words(status@),
{
    joined("API 错误: ", status)
}

/// The message for an answer with the given status and text.
pub fn api_error(status: u16, text: &str) -> (message: String)
    ensures
        message@ == api_failure(status as int, text@),
{
    let digits = decimal(status as i128);
    api_error_from(digits.as_str(), text)
}

/// The message for an answer with the given status.
pub fn api_error_brief(status: u16) -> (message: String)
    ensures
        message@ == api_failure_brief(status as int),
{
    let digits = decimal(status as i128);
    api_error_brief_from(digits.as_str())
}

/// The value of a title property.
pub fn title_json(title: &str) -> (value: Json)
    ensures
        value@ == title_value(title@),
{
    let run = Json::object1("text", Json::object1("content", Json::text(title)));
    Json::object1("title", Json::array1(run))
}

/// The value of a date property.
pub fn date_json(date: &str) -> (value: Json)
    ensures
        value@ == date_value(date@),
{
    Json::object1("date", Json::object1("start", Json::text(date)))
}

/// A client of the remote store: the credential and the address requests go
/// to.
pub struct NotionClient {
    api_key: String,
    base_url: String,
}

impl NotionClient {
    /// The credential.
    pub closed spec fn key(self) -> Seq<char> {
        self.api_key@
    }

    /// The address requests go to.
    pub closed spec fn base(self) -> Seq<char> {
        self.base_url@
    }

    /// A client with the given credential, for an application served from
    /// the given host.
    pub fn new(api_key: String, hostname: Option<&str>) -> (client: NotionClient)
        ensures
            client.key() == api_key@,
            client.base() == api_base(optional_host(hostname)),
    {
        let base_url = get_notion_api_base(hostname);
        NotionClient { api_key, base_url }
    }

    /// The client with another address to send requests to.
    pub fn with_proxy(self, proxy_url: String) -> (client: NotionClient)
        ensures
            client.key() == self.key(),
            client.base() == proxy_url@,
    {
        let mut client = self;
        client.base_url = proxy_url;
        client
    }

    /// The credential.
    pub fn api_key(&self) -> (key: &str)
        ensures
            key@ == self.key(),
    {
        self.api_key.as_str()
    }

    /// The address requests go to.
    pub fn base_url(&self) -> (base: &str)
        ensures
            base@ == self.base(),
    {
        self.base_url.as_str()
    }

    /// The headers every request carries.
    pub fn headers(&self) -> (headers: Vec<Header>)
        ensures
            headers_view(headers@) == standard_headers(self.key()),
    {
        let mut headers: Vec<Header> = Vec::new();
        headers.push(
            Header {
                name: owned("Authorization"),
                value: joined("Bearer ", self.api_key.as_str()),
            },
        );
        headers.push(Header { name: owned("Notion-Version"), value: owned(NOTION_VERSION) });
        headers.push(Header { name: owned("Content-Type"), value: owned("application/json") });
        headers
    }

    /// The request with the given method, path below the base, and body.
    fn request(&self, method: Method, path: String, body: Option<Json>) -> (request: Request)
        ensures
            request@ == (RequestView {
                method,
                url: self.base() + path@,
                headers: standard_headers(self.key()),
                body: match body {
                    Some(b) => Some(b@),
                    None => None,
                },
            }),
    {
        let url = joined(self.base_url.as_str(), path.as_str());
        Request { method, url, headers: self.headers(), body }
    }

    /// The request that lists the databases the credential can reach.
    pub fn list_databases(&self) -> (request: Request)
        ensures
            request@ == (RequestView {
                method: Method::Get,
                url: self.base() + "/databases"@,
                headers: standard_headers(self.key()),
                body: None,
            }),
    {
        self.request(Method::Get, owned("/databases"), None)
    }

    /// The request that reads one database.
    pub fn get_database(&self, database_id: &str) -> (request: Request)
        ensures
            request@ == (RequestView {
                method: Method::Get,
                url: self.base() + "/databases/"@ + database_id@,
                headers: standard_headers(self.key()),
                body: None,
            }),
    {
        let path = joined("/databases/", database_id);
        let request = self.request(Method::Get, path, None);
        assert(request@.url =~= self.base() + "/databases/"@ + database_id@);
        request
    }

    /// The request that queries the rows of a database: one page of them.
    pub fn query_database(&self, database_id: &str) -> (request: Request)
        ensures
            request@ == (RequestView {
                method: Method::Post,
                url: self.base() + "/databases/"@ + database_id@ + "/query"@,
                headers: standard_headers(self.key()),
                body: Some(query_body()),
            }),
    {
        let mut path = joined("/databases/", database_id);
        path.append("/query");
        let body = Json::object1("page_size", Json::Integer(PAGE_SIZE));
        let request = self.request(Method::Post, path, Some(body));
        assert(request@.url =~= self.base() + "/databases/"@ + database_id@ + "/query"@);
        request
    }

    /// The request that creates a row with the given title and date, each
    /// under the property its source reads it from.
    pub fn create_page(
        &self,
        database_id: &str,
        title_property: &str,
        date_property: &str,
        title: &str,
        date: &str,
    ) -> (request: Request)
        ensures
            request@ == (RequestView {
                method: Method::Post,
                url: self.base() + "/pages"@,
                headers: standard_headers(self.key()),
                body: Some(
                    create_body(database_id@, title_property@, date_property@, title@, date@),
                ),
            }),
    {
        let parent = Json::object1("database_id", Json::text(database_id));
        let properties = Json::object2(
            title_property,
            title_json(title),
            date_property,
            date_json(date),
        );
        let body = Json::object2("parent", parent, "properties", properties);
        self.request(Method::Post, owned("/pages"), Some(body))
    }

    /// The request that updates a row: it names the title and the date where
    /// they are given, and no other property.
    pub fn update_page(&self, page_id: &str, title: Option<&str>, date: Option<&str>) -> (request:
        Request)
        ensures
            request@ == (RequestView {
                method: Method::Patch,
                url: self.base() + "/pages/"@ + page_id@,
                headers: standard_headers(self.key()),
                body: Some(update_body(optional_host(title), optional_host(date))),
            }),
    {
        let mut members: Vec<JsonMember> = Vec::new();
        match title {
            Some(t) => {
                members.push(JsonMember { name: owned("Name"), value: title_json(t) });
                assert(members_view(members@) =~= seq![("Name"@, title_value(t@))]);
            },
            None => {},
        }
        let ghost named_title = members_view(members@);
        match date {
            Some(d) => {
                members.push(JsonMember { name: owned("Date"), value: date_json(d) });
                assert(members_view(members@) =~= named_title + seq![("Date"@, date_value(d@))]);
            },
            None => {
                assert(members_view(members@) =~= named_title + Seq::empty());
            },
        }
        let body = Json::object1("properties", Json::Object(members));
        let path = joined("/pages/", page_id);
        let request = self.request(Method::Patch, path, Some(body));
        assert(request@.url =~= self.base() + "/pages/"@ + page_id@);
        request
    }

    /// The request that deletes a row by archiving it.
    pub fn delete_page(&self, page_id: &str) -> (request: Request)
        ensures
            request@ == (RequestView {
                method: Method::Patch,
                url: self.base() + "/pages/"@ + page_id@,
                headers: standard_headers(self.key()),
                body: Some(archive_body()),
            }),
    {
        let body = Json::object1("archived", Json::Bool(true));
        let path = joined("/pages/", page_id);
        let request = self.request(Method::Patch, path, Some(body));
        assert(request@.url =~= self.base() + "/pages/"@ + page_id@);
        request
    }

    /// The request that carries out a call the controller asks for.
    pub fn request_for(&self, call: &RemoteCall) -> (request: Request)
        ensures
            request@.headers == standard_headers(self.key()),
            match call@ {
                RemoteCallView::Create {
                    database_id,
                    title_property,
                    date_property,
                    title,
                    date,
                } => {
                    &&& request@.method == Method::Post
                    &&& request@.url == self.base() + "/pages"@
                    &&& request@.body == Some(
                        create_body(database_id, title_property, date_property, title, date),
                    )
                },
                RemoteCallView::Update { page_id, new_title, new_date } => {
                    &&& request@.method == Method::Patch
                    &&& request@.url == self.base() + "/pages/"@ + page_id
                    &&& request@.body == Some(update_body(new_title, new_date))
                },
                RemoteCallView::Archive { page_id } => {
                    &&& request@.method == Method::Patch
                    &&& request@.url == self.base() + "/pages/"@ + page_id
                    &&& request@.body == Some(archive_body())
                },
            },
    {
        match call {
            RemoteCall::Create {
                database_id,
                title_property,
                date_property,
                title,
                date,
            } => self.create_page(
                database_id.as_str(),
                title_property.as_str(),
                date_property.as_str(),
                title.as_str(),
                date.as_str(),
            ),
            RemoteCall::Update { page_id, new_title, new_date } => {
                let title: Option<&str> = match new_title {
                    Some(t) => Some(t.as_str()),
                    None => None,
                };
                let date: Option<&str> = match new_date {
                    Some(d) => Some(d.as_str()),
                    None => None,
                };
                self.update_page(page_id.as_str(), title, date)
            },
            RemoteCall::Archive { page_id } => self.delete_page(page_id.as_str()),
        }
    }
}

} // verus!
