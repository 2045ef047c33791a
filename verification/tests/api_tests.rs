use notion_cafe::api::{
    api_error, api_error_brief, api_error_brief_from, api_error_from, date_json, get_notion_api_base, is_success, title_json, Header,
    Method, NotionClient, Request,
};
use notion_cafe::json::{Json, JsonMember};
use notion_cafe::sync::RemoteCall;

fn member(name: &str, value: Json) -> JsonMember {
    JsonMember { name: name.to_string(), value }
}

fn object(members: Vec<(&str, Json)>) -> Json {
    Json::Object(members.into_iter().map(|(n, v)| member(n, v)).collect())
}

fn text(value: &str) -> Json {
    Json::Text(value.to_string())
}

fn header(name: &str, value: &str) -> Header {
    Header { name: name.to_string(), value: value.to_string() }
}

fn headers(key: &str) -> Vec<Header> {
    vec![
        header("Authorization", &format!("Bearer {}", key)),
        header("Notion-Version", "2022-06-28"),
        header("Content-Type", "application/json"),
    ]
}

fn client() -> NotionClient {
    NotionClient::new("secret_key".to_string(), None)
}

fn title_body(title: &str) -> Json {
    object(vec![(
        "title",
        Json::Array(vec![object(vec![("text", object(vec![("content", text(title))]))])]),
    )])
}

fn date_body(date: &str) -> Json {
    object(vec![("date", object(vec![("start", text(date))]))])
}

#[test]
fn requests_from_a_relayed_host_go_by_the_relay() {
    assert_eq!(get_notion_api_base(Some("my-app.vercel.app")), "/api/notion");
    assert_eq!(get_notion_api_base(Some("old.now.sh")), "/api/notion");
    assert_eq!(get_notion_api_base(Some("vercel.app")), "/api/notion");
    assert_eq!(get_notion_api_base(Some("now.sh:8080")), "/api/notion");
    assert_eq!(get_notion_api_base(Some("xvercel.appx")), "/api/notion");
}

#[test]
fn requests_from_other_hosts_go_to_the_store() {
    assert_eq!(get_notion_api_base(Some("localhost:8080")), "https://api.notion.com/v1");
    assert_eq!(get_notion_api_base(Some("example.com")), "https://api.notion.com/v1");
    assert_eq!(get_notion_api_base(Some("vercel.ap")), "https://api.notion.com/v1");
    assert_eq!(get_notion_api_base(Some("VERCEL.APP")), "https://api.notion.com/v1");
    assert_eq!(get_notion_api_base(Some("")), "https://api.notion.com/v1");
    assert_eq!(get_notion_api_base(None), "https://api.notion.com/v1");
}

#[test]
fn a_client_keeps_its_key_and_its_base() {
    let direct = NotionClient::new("secret_key".to_string(), Some("localhost"));
    assert_eq!(direct.api_key(), "secret_key");
    assert_eq!(direct.base_url(), "https://api.notion.com/v1");
    let relayed = NotionClient::new("secret_key".to_string(), Some("cal.vercel.app"));
    assert_eq!(relayed.base_url(), "/api/notion");
    let proxied = direct.with_proxy("http://127.0.0.1:3000/notion".to_string());
    assert_eq!(proxied.api_key(), "secret_key");
    assert_eq!(proxied.base_url(), "http://127.0.0.1:3000/notion");
}

#[test]
fn every_request_carries_the_three_headers() {
    assert_eq!(client().headers(), headers("secret_key"));
    assert_eq!(client().list_databases().headers, headers("secret_key"));
    assert_eq!(client().delete_page("p").headers, headers("secret_key"));
}

#[test]
fn listing_databases_is_a_get() {
    assert_eq!(
        client().list_databases(),
        Request {
            method: Method::Get,
            url: "https://api.notion.com/v1/databases".to_string(),
            headers: headers("secret_key"),
            body: None,
        }
    );
}

#[test]
fn reading_a_database_is_a_get_of_its_address() {
    assert_eq!(
        client().get_database("abc123"),
        Request {
            method: Method::Get,
            url: "https://api.notion.com/v1/databases/abc123".to_string(),
            headers: headers("secret_key"),
            body: None,
        }
    );
}

#[test]
fn a_query_asks_for_one_page_of_a_hundred_rows() {
    assert_eq!(
        client().query_database("abc123"),
        Request {
            method: Method::Post,
            url: "https://api.notion.com/v1/databases/abc123/query".to_string(),
            headers: headers("secret_key"),
            body: Some(object(vec![("page_size", Json::Integer(100))])),
        }
    );
}

#[test]
fn creating_a_row_names_its_database_title_and_date() {
    let request = client()
        .with_proxy("/api/notion".to_string())
        .create_page("db-1", "Name", "Date", "Stand-up", "2024-03-05");
    assert_eq!(
        request,
        Request {
            method: Method::Post,
            url: "/api/notion/pages".to_string(),
            headers: headers("secret_key"),
            body: Some(object(vec![
                ("parent", object(vec![("database_id", text("db-1"))])),
                (
                    "properties",
                    object(vec![("Name", title_body("Stand-up")), ("Date", date_body("2024-03-05"))])
                ),
            ])),
        }
    );
}

#[test]
fn a_row_is_created_under_the_property_names_of_its_source() {
    let request = client().create_page("db-1", "What", "When", "Stand-up", "2024-03-05");
    assert_eq!(request.method, Method::Post);
    assert_eq!(request.url, "https://api.notion.com/v1/pages");
    assert_eq!(
        request.body,
        Some(object(vec![
            ("parent", object(vec![("database_id", text("db-1"))])),
            (
                "properties",
                object(vec![("What", title_body("Stand-up")), ("When", date_body("2024-03-05"))])
            ),
        ]))
    );
    let properties = request.body.as_ref().unwrap().get("properties").unwrap();
    assert_eq!(properties.get("Name"), None);
    assert_eq!(properties.get("Date"), None);
}

#[test]
fn an_update_names_only_what_is_given() {
    let both = client().update_page("row-1", Some("New"), Some("2024-03-06"));
    assert_eq!(both.method, Method::Patch);
    assert_eq!(both.url, "https://api.notion.com/v1/pages/row-1");
    assert_eq!(
        both.body,
        Some(object(vec![(
            "properties",
            object(vec![("Name", title_body("New")), ("Date", date_body("2024-03-06"))])
        )]))
    );
    let title_only = client().update_page("row-1", Some("New"), None);
    assert_eq!(
        title_only.body,
        Some(object(vec![("properties", object(vec![("Name", title_body("New"))]))]))
    );
    let date_only = client().update_page("row-1", None, Some("2024-03-06"));
    assert_eq!(
        date_only.body,
        Some(object(vec![("properties", object(vec![("Date", date_body("2024-03-06"))]))]))
    );
    let neither = client().update_page("row-1", None, None);
    assert_eq!(neither.body, Some(object(vec![("properties", object(vec![]))])));
}

#[test]
fn deleting_a_row_archives_it() {
    assert_eq!(
        client().delete_page("row-1"),
        Request {
            method: Method::Patch,
            url: "https://api.notion.com/v1/pages/row-1".to_string(),
            headers: headers("secret_key"),
            body: Some(object(vec![("archived", Json::Bool(true))])),
        }
    );
}

#[test]
fn the_request_for_a_call_is_the_request_of_its_kind() {
    let c = client();
    let create = RemoteCall::Create {
        database_id: "db-1".to_string(),
        title_property: "What".to_string(),
        date_property: "When".to_string(),
        title: "T".to_string(),
        date: "2024-03-05".to_string(),
    };
    assert_eq!(c.request_for(&create), c.create_page("db-1", "What", "When", "T", "2024-03-05"));
    let update = RemoteCall::Update {
        page_id: "row-1".to_string(),
        new_title: Some("T".to_string()),
        new_date: None,
    };
    assert_eq!(c.request_for(&update), c.update_page("row-1", Some("T"), None));
    let archive = RemoteCall::Archive { page_id: "row-1".to_string() };
    assert_eq!(c.request_for(&archive), c.delete_page("row-1"));
}

#[test]
fn property_values() {
    assert_eq!(title_json("Stand-up"), title_body("Stand-up"));
    assert_eq!(date_json("2024-03-05"), date_body("2024-03-05"));
}

#[test]
fn messages_for_answers_that_are_no_success() {
    assert_eq!(api_error(404, "not found"), "API 错误 (404): not found");
    assert_eq!(api_error(500, ""), "API 错误 (500): ");
    assert_eq!(api_error_brief(401), "API 错误: 401");
    assert_eq!(api_error_brief(0), "API 错误: 0");
    assert_eq!(api_error_brief(u16::MAX), "API 错误: 65535");
    assert_eq!(api_error_from("404", "not found"), "API 错误 (404): not found");
    assert_eq!(api_error_brief_from("401"), "API 错误: 401");
}

#[test]
fn success_is_a_status_in_the_two_hundreds() {
    assert!(is_success(200));
    assert!(is_success(204));
    assert!(is_success(299));
    assert!(!is_success(199));
    assert!(!is_success(300));
    assert!(!is_success(404));
    assert!(!is_success(0));
}

#[test]
fn a_status_is_written_in_decimal() {
    assert_eq!(api_error_brief(7), "API 错误: 7");
    assert_eq!(api_error_brief(10), "API 错误: 10");
    assert_eq!(api_error_brief(100), "API 错误: 100");
    assert_eq!(api_error_brief(209), "API 错误: 209");
}
