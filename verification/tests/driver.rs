use irodori_qdrant::answer::{load_version, points_to_output, run_scroll, version_in, Answer};
use irodori_qdrant::config::QdrantConfig;
use irodori_qdrant::connection::{Auth, HttpRequest, Method, QdrantConnection};
use irodori_qdrant::connections::Connections;
use irodori_qdrant::driver::{
    call_json, close, connect, connection, describe, metadata, metadata_reply, open_connection,
    query, query_reply, Dispatch, Host, QueryField, QueryFields, Reply,
};
use irodori_qdrant::json::{parse_or_null, Json};
use irodori_qdrant::metadata::{
    load_collection_detail, load_metadata, scan_collections, DetailAnswer, MetadataStep,
};
use irodori_qdrant::options::ProfileOptions;
use irodori_qdrant::query::QdrantQuery;

fn plain(json: &Json) -> serde_json::Value {
    match json {
        Json::Null => serde_json::Value::Null,
        Json::Bool(flag) => serde_json::Value::Bool(*flag),
        Json::Number(number) => serde_json::Value::Number(number.clone()),
        Json::Text(text) => serde_json::Value::String(text.clone()),
        Json::Array(items) => serde_json::Value::Array(items.iter().map(plain).collect()),
        Json::Object(members) => serde_json::Value::Object(
            members
                .entries
                .iter()
                .map(|(key, value)| (key.clone(), plain(value)))
                .collect(),
        ),
    }
}

fn value(text: &str) -> serde_json::Value {
    serde_json::from_str(text).unwrap()
}

fn text(value: &str) -> Option<String> {
    Some(value.to_string())
}

fn host() -> Host {
    Host {
        engine: "qdrant".to_string(),
        abi_version: 3,
        driver_linked: true,
        manifest_json: r#"{"id":"m"}"#.to_string(),
        config_json: "no json".to_string(),
    }
}

fn success(reply: Reply) -> serde_json::Value {
    match reply {
        Reply::Success(members) => plain(&Json::Object(members)),
        Reply::Document(_) => panic!("a document"),
        Reply::Failure { code, message } => panic!("{code}: {message}"),
    }
}

fn failed(reply: Reply) -> (String, String) {
    match reply {
        Reply::Failure { code, message } => (code, message),
        _ => panic!("no failure"),
    }
}

fn refused<T>(result: Result<T, Reply>) -> (String, String) {
    match result {
        Ok(_) => panic!("not refused"),
        Err(reply) => failed(reply),
    }
}

fn pair(code: &str, message: &str) -> (String, String) {
    (code.to_string(), message.to_string())
}

fn open(key: Option<&str>, token: Option<&str>) -> QdrantConnection {
    let options = ProfileOptions {
        url: text("http://q:6333/"),
        api_key: key.map(|key| key.to_string()),
        bearer_token: token.map(|token| token.to_string()),
        ..ProfileOptions::default()
    };
    let secrets = vec!["s3cret".to_string()];
    let config = QdrantConfig::from_request(&options, secrets).unwrap();
    match open_connection(config, Ok(reqwest::Client::new())) {
        Ok(connection) => connection,
        Err(_) => panic!("refused"),
    }
}

fn fields(query: Option<&str>, collection: Option<&str>) -> QueryFields {
    QueryFields {
        query: query.map(|text| text.to_string()),
        sql: None,
        statement: None,
        collection: collection.map(|text| text.to_string()),
    }
}

fn received(status: reqwest::StatusCode, body: &str) -> Answer {
    Answer::Received { status, body: body.to_string() }
}

fn ok(body: &str) -> Answer {
    received(reqwest::StatusCode::OK, body)
}

fn no_text() -> String {
    "lost".to_string()
}

#[test]
fn maps_points_to_rows() {
    let (columns, rows, truncated) = points_to_output(parse_or_null(
        r#"{"result":{"points":[{"id":1,"payload":{"title":"a"},"vector":[0.1]}],"next_page_offset":2}}"#,
    ));
    assert_eq!(columns, vec!["id", "payload", "vector"]);
    assert_eq!(plain(&rows[0][0]), 1);
    assert!(truncated);
}

#[test]
fn missing_members_of_a_point_are_null() {
    let (_, rows, truncated) = points_to_output(parse_or_null(
        r#"{"result":{"points":[{"id":"x"},7,{"vector":[1],"payload":null}],"next_page_offset":null}}"#,
    ));
    let rows: Vec<Vec<serde_json::Value>> =
        rows.iter().map(|row| row.iter().map(plain).collect()).collect();
    assert_eq!(
        serde_json::Value::from(rows),
        value(r#"[["x",null,null],[null,null,null],[null,null,[1]]]"#)
    );
    assert!(!truncated);
}

#[test]
fn an_answer_without_points_has_no_rows() {
    for body in ["{}", "[]", r#"{"result":{"points":{}}}"#, r#"{"result":[]}"#] {
        let (columns, rows, truncated) = points_to_output(parse_or_null(body));
        assert_eq!(columns.len(), 3);
        assert!(rows.is_empty());
        assert!(!truncated);
    }
}

#[test]
fn answers_at_once_what_needs_no_request() {
    for method in ["health", "ping"] {
        match call_json(&host(), method) {
            Dispatch::Reply(reply) => assert_eq!(
                success(reply),
                value(r#"{"engine":"qdrant","abiVersion":3,"driverLinked":true}"#)
            ),
            _ => panic!("{method}"),
        }
    }
    for method in ["describe", "capabilities"] {
        match call_json(&host(), method) {
            Dispatch::Reply(reply) => assert_eq!(
                success(reply),
                value(
                    r#"{"engine":"qdrant","abiVersion":3,"driverLinked":true,"manifest":{"id":"m"},"config":null}"#
                )
            ),
            _ => panic!("{method}"),
        }
    }
    assert!(matches!(
        call_json(&host(), "manifest"),
        Dispatch::Reply(Reply::Document(text)) if text == r#"{"id":"m"}"#
    ));
    assert!(matches!(
        call_json(&host(), "config"),
        Dispatch::Reply(Reply::Document(text)) if text == "no json"
    ));
    assert_eq!(
        success(describe(&host(), Json::Bool(true), Json::text("c"))),
        value(
            r#"{"engine":"qdrant","abiVersion":3,"driverLinked":true,"manifest":true,"config":"c"}"#
        )
    );
}

#[test]
fn dispatches_the_other_methods() {
    assert!(matches!(call_json(&host(), "connect"), Dispatch::Connect));
    assert!(matches!(call_json(&host(), "query"), Dispatch::Query));
    assert!(matches!(call_json(&host(), "metadata"), Dispatch::Metadata));
    assert!(matches!(call_json(&host(), "close"), Dispatch::Close));
    match call_json(&host(), "Health") {
        Dispatch::Reply(reply) => assert_eq!(
            failed(reply),
            pair("connector.unknownMethod", "unknown connector method: Health")
        ),
        _ => panic!("dispatched"),
    }
}

#[test]
fn a_client_that_cannot_be_built_is_an_invalid_request() {
    let config = open(None, None).config;
    assert_eq!(
        refused(open_connection(config, Err("no s3cret at http://q:6333".to_string()))),
        pair("connector.invalidRequest", "no **** at <qdrant-url>")
    );
}

#[test]
fn connecting_registers_the_connection() {
    let mut connections = Connections::new();
    let reply = connect(
        &host(),
        "a",
        open(None, None),
        Ok(text("Qdrant 1.9.0")),
        Some(&mut connections),
    );
    assert_eq!(
        success(reply),
        value(
            r#"{"engine":"qdrant","connectionId":"a","driverLinked":true,"endpoint":"http://q:6333","serverVersion":"Qdrant 1.9.0"}"#
        )
    );
    assert!(connection(Some(&connections), "a").is_ok());
    assert_eq!(
        refused(connection(Some(&connections), "b")),
        pair("connector.connectionNotFound", "no open connection: b")
    );
    let reply = connect(&host(), "b", open(None, None), Ok(None), Some(&mut connections));
    assert_eq!(
        success(reply),
        value(
            r#"{"engine":"qdrant","connectionId":"b","driverLinked":true,"endpoint":"http://q:6333"}"#
        )
    );
    assert!(connections.get("a").is_some());
    assert!(connections.get("b").is_some());
}

#[test]
fn connecting_again_replaces_the_connection() {
    let mut connections = Connections::new();
    connections.insert("a", open(text("old").as_deref(), None));
    connections.insert("b", open(text("b").as_deref(), None));
    connections.insert("a", open(text("new").as_deref(), None));
    let found = connections.get("a").unwrap();
    assert_eq!(found.config.api_key.as_deref(), Some("new"));
    assert!(connections.remove("a"));
    assert!(connections.get("a").is_none());
    assert_eq!(connections.get("b").unwrap().config.api_key.as_deref(), Some("b"));
}

#[test]
fn a_server_that_cannot_be_reached_is_not_registered() {
    let mut connections = Connections::new();
    let reply = connect(
        &host(),
        "a",
        open(None, None),
        Err("http://q:6333 said s3cret".to_string()),
        Some(&mut connections),
    );
    assert_eq!(
        failed(reply),
        pair("connector.connectFailed", "<qdrant-url> said ****")
    );
    assert!(connections.get("a").is_none());
    let reply = connect(&host(), "a", open(None, None), Err("why".to_string()), None);
    assert_eq!(failed(reply), pair("connector.connectFailed", "why"));
}

#[test]
fn a_poisoned_state_is_told() {
    let expected = pair(
        "connector.statePoisoned",
        "Connector connection state is poisoned.",
    );
    assert_eq!(failed(close("a", None)), expected);
    assert_eq!(refused(connection(None, "a")), expected);
    assert_eq!(refused(metadata("a", None)), expected);
    assert_eq!(refused(query(&fields(Some("c"), None), None, 1, "a", None)), expected);
    assert_eq!(
        failed(connect(&host(), "a", open(None, None), Ok(None), None)),
        expected
    );
}

#[test]
fn closing_tells_whether_there_was_a_connection() {
    let mut connections = Connections::new();
    connections.insert("a", open(None, None));
    connections.insert("b", open(None, None));
    assert_eq!(
        success(close("a", Some(&mut connections))),
        value(r#"{"connectionId":"a","closed":true}"#)
    );
    assert_eq!(
        success(close("a", Some(&mut connections))),
        value(r#"{"connectionId":"a","closed":false}"#)
    );
    assert!(connection(Some(&connections), "a").is_err());
    assert!(connection(Some(&connections), "b").is_ok());
}

#[test]
fn a_query_is_planned_before_the_connection_is_looked_up() {
    let connections = Connections::new();
    assert_eq!(
        refused(query(&fields(None, None), text("docs"), 1, "a", None)),
        pair(
            "connector.invalidRequest",
            "query requires a collection name or JSON query string."
        )
    );
    assert_eq!(
        refused(query(&fields(Some("{"), None), None, 1, "a", None)),
        pair(
            "connector.invalidRequest",
            "invalid Qdrant query JSON: EOF while parsing an object at line 1 column 1"
        )
    );
    assert_eq!(
        refused(query(&fields(Some("c"), None), None, 1, "a", Some(&connections))),
        pair("connector.connectionNotFound", "no open connection: a")
    );
}

#[test]
fn the_first_field_that_is_there_holds_the_query() {
    let mut connections = Connections::new();
    connections.insert("a", open(None, None));
    let all = QueryFields {
        query: text("one"),
        sql: text("two"),
        statement: text("three"),
        collection: text("four"),
    };
    let sent = |fields: &QueryFields| match query(fields, None, 5, "a", Some(&connections)) {
        Ok((_, request)) => request.url,
        Err(_) => panic!("refused"),
    };
    assert_eq!(sent(&all), "http://q:6333/collections/one/points/scroll");
    let rest = QueryFields { query: None, ..all };
    assert_eq!(sent(&rest), "http://q:6333/collections/two/points/scroll");
    let rest = QueryFields { sql: None, ..rest };
    assert_eq!(sent(&rest), "http://q:6333/collections/three/points/scroll");
    let rest = QueryFields { statement: None, ..rest };
    assert_eq!(sent(&rest), "http://q:6333/collections/four/points/scroll");
}

#[test]
fn a_scroll_request_posts_the_body() {
    let query = QdrantQuery {
        collection: "my/docs ü".to_string(),
        body: Json::Bool(true),
    };
    let HttpRequest { method, url, auth, body } =
        open(Some("k"), Some("t")).scroll_request(query);
    assert!(matches!(method, Method::Post));
    assert_eq!(url, "http://q:6333/collections/my%2Fdocs%20%C3%BC/points/scroll");
    assert!(matches!(auth, Auth::Header { name, value } if name == "api-key" && value == "k"));
    assert!(matches!(body, Some(Json::Bool(true))));
}

#[test]
fn the_key_comes_before_the_bearer_token() {
    assert!(matches!(
        open(Some("k"), Some("t")).auth(),
        Auth::Header { name, value } if name == "api-key" && value == "k"
    ));
    assert!(matches!(open(None, Some("t")).auth(), Auth::Bearer(token) if token == "t"));
    assert!(matches!(open(None, None).auth(), Auth::Anonymous));
}

#[test]
fn the_other_requests_are_plain_reads() {
    let connection = open(None, Some("t"));
    let request = connection.version_request();
    assert_eq!(request.url, "http://q:6333");
    assert!(matches!(request.method, Method::Get));
    assert!(request.body.is_none());
    assert!(matches!(request.auth, Auth::Bearer(token) if token == "t"));
    assert_eq!(connection.collections_request().url, "http://q:6333/collections");
    assert_eq!(
        connection.detail_request("a b").url,
        "http://q:6333/collections/a%20b"
    );
}

#[test]
fn a_version_is_shown_with_the_product() {
    assert_eq!(load_version(ok(r#"{"version":"1.9.0"}"#)), Ok(text("Qdrant 1.9.0")));
    assert_eq!(load_version(ok(r#"{"version":2}"#)), Ok(None));
    assert_eq!(load_version(ok("{}")), Ok(None));
    assert_eq!(load_version(ok("no json")), Ok(None));
    assert_eq!(version_in(&Json::Null), None);
}

#[test]
fn a_version_that_cannot_be_had_says_why() {
    assert_eq!(
        load_version(Answer::SendFailed(no_text())),
        Err("Qdrant root request failed: lost".to_string())
    );
    assert_eq!(
        load_version(Answer::ReadFailed(no_text())),
        Err("Qdrant response read failed: lost".to_string())
    );
    assert_eq!(
        load_version(received(reqwest::StatusCode::NOT_FOUND, "nothing")),
        Err("Qdrant root request returned HTTP 404 Not Found: nothing".to_string())
    );
    let odd = reqwest::StatusCode::from_u16(299).unwrap();
    assert_eq!(load_version(received(odd, "{}")), Ok(None));
    let odd = reqwest::StatusCode::from_u16(300).unwrap();
    assert_eq!(
        load_version(received(odd, "{}")),
        Err("Qdrant root request returned HTTP 300 Multiple Choices: {}".to_string())
    );
    let odd = reqwest::StatusCode::from_u16(199).unwrap();
    assert_eq!(
        load_version(received(odd, "")),
        Err("Qdrant root request returned HTTP 199 <unknown status code>: ".to_string())
    );
}

fn scroll_error(answer: Answer) -> String {
    match run_scroll(answer) {
        Ok(_) => panic!("accepted"),
        Err(message) => message,
    }
}

#[test]
fn a_scroll_answer_becomes_rows_or_says_why_not() {
    match run_scroll(ok(r#"{"result":{"points":[{"id":5}]}}"#)) {
        Ok((_, rows, truncated)) => {
            assert_eq!(plain(&rows[0][0]), 5);
            assert!(!truncated);
        }
        Err(message) => panic!("{message}"),
    }
    assert_eq!(
        scroll_error(Answer::SendFailed(no_text())),
        "Qdrant scroll request failed: lost"
    );
    assert_eq!(
        scroll_error(Answer::ReadFailed(no_text())),
        "Qdrant scroll response read failed: lost"
    );
    assert_eq!(
        scroll_error(received(reqwest::StatusCode::BAD_REQUEST, "x")),
        "Qdrant scroll returned HTTP 400 Bad Request: x"
    );
    assert_eq!(
        scroll_error(ok("oops")),
        "Qdrant scroll JSON parse failed: expected value at line 1 column 1: oops"
    );
}

#[test]
fn a_query_reply_carries_the_rows() {
    let config = open(None, None).config;
    let output = points_to_output(parse_or_null(
        r#"{"result":{"points":[{"id":1},{"id":2,"payload":{"a":[]}}],"next_page_offset":3}}"#,
    ));
    assert_eq!(
        success(query_reply("a", &config, Ok(output))),
        value(
            r#"{"connectionId":"a","columns":["id","payload","vector"],"rows":[[1,null,null],[2,{"a":[]},null]],"truncated":true}"#
        )
    );
    assert_eq!(
        failed(query_reply("a", &config, Err("s3cret".to_string()))),
        pair("connector.queryFailed", "****")
    );
}

#[test]
fn metadata_asks_for_the_collections_first() {
    let mut connections = Connections::new();
    connections.insert("a", open(Some("k"), None));
    match metadata("a", Some(&connections)) {
        Ok((connection, request)) => {
            assert_eq!(request.url, "http://q:6333/collections");
            assert_eq!(connection.config.api_key.as_deref(), Some("k"));
        }
        Err(_) => panic!("refused"),
    }
    assert_eq!(
        refused(metadata("b", Some(&connections))),
        pair("connector.connectionNotFound", "no open connection: b")
    );
    let config = open(None, None).config;
    assert_eq!(
        success(metadata_reply("a", &config, Ok(Json::Bool(true)))),
        value(r#"{"connectionId":"a","metadata":true}"#)
    );
    assert_eq!(
        failed(metadata_reply("a", &config, Err("at http://q:6333".to_string()))),
        pair("connector.metadataFailed", "at <qdrant-url>")
    );
}

fn described(name: &str, detail: &str) -> String {
    let columns = r#"[{"name":"id","dataType":"point_id","nullable":false,"ordinal":1},{"name":"payload","dataType":"json","nullable":true,"ordinal":2},{"name":"vector","dataType":"vector","nullable":true,"ordinal":3}]"#;
    let keys = r#"[{"name":"id","keyType":"primary"}]"#;
    format!(
        r#"{{"schema":"default","name":"{name}","kind":"collection","columns":{columns},"indexes":[],"primaryKey":{keys},"foreignKeys":[],"details":{detail}}}"#
    )
}

#[test]
fn every_named_collection_is_described_in_order() {
    let connection = open(None, None);
    let list = r#"{"result":{"collections":[{"name":"b/1"},{"x":1},{"name":2},7,{"name":"a"},{"name":"c"}]}}"#;
    let step = match load_metadata(&connection, ok(list)) {
        Ok(step) => step,
        Err(message) => panic!("{message}"),
    };
    let (request, scan) = match step {
        MetadataStep::Fetch { request, scan } => (request, scan),
        MetadataStep::Done(_) => panic!("done"),
    };
    assert_eq!(request.url, "http://q:6333/collections/b%2F1");
    let (request, scan) = match scan.resume(DetailAnswer::Received(parse_or_null(r#"{"d":1}"#))) {
        MetadataStep::Fetch { request, scan } => (request, scan),
        MetadataStep::Done(_) => panic!("done"),
    };
    assert_eq!(request.url, "http://q:6333/collections/a");
    let (request, scan) = match scan.resume(DetailAnswer::SendFailed(no_text())) {
        MetadataStep::Fetch { request, scan } => (request, scan),
        MetadataStep::Done(_) => panic!("done"),
    };
    assert_eq!(request.url, "http://q:6333/collections/c");
    let json = match scan.resume(DetailAnswer::JsonFailed(no_text())) {
        MetadataStep::Fetch { .. } => panic!("not done"),
        MetadataStep::Done(json) => json,
    };
    let objects = [
        described("b/1", r#"{"d":1}"#),
        described("a", "null"),
        described("c", "null"),
    ]
    .join(",");
    assert_eq!(
        plain(&json),
        value(&format!(r#"{{"schemas":[{{"name":"default","objects":[{objects}]}}]}}"#))
    );
}

#[test]
fn a_server_without_collections_is_described_at_once() {
    let connection = open(None, None);
    for body in ["{}", "no json", r#"{"result":{"collections":3}}"#] {
        match load_metadata(&connection, ok(body)) {
            Ok(MetadataStep::Done(json)) => assert_eq!(
                plain(&json),
                value(r#"{"schemas":[{"name":"default","objects":[]}]}"#)
            ),
            _ => panic!("{body}"),
        }
    }
    assert!(matches!(
        scan_collections(&connection, &Json::Null),
        MetadataStep::Done(_)
    ));
}

fn metadata_error(answer: Answer) -> String {
    match load_metadata(&open(None, None), answer) {
        Ok(_) => panic!("accepted"),
        Err(message) => message,
    }
}

#[test]
fn a_list_that_cannot_be_had_says_why() {
    assert_eq!(
        metadata_error(Answer::SendFailed(no_text())),
        "Qdrant collections request failed: lost"
    );
    assert_eq!(
        metadata_error(Answer::ReadFailed(no_text())),
        "Qdrant collections response read failed: lost"
    );
    assert_eq!(
        metadata_error(received(reqwest::StatusCode::FORBIDDEN, "no")),
        "Qdrant collections returned HTTP 403 Forbidden: no"
    );
}

fn detail_error(answer: DetailAnswer) -> String {
    match load_collection_detail(answer) {
        Ok(_) => panic!("accepted"),
        Err(message) => message,
    }
}

#[test]
fn details_that_cannot_be_had_say_why() {
    assert_eq!(
        detail_error(DetailAnswer::SendFailed(no_text())),
        "Qdrant collection detail request failed: lost"
    );
    assert_eq!(
        detail_error(DetailAnswer::JsonFailed(no_text())),
        "Qdrant collection detail JSON failed: lost"
    );
    assert!(matches!(
        load_collection_detail(DetailAnswer::Received(Json::Null)),
        Ok(Json::Null)
    ));
}

#[test]
fn a_copied_connection_talks_the_same_way() {
    let connection = open(Some("k"), None);
    let copy = connection.clone();
    assert_eq!(copy.config, connection.config);
}

#[test]
fn two_collections_never_share_an_address() {
    let connection = open(None, None);
    let address = |name: &str| {
        let query = QdrantQuery { collection: name.to_string(), body: Json::Null };
        connection.scroll_request(query).url
    };
    assert_ne!(address("a"), address("b"));
    assert_ne!(address("a/points/scroll"), address("a"));
    assert_ne!(address("a/b"), address("a%2Fb"));
}

#[test]
fn no_reply_about_a_failure_shows_a_secret() {
    let config = open(None, None).config;
    let reason = "s3cret at http://q:6333/s3cret".to_string();
    for (code, message) in [
        failed(query_reply("a", &config, Err(reason.clone()))),
        failed(metadata_reply("a", &config, Err(reason.clone()))),
        failed(connect(&host(), "a", open(None, None), Err(reason.clone()), None)),
        refused(open_connection(config.clone(), Err(reason.clone()))),
    ] {
        assert!(!message.contains("s3cret"), "{code}: {message}");
        assert!(!message.contains("http://q:6333"), "{code}: {message}");
    }
}

#[test]
fn a_collection_listed_twice_keeps_both_answers() {
    let list = parse_or_null(r#"{"result":{"collections":[{"name":"a"},{"name":"a"}]}}"#);
    let mut step = scan_collections(&open(None, None), &list);
    for detail in ["1", "2"] {
        step = match step {
            MetadataStep::Fetch { request, scan } => {
                assert_eq!(request.url, "http://q:6333/collections/a");
                scan.resume(DetailAnswer::Received(parse_or_null(detail)))
            }
            MetadataStep::Done(_) => panic!("done"),
        };
    }
    let json = match step {
        MetadataStep::Fetch { .. } => panic!("not done"),
        MetadataStep::Done(json) => plain(&json),
    };
    assert_eq!(json["schemas"][0]["objects"][0]["details"], 1);
    assert_eq!(json["schemas"][0]["objects"][1]["details"], 2);
}

#[test]
fn the_query_fields_have_their_names() {
    assert_eq!(QueryField::Query.name(), "query");
    assert_eq!(QueryField::Sql.name(), "sql");
    assert_eq!(QueryField::Statement.name(), "statement");
    assert_eq!(QueryField::Collection.name(), "collection");
}
