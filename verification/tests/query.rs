use irodori_qdrant::json::{parse, parse_or_null, Json};
use irodori_qdrant::query::{scroll_body_from_query, QdrantQuery};

fn plain(json: &Json) -> serde_json::Value {
    match json {
        Json::Null => serde_json::Value::Null,
        Json::Bool(flag) => serde_json::Value::Bool(*flag),
        Json::Number(number) => serde_json::Value::Number(number.clone()),
        Json::Text(text) => serde_json::Value::String(text.clone()),
        Json::Array(items) => serde_json::Value::Array(items.iter().map(plain).collect()),
        Json::Object(members) => serde_json::Value::Object(
            members
                .entries
                .iter()
                .map(|(key, value)| (key.clone(), plain(value)))
                .collect(),
        ),
    }
}

fn value(text: &str) -> serde_json::Value {
    serde_json::from_str(text).unwrap()
}

fn planned(input: &str, collection: Option<&str>, cap: usize) -> QdrantQuery {
    QdrantQuery::from_input(input, collection.map(|name| name.to_string()), cap).unwrap()
}

fn refused(input: &str) -> String {
    match QdrantQuery::from_input(input, None, 1) {
        Ok(_) => panic!("{input} was accepted"),
        Err(message) => message,
    }
}

#[test]
fn parses_json_query_input() {
    let query = QdrantQuery::from_input(
        r#"{"collection":"docs","filter":{"must":[]}}"#,
        None,
        20,
    )
    .unwrap();
    assert_eq!(query.collection, "docs");
    assert_eq!(plain(query.body.get("limit").unwrap()), 20);
    assert!(query.body.get("filter").is_some());
}

#[test]
fn a_plain_input_names_the_collection() {
    let query = planned("  my docs \n", Some("other"), 7);
    assert_eq!(query.collection, "my docs");
    assert_eq!(
        plain(&query.body),
        value(r#"{"limit":7,"with_payload":true,"with_vector":false}"#)
    );
}

#[test]
fn a_blank_input_falls_back_to_the_profile() {
    let query = planned("   ", Some("docs"), 5);
    assert_eq!(query.collection, "docs");
    assert_eq!(
        plain(&query.body),
        value(r#"{"limit":5,"with_payload":true,"with_vector":false}"#)
    );
    assert_eq!(refused("  "), "Qdrant query needs a collection name.");
}

#[test]
fn the_name_in_a_json_query_wins_over_the_profile() {
    assert_eq!(planned(r#"{"collectionName":"a"}"#, Some("b"), 1).collection, "a");
    assert_eq!(planned(r#"{"collection":"a","collectionName":"c"}"#, None, 1).collection, "a");
    assert_eq!(planned(r#"{}"#, Some("b"), 1).collection, "b");
    assert_eq!(refused("{}"), "Qdrant query needs a collection name.");
}

#[test]
fn a_name_that_is_no_text_is_passed_over() {
    let query = planned(r#"{"collection":1,"collectionName":"c"}"#, Some("b"), 1);
    assert_eq!(query.collection, "b");
    assert_eq!(
        refused(r#"{"collection":null,"collectionName":"c"}"#),
        "Qdrant query needs a collection name."
    );
}

#[test]
fn an_explicit_body_is_posted_as_it_is() {
    let query = planned(r#"{"collection":"a","body":{"limit":3,"x":[1,-2,2.5]},"filter":1}"#, None, 9);
    assert_eq!(plain(&query.body), value(r#"{"limit":3,"x":[1,-2,2.5]}"#));
    let query = planned(r#"{"collection":"a","body":null}"#, None, 9);
    assert_eq!(plain(&query.body), serde_json::Value::Null);
}

#[test]
fn a_query_overrides_the_defaults() {
    let query = parse_or_null(
        r#"{"filter":{"must":[]},"offset":"p","withVector":true,"with_payload":["a"],"withPayload":false,"limit":99,"other":1}"#,
    );
    assert_eq!(
        plain(&scroll_body_from_query(&query, 10)),
        value(r#"{"limit":10,"filter":{"must":[]},"offset":"p","with_vector":true,"with_payload":["a"]}"#)
    );
    let query = parse_or_null(r#"{"with_vector":["v"],"withVector":true}"#);
    assert_eq!(
        plain(&scroll_body_from_query(&query, 18446744073709551615)),
        value(r#"{"limit":18446744073709551615,"with_payload":true,"with_vector":["v"]}"#)
    );
}

#[test]
fn a_query_that_is_no_json_is_refused_with_the_reason() {
    assert_eq!(
        refused("{\"collection\": }"),
        "invalid Qdrant query JSON: expected value at line 1 column 16"
    );
    assert_eq!(
        refused(" {"),
        "invalid Qdrant query JSON: EOF while parsing an object at line 1 column 1"
    );
}

#[test]
fn reads_what_a_json_text_holds() {
    let text = r#"{"a":[null,true,false,0,-1,1.5,1e300,"tü",{"b":{}}],"a2":"\n","a":[]}"#;
    assert_eq!(plain(&parse_or_null(text)), value(text));
    let json = Json::from_value(value(r#"[{"k":[18446744073709551615]}]"#));
    assert_eq!(plain(&json), value(r#"[{"k":[18446744073709551615]}]"#));
    assert_eq!(plain(&json.clone()), plain(&json));
    assert!(parse_or_null("nope").is_null());
    assert!(parse("nope").is_err());
    assert_eq!(plain(&Json::unsigned(42)), 42);
    assert_eq!(plain(&Json::text("x")), "x");
}

#[test]
fn the_last_entry_of_a_key_counts() {
    let mut object = irodori_qdrant::json::JsonObject::new();
    object.insert("k", Json::Bool(false));
    object.insert("l", Json::Null);
    object.insert("k", Json::Bool(true));
    assert!(matches!(object.get("k"), Some(Json::Bool(true))));
    assert!(object.get("m").is_none());
    assert_eq!(plain(&Json::Object(object)), value(r#"{"k":true,"l":null}"#));
    assert!(Json::Null.get("k").is_none());
    assert!(Json::Null.as_str().is_none());
    assert!(Json::Null.as_array().is_none());
}
