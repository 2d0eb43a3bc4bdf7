//! What to ask a server for: a collection, and the body of the scroll request.

use vstd::prelude::*;

use crate::json;
use crate::json::{Json, JsonObject, JsonView};
use crate::text;

verus! {

/// A scroll request: the collection and the JSON body to post.
pub struct QdrantQuery {
    pub collection: String,
    pub body: Json,
}

/// The content of a [`QdrantQuery`].
#[verifier::ext_equal]
pub struct QueryView {
    pub collection: Seq<char>,
    pub body: JsonView,
}

/// The body that asks for `cap` points with their payload and without vectors.
pub open spec fn default_body(cap: usize) -> Map<Seq<char>, JsonView> {
    Map::<Seq<char>, JsonView>::empty().insert(
        "limit"@,
        JsonView::Unsigned(cap as u64),
    ).insert("with_payload"@, JsonView::Bool(true)).insert(
        "with_vector"@,
        JsonView::Bool(false),
    )
}

/// The members of `body`, with the one under `key` set where `value` is given.
pub open spec fn overridden(
    body: Map<Seq<char>, JsonView>,
    key: Seq<char>,
    value: Option<JsonView>,
) -> Map<Seq<char>, JsonView> {
    match value {
        Some(value) => body.insert(key, value),
        None => body,
    }
}

/// The first of two members that is there.
pub open spec fn either(
    value: JsonView,
    first: Seq<char>,
    second: Seq<char>,
) -> Option<JsonView> {
    match value.get(first) {
        Some(found) => Some(found),
        None => value.get(second),
    }
}

/// The body that a JSON query asks for: the default one, with the query's own
/// filter, offset, `with_vector` and `with_payload` where it has them.
pub open spec fn scroll_body(value: JsonView, cap: usize) -> Map<
    Seq<char>,
    JsonView,
> {
    let with_filter = overridden(default_body(cap), "filter"@, value.get("filter"@));
    let with_offset = overridden(with_filter, "offset"@, value.get("offset"@));
    let with_vector = overridden(
        with_offset,
        "with_vector"@,
        either(value, "with_vector"@, "withVector"@),
    );
    overridden(with_vector, "with_payload"@, either(value, "with_payload"@, "withPayload"@))
}

/// The collection that a JSON query names as a text, if it names one.
pub open spec fn named_collection(value: JsonView) -> Option<Seq<char>> {
    match either(value, "collection"@, "collectionName"@) {
        Some(name) => name.as_text(),
        None => None,
    }
}

/// The query that a parsed JSON input and the profile's collection stand for.
pub open spec fn query_of(
    value: JsonView,
    collection: Option<Seq<char>>,
    cap: usize,
) -> Result<QueryView, Seq<char>> {
    let chosen = match named_collection(value) {
        Some(name) => Some(name),
        None => collection,
    };
    match chosen {
        Some(collection) => Ok(
            QueryView {
                collection,
                body: match value.get("body"@) {
                    Some(body) => body,
                    None => JsonView::Object(scroll_body(value, cap)),
                },
            },
        ),
        None => Err("Qdrant query needs a collection name."@),
    }
}

/// The query that an input stands for. One that starts with a brace is a JSON
/// query; any other is the name of a collection, where it is not blank.
pub open spec fn planned(input: Seq<char>, collection: Option<Seq<char>>, cap: usize) -> Result<
    QueryView,
    Seq<char>,
> {
    let input = text::trimmed(input);
    if input.len() > 0 && input[0] == '{' {
        match json::parsed(input) {
            Ok(value) => query_of(value, collection, cap),
            Err(message) => Err("invalid Qdrant query JSON: "@ + message),
        }
    } else if input.len() > 0 {
        Ok(
            QueryView {
                collection: input,
                body: JsonView::Object(default_body(cap)),
            },
        )
    } else {
        match collection {
            Some(collection) => Ok(
                QueryView {
                    collection,
                    body: JsonView::Object(default_body(cap)),
                },
            ),
            None => Err("Qdrant query needs a collection name."@),
        }
    }
}

/// The first of two members that is there.
fn member<'a>(value: &'a Json, first: &str, second: &str) -> (found: Option<&'a Json>)
    ensures
        match found {
            Some(found) => either(value@, first@, second@) == Some(found@),
            None => either(value@, first@, second@) is None,
        },
{
    match value.get(first) {
        Some(found) => Some(found),
        None => value.get(second),
    }
}

fn plain_body(cap: usize) -> (body: JsonObject)
    ensures
        body@ == default_body(cap),
{
    let mut body = JsonObject::new();
    body.insert("limit", Json::unsigned(cap as u64));
    body.insert("with_payload", Json::Bool(true));
    body.insert("with_vector", Json::Bool(false));
    body
}

/// The body that a JSON query asks for.
pub fn scroll_body_from_query(value: &Json, cap: usize) -> (body: Json)
    ensures
        body@ == JsonView::Object(scroll_body(value@, cap)),
{
    let mut body = plain_body(cap);
    if let Some(filter) = value.get("filter") {
        body.insert("filter", filter.clone());
    }
    if let Some(offset) = value.get("offset") {
        body.insert("offset", offset.clone());
    }
    if let Some(with_vector) = member(value, "with_vector", "withVector") {
        body.insert("with_vector", with_vector.clone());
    }
    if let Some(with_payload) = member(value, "with_payload", "withPayload") {
        body.insert("with_payload", with_payload.clone());
    }
    Json::Object(body)
}

impl QdrantQuery {
    /// The content of this query.
    pub open spec fn view(&self) -> QueryView {
        QueryView { collection: self.collection@, body: self.body@ }
    }

    /// The query that a parsed JSON input stands for, with the collection that
    /// the profile names.
    pub fn from_json(value: &Json, collection: Option<String>, cap: usize) -> (result: Result<
        QdrantQuery,
        String,
    >)
        ensures
            match result {
                Ok(query) => query_of(value@, text::optional(collection), cap) == Ok::<
                    QueryView,
                    Seq<char>,
                >(query@),
                Err(message) => query_of(value@, text::optional(collection), cap) == Err::<
                    QueryView,
                    Seq<char>,
                >(message@),
            },
    {
        let named: Option<&str> = match member(value, "collection", "collectionName") {
            Some(name) => name.as_str(),
            None => None,
        };
        let chosen: Option<String> = match named {
            Some(name) => Some(name.to_owned()),
            None => collection,
        };
        let body: Json = match value.get("body") {
            Some(body) => body.clone(),
            None => scroll_body_from_query(value, cap),
        };
        match chosen {
            Some(collection) => Ok(QdrantQuery { collection, body }),
            None => Err("Qdrant query needs a collection name.".to_owned()),
        }
    }

    /// The query that `input` stands for, with the collection that the profile
    /// names and at most `cap` points.
    pub fn from_input(input: &str, collection: Option<String>, cap: usize) -> (result: Result<
        QdrantQuery,
        String,
    >)
        ensures
            match result {
                Ok(query) => planned(input@, text::optional(collection), cap) == Ok::<
                    QueryView,
                    Seq<char>,
                >(query@),
                Err(message) => planned(input@, text::optional(collection), cap) == Err::<
                    QueryView,
                    Seq<char>,
                >(message@),
            },
    {
        let input = text::trim(input);
        if input.is_empty() {
            match collection {
                Some(collection) => Ok(
                    QdrantQuery { collection, body: Json::Object(plain_body(cap)) },
                ),
                None => Err("Qdrant query needs a collection name.".to_owned()),
            }
        } else if input.get_char(0) == '{' {
            match json::parse(input) {
                Ok(value) => QdrantQuery::from_json(&value, collection, cap),
                Err(reason) => {
                    let mut message = "invalid Qdrant query JSON: ".to_owned();
                    message.append(reason.as_str());
                    Err(message)
                },
            }
        } else {
            Ok(
                QdrantQuery {
                    collection: input.to_owned(),
                    body: Json::Object(plain_body(cap)),
                },
            )
        }
    }
}

/// Whatever a JSON query says, its body asks for at most `cap` points, asks for
/// payloads and no vectors unless the query says otherwise, and has no member
/// besides the limit, the filter, the offset and these two.
pub proof fn scroll_body_is_bounded(value: JsonView, cap: usize)
    ensures
        scroll_body(value, cap).contains_key("limit"@),
        scroll_body(value, cap)["limit"@] == JsonView::Unsigned(cap as u64),
        scroll_body(value, cap).contains_key("with_payload"@),
        scroll_body(value, cap)["with_payload"@] == (match either(
            value,
            "with_payload"@,
            "withPayload"@,
        ) {
            Some(asked) => asked,
            None => JsonView::Bool(true),
        }),
        scroll_body(value, cap).contains_key("with_vector"@),
        scroll_body(value, cap)["with_vector"@] == (match either(
            value,
            "with_vector"@,
            "withVector"@,
        ) {
            Some(asked) => asked,
            None => JsonView::Bool(false),
        }),
        JsonView::Object(scroll_body(value, cap)).get("filter"@) == value.get("filter"@),
        JsonView::Object(scroll_body(value, cap)).get("offset"@) == value.get("offset"@),
        forall|key: Seq<char>| #[trigger]
            scroll_body(value, cap).contains_key(key) ==> key == "limit"@ || key
                == "with_payload"@ || key == "with_vector"@ || key == "filter"@ || key
                == "offset"@,
{
    reveal_strlit("limit");
    reveal_strlit("filter");
    reveal_strlit("offset");
    reveal_strlit("with_vector");
    reveal_strlit("with_payload");
    assert("limit"@.len() == 5 && "with_vector"@.len() == 11 && "with_payload"@.len() == 12);
    assert("filter"@[0] == 'f' && "offset"@[0] == 'o');
    assert("filter"@.len() == 6 && "offset"@.len() == 6);
}

/// A body that a JSON query brings along is posted as it is.
pub proof fn explicit_body_is_kept(
    value: JsonView,
    body: JsonView,
    collection: Option<Seq<char>>,
    cap: usize,
)
    requires
        value.get("body"@) == Some(body),
    ensures
        query_of(value, collection, cap) matches Ok(query) ==> query.body == body,
{
}

/// A JSON query fails only for want of a collection: one that it names itself
/// wins over the profile's, and the profile's stands in where it names none.
pub proof fn own_collection_wins(value: JsonView, collection: Option<Seq<char>>, cap: usize)
    ensures
        named_collection(value) matches Some(name) ==> query_of(value, collection, cap) is Ok
            && query_of(value, collection, cap)->Ok_0.collection == name,
        named_collection(value) is None ==> (match collection {
            Some(name) => query_of(value, collection, cap) is Ok && query_of(
                value,
                collection,
                cap,
            )->Ok_0.collection == name,
            None => query_of(value, collection, cap) is Err,
        }),
{
}

/// The white space around an input makes no difference.
pub proof fn surrounding_space_is_ignored(
    input: Seq<char>,
    collection: Option<Seq<char>>,
    cap: usize,
)
    ensures
        planned(input, collection, cap) == planned(text::trimmed(input), collection, cap),
{
    text::trimming_is_final(input);
}

proof fn lemma_body_keys()
    ensures
        "limit"@ != "filter"@,
        "limit"@ != "offset"@,
        "limit"@ != "with_vector"@,
        "limit"@ != "with_payload"@,
        "filter"@ != "offset"@,
        "filter"@ != "with_vector"@,
        "filter"@ != "with_payload"@,
        "offset"@ != "with_vector"@,
        "offset"@ != "with_payload"@,
        "with_vector"@ != "with_payload"@,
{
    reveal_strlit("limit");
    reveal_strlit("filter");
    reveal_strlit("offset");
    reveal_strlit("with_vector");
    reveal_strlit("with_payload");
    assert("limit"@.len() == 5 && "with_vector"@.len() == 11 && "with_payload"@.len() == 12);
    assert("filter"@[0] == 'f' && "offset"@[0] == 'o');
    assert("filter"@.len() == 6 && "offset"@.len() == 6);
}

/// Whether two values hold the same under `key`, or both nothing.
pub open spec fn agree_on(left: JsonView, right: JsonView, key: Seq<char>) -> bool {
    &&& left.lacks(key) <==> right.lacks(key)
    &&& forall|member: JsonView| #[trigger] left.holds(key, member) ==> right.holds(key, member)
}

/// Whether `body` holds under `key` what the query holds under `key`, else what it
/// holds under `other`, else `usual`.
pub open spec fn asks_as_told(
    body: JsonView,
    query: JsonView,
    key: Seq<char>,
    other: Seq<char>,
    usual: bool,
) -> bool {
    &&& forall|told: JsonView| #[trigger] query.holds(key, told) ==> body.holds(key, told)
    &&& query.lacks(key) ==> forall|told: JsonView| #[trigger]
        query.holds(other, told) ==> body.holds(key, told)
    &&& query.lacks(key) && query.lacks(other) ==> body.holds(key, JsonView::Bool(usual))
}

/// Whether `body` is an object with no member but the five that a scroll request
/// may have.
pub open spec fn is_scroll_body(body: JsonView) -> bool {
    body matches JsonView::Object(members) && forall|key: Seq<char>| #[trigger]
        members.contains_key(key) ==> key == "limit"@ || key == "with_payload"@ || key
            == "with_vector"@ || key == "filter"@ || key == "offset"@
}

/// Whether `body` asks for at most `cap` points, with their payload and without
/// vectors, and for nothing else.
pub open spec fn asks_plainly(body: JsonView, cap: usize) -> bool {
    &&& is_scroll_body(body)
    &&& body.holds("limit"@, JsonView::Unsigned(cap as u64))
    &&& body.holds("with_payload"@, JsonView::Bool(true))
    &&& body.holds("with_vector"@, JsonView::Bool(false))
    &&& body.lacks("filter"@)
    &&& body.lacks("offset"@)
}

/// Whether `body` asks for at most `cap` points as `query` tells: with its filter
/// and its offset where it has them, and with vectors and payloads as it says.
pub open spec fn asks_for(body: JsonView, query: JsonView, cap: usize) -> bool {
    &&& is_scroll_body(body)
    &&& body.holds("limit"@, JsonView::Unsigned(cap as u64))
    &&& agree_on(query, body, "filter"@)
    &&& agree_on(query, body, "offset"@)
    &&& asks_as_told(body, query, "with_vector"@, "withVector"@, false)
    &&& asks_as_told(body, query, "with_payload"@, "withPayload"@, true)
}

/// The body made for a JSON query asks for what the query tells, each member by
/// itself and whatever the others are.
pub proof fn scroll_body_asks_as_told(value: &Json, cap: usize, body: Json)
    requires
        call_ensures(scroll_body_from_query, (value, cap), body),
    ensures
        asks_for(body@, value@, cap),
{
    lemma_body_keys();
    let filter = "filter"@;
    let offset = "offset"@;
    assert(agree_on(value@, body@, filter));
    assert(agree_on(value@, body@, offset));
}

/// A JSON query without a body of its own is sent with one that asks for what the
/// query tells: its filter and its offset are taken over whether or not the other
/// is there, and so is what it says about vectors and payloads.
pub proof fn query_without_body_asks_as_told(
    value: &Json,
    collection: Option<String>,
    cap: usize,
    result: Result<QdrantQuery, String>,
)
    requires
        call_ensures(QdrantQuery::from_json, (value, collection, cap), result),
        value@.lacks("body"@),
    ensures
        result matches Ok(query) ==> asks_for(query.body@, value@, cap),
{
    lemma_body_keys();
    if let Ok(query) = result {
        assert(agree_on(value@, query.body@, "filter"@));
        assert(agree_on(value@, query.body@, "offset"@));
    }
}

/// A JSON query with a body of its own is sent with that body, whatever else it
/// holds.
pub proof fn query_with_body_sends_it(
    value: &Json,
    collection: Option<String>,
    cap: usize,
    result: Result<QdrantQuery, String>,
    body: JsonView,
)
    requires
        call_ensures(QdrantQuery::from_json, (value, collection, cap), result),
        value@.holds("body"@, body),
    ensures
        result matches Ok(query) ==> query.body@ == body,
{
}

/// Whether a result is for the collection of the profile, and a refusal where the
/// profile names none.
pub open spec fn falls_back(result: Result<QdrantQuery, String>, collection: Option<String>) -> bool {
    match collection {
        Some(name) => result matches Ok(query) && query.collection@ == name@,
        None => result matches Err(message) && message@
            == "Qdrant query needs a collection name."@,
    }
}

/// A JSON query is for the collection that it holds as a text under `collection`,
/// or under `collectionName` where there is nothing under `collection`; in every
/// other case it is for the profile's, and refused only where there is none.
pub proof fn query_names_its_collection(
    value: &Json,
    collection: Option<String>,
    cap: usize,
    result: Result<QdrantQuery, String>,
)
    requires
        call_ensures(QdrantQuery::from_json, (value, collection, cap), result),
    ensures
        forall|name: Seq<char>| #[trigger]
            value@.holds("collection"@, JsonView::Text(name)) ==> (result matches Ok(query)
                && query.collection@ == name),
        value@.lacks("collection"@) ==> forall|name: Seq<char>| #[trigger]
            value@.holds("collectionName"@, JsonView::Text(name)) ==> (result matches Ok(query)
                && query.collection@ == name),
        forall|other: JsonView| #[trigger]
            value@.holds("collection"@, other) && !(other is Text) ==> falls_back(
                result,
                collection,
            ),
        value@.lacks("collection"@) ==> forall|other: JsonView| #[trigger]
            value@.holds("collectionName"@, other) && !(other is Text) ==> falls_back(
                result,
                collection,
            ),
        value@.lacks("collection"@) && value@.lacks("collectionName"@) ==> falls_back(
            result,
            collection,
        ),
{
}

/// An input, without the white space around it, is a JSON query if it starts with
/// a brace, and is planned as its document is; any other that is not blank is the
/// name of a collection, taken as it stands; and a blank one is for the profile's
/// collection.
pub proof fn input_is_planned_by_its_core(
    input: &str,
    collection: Option<String>,
    cap: usize,
    result: Result<QdrantQuery, String>,
    before: Seq<char>,
    core: Seq<char>,
    after: Seq<char>,
    value: &Json,
    document_result: Result<QdrantQuery, String>,
)
    requires
        call_ensures(QdrantQuery::from_input, (input, collection, cap), result),
        call_ensures(QdrantQuery::from_json, (value, collection, cap), document_result),
        input@ == before + core + after,
        text::blank(before),
        text::blank(after),
        core.len() > 0 ==> !text::is_white_space(core[0]) && !text::is_white_space(core.last()),
    ensures
        core.len() == 0 ==> falls_back(result, collection) && (result matches Ok(query)
            ==> asks_plainly(query.body@, cap)),
        core.len() > 0 && core[0] != '{' ==> (result matches Ok(query) && query.collection@ == core
            && asks_plainly(query.body@, cap)),
        core.len() > 0 && core[0] == '{' ==> (match json::parsed(core) {
            Err(reason) => result matches Err(message) && message@
                == "invalid Qdrant query JSON: "@ + reason,
            Ok(document) => document == value@ ==> (match (result, document_result) {
                (Ok(query), Ok(expected)) => query.collection@ == expected.collection@
                    && query.body@ == expected.body@,
                (Err(message), Err(expected)) => message@ == expected@,
                _ => false,
            }),
        }),
{
    text::trimming_leaves_the_core(before, core, after);
    lemma_body_keys();
}

/// A JSON input without a body of its own, in whatever white space, is sent with
/// a body that asks for what the input tells, for the collection it names.
pub proof fn json_input_asks_as_told(
    input: &str,
    collection: Option<String>,
    cap: usize,
    result: Result<QdrantQuery, String>,
    before: Seq<char>,
    core: Seq<char>,
    after: Seq<char>,
    document: JsonView,
)
    requires
        call_ensures(QdrantQuery::from_input, (input, collection, cap), result),
        input@ == before + core + after,
        text::blank(before),
        text::blank(after),
        core.len() > 0,
        core[0] == '{',
        !text::is_white_space(core.last()),
        json::parsed(core) == Ok::<JsonView, Seq<char>>(document),
    ensures
        document.lacks("body"@) ==> (result matches Ok(query) ==> asks_for(
            query.body@,
            document,
            cap,
        )),
        forall|body: JsonView| #[trigger]
            document.holds("body"@, body) ==> (result matches Ok(query) ==> query.body@ == body),
        forall|name: Seq<char>| #[trigger]
            document.holds("collection"@, JsonView::Text(name)) ==> (result matches Ok(query)
                && query.collection@ == name),
        document.lacks("collection"@) && document.lacks("collectionName"@) ==> falls_back(
            result,
            collection,
        ),
{
    text::trimming_leaves_the_core(before, core, after);
    lemma_body_keys();
    if let Ok(query) = result {
        if document.lacks("body"@) {
            assert(agree_on(document, query.body@, "filter"@));
            assert(agree_on(document, query.body@, "offset"@));
        }
    }
}

}
