//! The collections of a server, described as tables.
//!
//! The list of collections comes first; then each collection's details are
//! fetched, one request after the other. The library does not send them: it says
//! which request is next ([`MetadataStep::Fetch`]), and is resumed with the
//! answer.

use vstd::prelude::*;

use crate::answer;
use crate::answer::Answer;
use crate::config;
use crate::config::ConfigView;
use crate::connection::{HttpRequest, QdrantConnection, RequestView};
use crate::json;
use crate::json::{Json, JsonObject, JsonView};
use crate::percent;

verus! {

/// How a request for a collection's details ended.
pub enum DetailAnswer {
    /// It could not be sent, or was not answered.
    SendFailed(String),
    /// It was answered, and the answer is no JSON or could not be read.
    JsonFailed(String),
    Received(Json),
}

/// The content of a [`DetailAnswer`].
pub enum DetailView {
    SendFailed(Seq<char>),
    JsonFailed(Seq<char>),
    Received(JsonView),
}

impl DetailAnswer {
    /// The content of this answer.
    pub open spec fn view(&self) -> DetailView {
        match self {
            DetailAnswer::SendFailed(reason) => DetailView::SendFailed(reason@),
            DetailAnswer::JsonFailed(reason) => DetailView::JsonFailed(reason@),
            DetailAnswer::Received(detail) => DetailView::Received(detail@),
        }
    }
}

impl DetailView {
    /// The details that go into the description: `null` where there are none.
    pub open spec fn or_null(self) -> JsonView {
        match self {
            DetailView::Received(detail) => detail,
            _ => JsonView::Null,
        }
    }
}

/// The details of a collection, out of the server's answer.
pub fn load_collection_detail(answer: DetailAnswer) -> (result: Result<Json, String>)
    ensures
        match answer@ {
            DetailView::SendFailed(reason) => result matches Err(message) && message@
                == "Qdrant collection detail request failed: "@ + reason,
            DetailView::JsonFailed(reason) => result matches Err(message) && message@
                == "Qdrant collection detail JSON failed: "@ + reason,
            DetailView::Received(detail) => result matches Ok(found) && found@ == detail,
        },
{
    match answer {
        DetailAnswer::SendFailed(reason) => Err(
            answer::prefixed("Qdrant collection detail request failed: ", reason.as_str()),
        ),
        DetailAnswer::JsonFailed(reason) => Err(
            answer::prefixed("Qdrant collection detail JSON failed: ", reason.as_str()),
        ),
        DetailAnswer::Received(detail) => Ok(detail),
    }
}

/// The name of a listed collection, if it has one.
pub open spec fn name_of(collection: JsonView) -> Option<Seq<char>> {
    answer::member_or_null(collection, "name"@).as_text()
}

/// The names in a list of collections, in their order; a collection without a
/// name is passed over.
pub open spec fn names_of(collections: Seq<JsonView>) -> Seq<Seq<char>>
    decreases collections.len(),
{
    if collections.len() == 0 {
        Seq::empty()
    } else {
        let front = names_of(collections.drop_last());
        match name_of(collections.last()) {
            Some(name) => front.push(name),
            None => front,
        }
    }
}

/// The names of the collections that an answer lists.
pub open spec fn collection_names(value: JsonView) -> Seq<Seq<char>> {
    names_of(answer::result_items(value, "collections"@))
}

/// The description of a column.
pub open spec fn column_view(
    name: Seq<char>,
    data_type: Seq<char>,
    nullable: bool,
    ordinal: u64,
) -> JsonView {
    JsonView::Object(
        Map::<Seq<char>, JsonView>::empty().insert("name"@, JsonView::Text(name)).insert(
            "dataType"@,
            JsonView::Text(data_type),
        ).insert("nullable"@, JsonView::Bool(nullable)).insert(
            "ordinal"@,
            JsonView::Unsigned(ordinal),
        ),
    )
}

/// The columns of every collection: the point's id, its payload and its vector.
pub open spec fn columns_view() -> JsonView {
    JsonView::Array(
        seq![
            column_view("id"@, "point_id"@, false, 1),
            column_view("payload"@, "json"@, true, 2),
            column_view("vector"@, "vector"@, true, 3),
        ],
    )
}

/// The primary key of every collection: the point's id.
pub open spec fn primary_key_view() -> JsonView {
    JsonView::Array(
        seq![
            JsonView::Object(
                Map::<Seq<char>, JsonView>::empty().insert("name"@, JsonView::Text("id"@)).insert(
                    "keyType"@,
                    JsonView::Text("primary"@),
                ),
            ),
        ],
    )
}

/// The description of a collection.
pub open spec fn object_view(name: Seq<char>, detail: JsonView) -> JsonView {
    JsonView::Object(
        Map::<Seq<char>, JsonView>::empty().insert("schema"@, JsonView::Text("default"@)).insert(
            "name"@,
            JsonView::Text(name),
        ).insert("kind"@, JsonView::Text("collection"@)).insert("columns"@, columns_view()).insert(
            "indexes"@,
            JsonView::Array(Seq::empty()),
        ).insert("primaryKey"@, primary_key_view()).insert(
            "foreignKeys"@,
            JsonView::Array(Seq::empty()),
        ).insert("details"@, detail),
    )
}

/// The descriptions of collections, each with the details found for it.
pub open spec fn objects_view(names: Seq<Seq<char>>, details: Seq<JsonView>) -> Seq<JsonView> {
    Seq::new(details.len(), |i: int| object_view(names[i], details[i]))
}

/// The description of a server: one schema with an object for each collection.
pub open spec fn metadata_view(names: Seq<Seq<char>>, details: Seq<JsonView>) -> JsonView {
    JsonView::Object(
        Map::<Seq<char>, JsonView>::empty().insert(
            "schemas"@,
            JsonView::Array(
                seq![
                    JsonView::Object(
                        Map::<Seq<char>, JsonView>::empty().insert(
                            "name"@,
                            JsonView::Text("default"@),
                        ).insert("objects"@, JsonView::Array(objects_view(names, details))),
                    ),
                ],
            ),
        ),
    )
}

fn column(name: &str, data_type: &str, nullable: bool, ordinal: u64) -> (column: Json)
    ensures
        column@ == column_view(name@, data_type@, nullable, ordinal),
{
    let mut column = JsonObject::new();
    column.insert("name", Json::text(name));
    column.insert("dataType", Json::text(data_type));
    column.insert("nullable", Json::Bool(nullable));
    column.insert("ordinal", Json::unsigned(ordinal));
    Json::Object(column)
}

fn columns() -> (columns: Json)
    ensures
        columns@ == columns_view(),
{
    let mut columns: Vec<Json> = Vec::new();
    columns.push(column("id", "point_id", false, 1));
    columns.push(column("payload", "json", true, 2));
    columns.push(column("vector", "vector", true, 3));
    assert(json::items_view(columns@) =~= columns_view()->Array_0);
    Json::Array(columns)
}

fn primary_key() -> (key: Json)
    ensures
        key@ == primary_key_view(),
{
    let mut part = JsonObject::new();
    part.insert("name", Json::text("id"));
    part.insert("keyType", Json::text("primary"));
    let mut parts: Vec<Json> = Vec::new();
    parts.push(Json::Object(part));
    assert(json::items_view(parts@) =~= primary_key_view()->Array_0);
    Json::Array(parts)
}

fn empty_array() -> (array: Json)
    ensures
        array@ == JsonView::Array(Seq::empty()),
{
    let items: Vec<Json> = Vec::new();
    assert(json::items_view(items@) =~= Seq::empty());
    Json::Array(items)
}

fn object(name: &str, detail: Json) -> (object: Json)
    ensures
        object@ == object_view(name@, detail@),
{
    let mut object = JsonObject::new();
    object.insert("schema", Json::text("default"));
    object.insert("name", Json::text(name));
    object.insert("kind", Json::text("collection"));
    object.insert("columns", columns());
    object.insert("indexes", empty_array());
    object.insert("primaryKey", primary_key());
    object.insert("foreignKeys", empty_array());
    object.insert("details", detail);
    Json::Object(object)
}

/// A description in the making, waiting for the details of a collection.
pub struct MetadataScan {
    connection: QdrantConnection,
    names: Vec<String>,
    objects: Vec<Json>,
    details: Ghost<Seq<JsonView>>,
}

/// The content of a [`MetadataScan`]: whose collections are described, their
/// names, and the details found so far.
#[verifier::ext_equal]
pub struct ScanView {
    pub config: ConfigView,
    pub names: Seq<Seq<char>>,
    pub details: Seq<JsonView>,
}

/// What describing a server asks for next, or the description.
pub enum MetadataStep {
    /// `request` is to be sent, and `scan` resumed with the answer.
    Fetch { request: HttpRequest, scan: MetadataScan },
    Done(Json),
}

impl MetadataStep {
    /// Whether this is the step after the given details: the request for the
    /// next collection's details, or the description once there is none left.
    pub open spec fn follows(self, scan: ScanView) -> bool {
        match self {
            MetadataStep::Fetch { request, scan: found } => {
                &&& scan.details.len() < scan.names.len()
                &&& request@ == scan.config.detail_request(scan.names[scan.details.len() as int])
                &&& found@ == scan
            },
            MetadataStep::Done(metadata) => {
                &&& scan.details.len() >= scan.names.len()
                &&& metadata@ == metadata_view(scan.names, scan.details)
            },
        }
    }
}

impl MetadataScan {
    /// The content of this scan.
    pub closed spec fn view(&self) -> ScanView {
        ScanView {
            config: self.connection.config@,
            names: config::texts(self.names@),
            details: self.details@,
        }
    }

    #[verifier::type_invariant]
    spec fn inv(self) -> bool {
        &&& self.details@.len() < self.names@.len()
        &&& json::items_view(self.objects@) == objects_view(
            config::texts(self.names@),
            self.details@,
        )
    }

    /// Goes on with the answer about the awaited collection. Without usable
    /// details the collection is described all the same.
    pub fn resume(self, answer: DetailAnswer) -> (step: MetadataStep)
        ensures
            step.follows(
                ScanView { details: self@.details.push(answer@.or_null()), ..self@ },
            ),
    {
        proof {
            use_type_invariant(&self);
        }
        let MetadataScan { connection, names, objects, details } = self;
        let detail = match load_collection_detail(answer) {
            Ok(detail) => detail,
            Err(_) => Json::Null,
        };
        let mut objects = objects;
        assert(objects@.len() == json::items_view(objects@).len());
        let ghost found = details@.push(detail@);
        let ghost before = objects@;
        let next = object(names[objects.len()].as_str(), detail);
        objects.push(next);
        assert(json::items_view(objects@) =~= json::items_view(before).push(next@));
        assert(json::items_view(objects@) =~= objects_view(config::texts(names@), found));
        advance(connection, names, objects, Ghost(found))
    }
}

fn advance(
    connection: QdrantConnection,
    names: Vec<String>,
    objects: Vec<Json>,
    details: Ghost<Seq<JsonView>>,
) -> (step: MetadataStep)
    requires
        details@.len() <= names@.len(),
        json::items_view(objects@) == objects_view(config::texts(names@), details@),
    ensures
        step.follows(
            ScanView {
                config: connection.config@,
                names: config::texts(names@),
                details: details@,
            },
        ),
{
    assert(objects@.len() == json::items_view(objects@).len());
    if objects.len() < names.len() {
        let request = connection.detail_request(names[objects.len()].as_str());
        MetadataStep::Fetch {
            request,
            scan: MetadataScan { connection, names, objects, details },
        }
    } else {
        let mut schema = JsonObject::new();
        schema.insert("name", Json::text("default"));
        schema.insert("objects", Json::Array(objects));
        let mut schemas: Vec<Json> = Vec::new();
        schemas.push(Json::Object(schema));
        let ghost expected = metadata_view(config::texts(names@), details@);
        assert(json::items_view(schemas@) =~= expected->Object_0["schemas"@]->Array_0);
        let mut metadata = JsonObject::new();
        metadata.insert("schemas", Json::Array(schemas));
        MetadataStep::Done(Json::Object(metadata))
    }
}

/// Starts describing the collections that a parsed answer lists.
pub fn scan_collections(connection: &QdrantConnection, value: &Json) -> (step: MetadataStep)
    ensures
        step.follows(
            ScanView {
                config: connection.config@,
                names: collection_names(value@),
                details: Seq::empty(),
            },
        ),
{
    let mut names: Vec<String> = Vec::new();
    let ghost listed = answer::result_items(value@, "collections"@);
    if let Some(items) = answer::items_in(value, "collections") {
        let mut i: usize = 0;
        assert(listed.take(0) =~= Seq::empty());
        while i < items.len()
            invariant
                i <= items@.len(),
                listed == json::items_view(items@),
                config::texts(names@) == names_of(listed.take(i as int)),
            decreases items@.len() - i,
        {
            let ghost before = names@;
            assert(listed.take(i + 1).drop_last() =~= listed.take(i as int));
            assert(listed.take(i + 1).last() == items@[i as int]@);
            let name: Option<&str> = match items[i].get("name") {
                Some(name) => name.as_str(),
                None => None,
            };
            if let Some(name) = name {
                names.push(name.to_owned());
                assert(config::texts(names@) =~= config::texts(before).push(name@));
            }
            i += 1;
        }
        assert(listed.take(i as int) =~= listed);
    }
    assert(config::texts(names@) =~= collection_names(value@));
    let objects: Vec<Json> = Vec::new();
    assert(json::items_view(objects@) =~= objects_view(config::texts(names@), Seq::empty()));
    advance(connection.clone(), names, objects, Ghost(Seq::empty()))
}

/// Starts describing a server, out of its answer with the list of collections.
/// A list that is no JSON counts as empty.
pub fn load_metadata(connection: &QdrantConnection, answer: Answer) -> (result: Result<
    MetadataStep,
    String,
>)
    ensures
        match answer@.collections_body() {
            Err(reason) => result matches Err(message) && message@ == reason,
            Ok(body) => result matches Ok(step) && step.follows(
                ScanView {
                    config: connection.config@,
                    names: collection_names(json::parsed_or_null(body)),
                    details: Seq::empty(),
                },
            ),
        },
{
    match answer::body_or(
        answer,
        "Qdrant collections request failed: ",
        "Qdrant collections response read failed: ",
        "Qdrant collections returned HTTP ",
    ) {
        Ok(body) => Ok(scan_collections(connection, &json::parse_or_null(body.as_str()))),
        Err(message) => Err(message),
    }
}

/// The description that a scan ends with if each request is answered as
/// `answers` says, given its place among the requests and the request itself.
pub open spec fn description(
    scan: ScanView,
    answers: spec_fn(int, RequestView) -> DetailView,
) -> JsonView
    decreases scan.names.len() - scan.details.len(),
{
    if scan.details.len() < scan.names.len() {
        let place = scan.details.len() as int;
        let request = scan.config.detail_request(scan.names[place]);
        description(
            ScanView { details: scan.details.push(answers(place, request).or_null()), ..scan },
            answers,
        )
    } else {
        metadata_view(scan.names, scan.details)
    }
}

/// The details of the named collections, each out of the answer to its own
/// request, `null` where none came.
pub open spec fn answered_details(
    config: ConfigView,
    names: Seq<Seq<char>>,
    answers: spec_fn(int, RequestView) -> DetailView,
) -> Seq<JsonView> {
    Seq::new(names.len(), |i: int| answers(i, config.detail_request(names[i])).or_null())
}

proof fn lemma_description(scan: ScanView, answers: spec_fn(int, RequestView) -> DetailView)
    requires
        scan.details.len() <= scan.names.len(),
        scan.details == answered_details(scan.config, scan.names, answers).take(
            scan.details.len() as int,
        ),
    ensures
        description(scan, answers) == metadata_view(
            scan.names,
            answered_details(scan.config, scan.names, answers),
        ),
    decreases scan.names.len() - scan.details.len(),
{
    let details = answered_details(scan.config, scan.names, answers);
    if scan.details.len() < scan.names.len() {
        let place = scan.details.len() as int;
        assert(scan.details.push(details[place]) =~= details.take(place + 1));
        lemma_description(ScanView { details: details.take(place + 1), ..scan }, answers);
    } else {
        assert(scan.details =~= details);
    }
}

/// Whatever the answers are, a scan ends with a description of every named
/// collection, each with the details that came back for its own request, and
/// with `null` where none came. A collection that is listed twice is asked for
/// twice, and each entry keeps the answer it got.
pub proof fn scan_describes_each_by_its_answer(
    config: ConfigView,
    names: Seq<Seq<char>>,
    answers: spec_fn(int, RequestView) -> DetailView,
)
    ensures
        description(ScanView { config, names, details: Seq::empty() }, answers) == metadata_view(
            names,
            answered_details(config, names, answers),
        ),
        forall|i: int|
            0 <= i < names.len() ==> #[trigger] answered_details(config, names, answers)[i]
                == answers(i, config.detail_request(names[i])).or_null(),
{
    assert(answered_details(config, names, answers).take(0) =~= Seq::<JsonView>::empty());
    lemma_description(ScanView { config, names, details: Seq::empty() }, answers);
}

/// The description holds every named collection once, in the order of the list,
/// with the details found for it.
pub proof fn every_collection_is_described(names: Seq<Seq<char>>, details: Seq<JsonView>)
    requires
        names.len() == details.len(),
    ensures
        objects_view(names, details).len() == names.len(),
        forall|i: int|
            0 <= i < names.len() ==> (#[trigger] objects_view(names, details)[i]).get("name"@)
                == Some(JsonView::Text(names[i])),
        forall|i: int|
            0 <= i < names.len() ==> (#[trigger] objects_view(names, details)[i]).get("details"@)
                == Some(details[i]),
{
    reveal_strlit("name");
    reveal_strlit("kind");
    reveal_strlit("columns");
    reveal_strlit("indexes");
    reveal_strlit("primaryKey");
    reveal_strlit("foreignKeys");
    reveal_strlit("details");
    assert("name"@[0] == 'n' && "kind"@[0] == 'k');
    assert("name"@.len() == 4 && "kind"@.len() == 4);
}

/// Details that came are handed on as they are, whatever they hold, and those that
/// did not come are told with the reason.
pub proof fn detail_is_what_came(answer: DetailAnswer, result: Result<Json, String>)
    requires
        call_ensures(load_collection_detail, (answer,), result),
    ensures
        answer matches DetailAnswer::Received(detail) ==> (result matches Ok(found) && found@
            == detail@),
        answer matches DetailAnswer::SendFailed(reason) ==> (result matches Err(message) && message@
            == "Qdrant collection detail request failed: "@ + reason@),
        answer matches DetailAnswer::JsonFailed(reason) ==> (result matches Err(message) && message@
            == "Qdrant collection detail JSON failed: "@ + reason@),
{
}

/// The details that are shown for an answer: the received value itself, and `null`
/// only where none was received.
pub open spec fn shown_for(answer: DetailAnswer, detail: JsonView) -> bool {
    match answer {
        DetailAnswer::Received(received) => detail == received@,
        DetailAnswer::SendFailed(_) => detail == JsonView::Null,
        DetailAnswer::JsonFailed(_) => detail == JsonView::Null,
    }
}

/// Whether `metadata` describes one schema, named `default`, with an object for
/// each of the names, in their order, that describes the collection by its name
/// and details, and holds nothing else.
pub open spec fn describes(
    metadata: JsonView,
    names: Seq<Seq<char>>,
    details: Seq<JsonView>,
) -> bool {
    exists|schema: JsonView, objects: Seq<JsonView>|
        {
            &&& #[trigger] metadata.holds("schemas"@, JsonView::Array(seq![schema]))
            &&& schema.holds("name"@, JsonView::Text("default"@))
            &&& #[trigger] schema.holds("objects"@, JsonView::Array(objects))
            &&& metadata->Object_0.dom() =~= set!["schemas"@]
            &&& schema->Object_0.dom() =~= set!["name"@, "objects"@]
            &&& objects.len() == names.len()
            &&& forall|i: int|
                0 <= i < objects.len() ==> {
                    &&& (#[trigger] objects[i]).holds("name"@, JsonView::Text(names[i]))
                    &&& objects[i].holds("details"@, details[i])
                    &&& objects[i] == object_view(names[i], details[i])
                }
        }
}

proof fn lemma_object_keys()
    ensures
        "schema"@ != "name"@,
        "schema"@ != "kind"@,
        "schema"@ != "columns"@,
        "schema"@ != "indexes"@,
        "schema"@ != "primaryKey"@,
        "schema"@ != "foreignKeys"@,
        "schema"@ != "details"@,
        "name"@ != "kind"@,
        "name"@ != "columns"@,
        "name"@ != "indexes"@,
        "name"@ != "primaryKey"@,
        "name"@ != "foreignKeys"@,
        "name"@ != "details"@,
        "name"@ != "objects"@,
        "kind"@ != "columns"@,
        "kind"@ != "indexes"@,
        "kind"@ != "primaryKey"@,
        "kind"@ != "foreignKeys"@,
        "kind"@ != "details"@,
        "columns"@ != "indexes"@,
        "columns"@ != "primaryKey"@,
        "columns"@ != "foreignKeys"@,
        "columns"@ != "details"@,
        "indexes"@ != "primaryKey"@,
        "indexes"@ != "foreignKeys"@,
        "indexes"@ != "details"@,
        "primaryKey"@ != "foreignKeys"@,
        "primaryKey"@ != "details"@,
        "foreignKeys"@ != "details"@,
{
    reveal_strlit("schema");
    reveal_strlit("name");
    reveal_strlit("kind");
    reveal_strlit("columns");
    reveal_strlit("indexes");
    reveal_strlit("primaryKey");
    reveal_strlit("foreignKeys");
    reveal_strlit("details");
    reveal_strlit("objects");
    assert("schema"@[0] == 's');
    assert("name"@[0] == 'n');
    assert("kind"@[0] == 'k');
    assert("columns"@[0] == 'c');
    assert("indexes"@[0] == 'i');
    assert("primaryKey"@[0] == 'p');
    assert("foreignKeys"@[0] == 'f');
    assert("details"@[0] == 'd');
    assert("objects"@[0] == 'o');
}

proof fn lemma_describes(names: Seq<Seq<char>>, details: Seq<JsonView>)
    requires
        names.len() == details.len(),
    ensures
        describes(metadata_view(names, details), names, details),
{
    lemma_object_keys();
    let metadata = metadata_view(names, details);
    let schemas = metadata->Object_0["schemas"@]->Array_0;
    let schema = schemas[0];
    let objects = schema->Object_0["objects"@]->Array_0;
    assert(schemas =~= seq![schema]);
    assert(metadata.holds("schemas"@, JsonView::Array(seq![schema])));
    assert(metadata->Object_0.dom() =~= set!["schemas"@]);
    assert(schema->Object_0.dom() =~= set!["name"@, "objects"@]);
    assert(schema.holds("objects"@, JsonView::Array(objects)));
    assert forall|i: int| 0 <= i < objects.len() implies {
        &&& (#[trigger] objects[i]).holds("name"@, JsonView::Text(names[i]))
        &&& objects[i].holds("details"@, details[i])
        &&& objects[i] == object_view(names[i], details[i])
    } by {
        assert(objects[i] == object_view(names[i], details[i]));
    }
}

/// Going on with an answer adds the details received for the awaited collection,
/// as they are: whatever came is kept, and `null` stands only where nothing came.
/// The collections, and what was found for the earlier ones, stay.
pub proof fn received_details_are_kept(
    scan: MetadataScan,
    answer: DetailAnswer,
    step: MetadataStep,
    detail: JsonView,
)
    requires
        call_ensures(MetadataScan::resume, (scan, answer), step),
        shown_for(answer, detail),
        scan@.details.len() < scan@.names.len(),
    ensures
        step matches MetadataStep::Fetch { request, scan: next } ==> {
            &&& next@.details == scan@.details.push(detail)
            &&& next@.names == scan@.names
            &&& next@.config == scan@.config
            &&& next@.details.len() < next@.names.len()
            &&& request.url@ == scan@.config.base_url + "/collections/"@ + percent::segment(
                scan@.names[scan@.details.len() as int + 1],
            )
            &&& request.method is Get
            &&& request.body is None
        },
        step matches MetadataStep::Done(metadata) ==> {
            &&& scan@.details.len() + 1 == scan@.names.len()
            &&& describes(metadata@, scan@.names, scan@.details.push(detail))
        },
{
    if let MetadataStep::Fetch { request, scan: next } = step {
        let name = scan@.names[scan@.details.len() as int + 1];
        assert(request.url@ =~= scan@.config.base_url + "/collections/"@ + percent::segment(name));
    } else {
        lemma_describes(scan@.names, scan@.details.push(detail));
    }
}

/// Every collection is described alike: descriptions differ in the name and the
/// details alone, and those two are what was given, whatever they are.
pub proof fn collections_are_described_alike(
    name: Seq<char>,
    detail: JsonView,
    other_name: Seq<char>,
    other_detail: JsonView,
)
    ensures
        object_view(name, detail) is Object,
        object_view(name, detail)->Object_0.insert("name"@, JsonView::Text(other_name)).insert(
            "details"@,
            other_detail,
        ) == object_view(other_name, other_detail)->Object_0,
        object_view(name, detail).holds("name"@, JsonView::Text(name)),
        object_view(name, detail).holds("details"@, detail),
        object_view(name, detail).holds("schema"@, JsonView::Text("default"@)),
        object_view(name, detail).holds("kind"@, JsonView::Text("collection"@)),
        object_view(name, detail).holds("indexes"@, JsonView::Array(Seq::empty())),
        object_view(name, detail).holds("foreignKeys"@, JsonView::Array(Seq::empty())),
        exists|columns: Seq<JsonView>, key: JsonView|
            {
                &&& #[trigger] object_view(name, detail).holds("columns"@, JsonView::Array(columns))
                &&& columns.len() == 3
                &&& #[trigger] object_view(name, detail).holds(
                    "primaryKey"@,
                    JsonView::Array(seq![key]),
                )
                &&& key.holds("name"@, JsonView::Text("id"@))
            },
{
    lemma_object_keys();
    reveal_strlit("keyType");
    assert("keyType"@.len() == 7 && "name"@.len() == 4) by {
        reveal_strlit("name");
    }
    let object = object_view(name, detail);
    assert(object->Object_0.insert("name"@, JsonView::Text(other_name)).insert(
        "details"@,
        other_detail,
    ) =~= object_view(other_name, other_detail)->Object_0);
    let columns = columns_view()->Array_0;
    let key = primary_key_view()->Array_0[0];
    assert(primary_key_view()->Array_0 =~= seq![key]);
    assert(object.holds("columns"@, JsonView::Array(columns)));
    assert(object.holds("primaryKey"@, JsonView::Array(seq![key])));
}

proof fn lemma_names_split(left: Seq<JsonView>, right: Seq<JsonView>)
    ensures
        names_of(left + right) == names_of(left) + names_of(right),
    decreases right.len(),
{
    if right.len() == 0 {
        assert(left + right =~= left);
        assert(names_of(left) + names_of(right) =~= names_of(left));
    } else {
        assert((left + right).drop_last() =~= left + right.drop_last());
        lemma_names_split(left, right.drop_last());
        assert(names_of(left + right) =~= names_of(left) + names_of(right));
    }
}

/// The names of a list are those of its parts, one after the other; a collection
/// counts with the text it holds under `name`, whatever that is, and is passed
/// over only where it holds none.
pub proof fn each_named_collection_counts(
    left: Seq<JsonView>,
    collection: JsonView,
    right: Seq<JsonView>,
)
    ensures
        forall|name: Seq<char>| #[trigger]
            collection.holds("name"@, JsonView::Text(name)) ==> names_of(
                left + seq![collection] + right,
            ) == names_of(left) + seq![name] + names_of(right),
        collection.lacks("name"@) ==> names_of(left + seq![collection] + right) == names_of(left)
            + names_of(right),
        forall|other: JsonView| #[trigger]
            collection.holds("name"@, other) && !(other is Text) ==> names_of(
                left + seq![collection] + right,
            ) == names_of(left) + names_of(right),
        names_of(Seq::empty()) == Seq::<Seq<char>>::empty(),
{
    lemma_names_split(left + seq![collection], right);
    lemma_names_split(left, seq![collection]);
    assert(seq![collection].drop_last() =~= Seq::<JsonView>::empty());
    assert(names_of(Seq::<JsonView>::empty()) =~= Seq::<Seq<char>>::empty());
    match name_of(collection) {
        Some(name) => {
            assert(names_of(seq![collection]) =~= seq![name]);
        },
        None => {
            assert(names_of(seq![collection]) =~= Seq::<Seq<char>>::empty());
            assert(names_of(left) + names_of(seq![collection]) =~= names_of(left));
        },
    }
}

/// A scan starts with the first named collection of the answer's list and nothing
/// found yet, and ends at once, with an empty description, where the list names
/// none or there is no list.
pub proof fn scan_starts_with_the_list(
    connection: &QdrantConnection,
    value: &Json,
    step: MetadataStep,
    result: JsonView,
    listed: Seq<JsonView>,
)
    requires
        call_ensures(scan_collections, (connection, value), step),
        ({
            ||| value@.holds("result"@, result) && result.holds("collections"@, JsonView::Array(listed))
            ||| value@.holds("result"@, result) && result.lacks("collections"@) && listed.len() == 0
            ||| value@.holds("result"@, result) && listed.len() == 0 && exists|other: JsonView|
                #[trigger] result.holds("collections"@, other) && !(other is Array)
            ||| value@.lacks("result"@) && listed.len() == 0
        }),
    ensures
        names_of(listed).len() > 0 ==> {
            &&& step matches MetadataStep::Fetch { request, scan }
            &&& scan@.names == names_of(listed)
            &&& scan@.details.len() == 0
            &&& scan@.config == connection.config@
            &&& request.url@ == connection.config.base_url@ + "/collections/"@ + percent::segment(
                names_of(listed)[0],
            )
            &&& request.method is Get
        },
        names_of(listed).len() == 0 ==> (step matches MetadataStep::Done(metadata) && describes(
            metadata@,
            Seq::empty(),
            Seq::empty(),
        )),
{
    if value@.holds("result"@, result) && result.holds("collections"@, JsonView::Array(listed)) {
        assert(answer::result_items(value@, "collections"@) == listed);
    } else {
        assert(answer::result_items(value@, "collections"@) =~= listed);
    }
    if names_of(listed).len() > 0 {
        let name = names_of(listed)[0];
        if let MetadataStep::Fetch { request, scan } = step {
            assert(request.url@ =~= connection.config.base_url@ + "/collections/"@
                + percent::segment(name));
        }
    } else {
        assert(names_of(listed) =~= Seq::<Seq<char>>::empty());
        lemma_describes(Seq::empty(), Seq::empty());
    }
}

/// Whether two steps ask for the same, or end with the same description.
pub open spec fn same_step(left: MetadataStep, right: MetadataStep) -> bool {
    match (left, right) {
        (
            MetadataStep::Fetch { request, scan },
            MetadataStep::Fetch { request: other, scan: other_scan },
        ) => request@ == other@ && scan@ == other_scan@,
        (MetadataStep::Done(metadata), MetadataStep::Done(other)) => metadata@ == other@,
        _ => false,
    }
}

/// The list of collections is read as a scan of its document reads it, a list that
/// is no JSON as `null`; a request that failed, or was answered with a code outside
/// 200 to 299, is a failure that tells which, whatever the body is.
pub proof fn list_is_scanned_or_refused(
    connection: &QdrantConnection,
    answer: Answer,
    result: Result<MetadataStep, String>,
    value: &Json,
    scanned: MetadataStep,
)
    requires
        call_ensures(load_metadata, (connection, answer), result),
        call_ensures(scan_collections, (connection, value), scanned),
    ensures
        match answer {
            Answer::SendFailed(reason) => result matches Err(message) && message@
                == "Qdrant collections request failed: "@ + reason@,
            Answer::ReadFailed(reason) => result matches Err(message) && message@
                == "Qdrant collections response read failed: "@ + reason@,
            Answer::Received { status, body } => if answer::status_code(status) < 200
                || answer::status_code(status) > 299 {
                result matches Err(message) && message@ == "Qdrant collections returned HTTP "@
                    + answer::status_text(answer::status_code(status)) + ": "@ + body@
            } else {
                &&& result is Ok
                &&& json::parsed(body@) matches Ok(document) ==> (document == value@ ==> same_step(
                    result->Ok_0,
                    scanned,
                ))
                &&& json::parsed(body@) is Err && value@ == JsonView::Null ==> same_step(
                    result->Ok_0,
                    scanned,
                )
            },
        },
{
}

}
