//! The driver: what each method of the connector answers.
//!
//! The parts that wait for a server stand outside the library. For those, a
//! method is told in two halves: the one that says what to send, and the one
//! that takes what came back.

use vstd::prelude::*;

use crate::answer;
use crate::answer::{OutputView, QueryOutput, QueryRows};
use crate::config;
use crate::config::{ConfigView, QdrantConfig};
use crate::connection::{ConnectionView, HttpRequest, QdrantConnection};
use crate::connections::Connections;
use crate::json;
use crate::json::{Json, JsonObject, JsonView};
use crate::query;
use crate::query::QdrantQuery;
use crate::text;
use crate::tls;

verus! {

/// What the connector says of itself.
pub struct Host {
    pub engine: String,
    pub abi_version: u32,
    pub driver_linked: bool,
    pub manifest_json: String,
    pub config_json: String,
}

/// The reply to a call.
pub enum Reply {
    /// A success, with these members.
    Success(JsonObject),
    /// This document, as it is.
    Document(String),
    /// A failure.
    Failure { code: String, message: String },
}

/// The content of a [`Reply`].
#[verifier::ext_equal]
pub enum ReplyView {
    Success(Map<Seq<char>, JsonView>),
    Document(Seq<char>),
    Failure { code: Seq<char>, message: Seq<char> },
}

impl Reply {
    /// The content of this reply.
    pub open spec fn view(&self) -> ReplyView {
        match self {
            Reply::Success(members) => ReplyView::Success(members@),
            Reply::Document(document) => ReplyView::Document(document@),
            Reply::Failure { code, message } => ReplyView::Failure {
                code: code@,
                message: message@,
            },
        }
    }
}

/// What a method name asks for: a reply that can be given at once, or one of the
/// methods that need the rest of the request.
pub enum Dispatch {
    Reply(Reply),
    Connect,
    Query,
    Metadata,
    Close,
}

/// The members that tell how the connector is.
pub open spec fn health_members(host: &Host) -> Map<Seq<char>, JsonView> {
    Map::<Seq<char>, JsonView>::empty().insert("engine"@, JsonView::Text(host.engine@)).insert(
        "abiVersion"@,
        JsonView::Unsigned(host.abi_version as u64),
    ).insert("driverLinked"@, JsonView::Bool(host.driver_linked))
}

/// The members that describe the connector.
pub open spec fn describe_members(host: &Host, manifest: JsonView, config: JsonView) -> Map<
    Seq<char>,
    JsonView,
> {
    health_members(host).insert("manifest"@, manifest).insert("config"@, config)
}

pub(crate) fn failure(code: &str, message: &str) -> (reply: Reply)
    ensures
        reply@ == (ReplyView::Failure { code: code@, message: message@ }),
{
    Reply::Failure { code: code.to_owned(), message: message.to_owned() }
}

fn health(host: &Host) -> (members: JsonObject)
    ensures
        members@ == health_members(host),
{
    let mut members = JsonObject::new();
    members.insert("engine", Json::text(host.engine.as_str()));
    members.insert("abiVersion", Json::unsigned(host.abi_version as u64));
    members.insert("driverLinked", Json::Bool(host.driver_linked));
    members
}

/// The reply that describes the connector, with its manifest and configuration.
pub fn describe(host: &Host, manifest: Json, config: Json) -> (reply: Reply)
    ensures
        reply@ == ReplyView::Success(describe_members(host, manifest@, config@)),
{
    let mut members = health(host);
    members.insert("manifest", manifest);
    members.insert("config", config);
    Reply::Success(members)
}

/// What the method name `method` asks for.
pub fn call_json(host: &Host, method: &str) -> (dispatch: Dispatch)
    ensures
        if method@ == "health"@ || method@ == "ping"@ {
            dispatch matches Dispatch::Reply(reply) && reply@ == ReplyView::Success(
                health_members(host),
            )
        } else if method@ == "describe"@ || method@ == "capabilities"@ {
            dispatch matches Dispatch::Reply(reply) && reply@ == ReplyView::Success(
                describe_members(
                    host,
                    json::parsed_or_null(host.manifest_json@),
                    json::parsed_or_null(host.config_json@),
                ),
            )
        } else if method@ == "manifest"@ {
            dispatch matches Dispatch::Reply(reply) && reply@ == ReplyView::Document(
                host.manifest_json@,
            )
        } else if method@ == "config"@ {
            dispatch matches Dispatch::Reply(reply) && reply@ == ReplyView::Document(
                host.config_json@,
            )
        } else if method@ == "connect"@ {
            dispatch is Connect
        } else if method@ == "query"@ {
            dispatch is Query
        } else if method@ == "metadata"@ {
            dispatch is Metadata
        } else if method@ == "close"@ {
            dispatch is Close
        } else {
            dispatch matches Dispatch::Reply(reply) && reply@ == (ReplyView::Failure {
                code: "connector.unknownMethod"@,
                message: "unknown connector method: "@ + method@,
            })
        },
{
    if text::same(method, "health") || text::same(method, "ping") {
        Dispatch::Reply(Reply::Success(health(host)))
    } else if text::same(method, "describe") || text::same(method, "capabilities") {
        Dispatch::Reply(
            describe(
                host,
                json::parse_or_null(host.manifest_json.as_str()),
                json::parse_or_null(host.config_json.as_str()),
            ),
        )
    } else if text::same(method, "manifest") {
        Dispatch::Reply(Reply::Document(host.manifest_json.clone()))
    } else if text::same(method, "config") {
        Dispatch::Reply(Reply::Document(host.config_json.clone()))
    } else if text::same(method, "connect") {
        Dispatch::Connect
    } else if text::same(method, "query") {
        Dispatch::Query
    } else if text::same(method, "metadata") {
        Dispatch::Metadata
    } else if text::same(method, "close") {
        Dispatch::Close
    } else {
        let mut message = "unknown connector method: ".to_owned();
        message.append(method);
        Dispatch::Reply(failure("connector.unknownMethod", message.as_str()))
    }
}

/// The reply where the connections cannot be reached any more.
pub open spec fn poisoned() -> ReplyView {
    ReplyView::Failure {
        code: "connector.statePoisoned"@,
        message: "Connector connection state is poisoned."@,
    }
}

fn state_poisoned() -> (reply: Reply)
    ensures
        reply@ == poisoned(),
{
    failure("connector.statePoisoned", "Connector connection state is poisoned.")
}

/// The reply to a call that failed for `reason`, which is redacted.
pub open spec fn redacted_failure(
    config: ConfigView,
    code: Seq<char>,
    reason: Seq<char>,
) -> ReplyView {
    ReplyView::Failure { code, message: config.redacted(reason) }
}

fn redacted(config: &QdrantConfig, code: &str, reason: &str) -> (reply: Reply)
    ensures
        reply@ == redacted_failure(config@, code@, reason@),
{
    failure(code, config.redact(reason).as_str())
}

/// The connection open under an id, or the refusal. `None` in place of the
/// connections says that they cannot be reached any more.
pub open spec fn looked_up(
    state: Option<Map<Seq<char>, ConnectionView>>,
    id: Seq<char>,
) -> Result<ConnectionView, ReplyView> {
    match state {
        None => Err(poisoned()),
        Some(connections) => if connections.contains_key(id) {
            Ok(connections[id])
        } else {
            Err(
                ReplyView::Failure {
                    code: "connector.connectionNotFound"@,
                    message: "no open connection: "@ + id,
                },
            )
        },
    }
}

/// The open connections, if they can be reached.
pub open spec fn state_view(state: Option<&Connections>) -> Option<
    Map<Seq<char>, ConnectionView>,
> {
    match state {
        Some(connections) => Some(connections@),
        None => None,
    }
}

/// The connection open under `id`.
pub fn connection(state: Option<&Connections>, id: &str) -> (result: Result<
    QdrantConnection,
    Reply,
>)
    ensures
        match looked_up(state_view(state), id@) {
            Ok(found) => result matches Ok(connection) && connection@ == found,
            Err(refusal) => result matches Err(reply) && reply@ == refusal,
        },
{
    match state {
        None => Err(state_poisoned()),
        Some(connections) => match connections.get(id) {
            Some(found) => Ok(found.clone()),
            None => {
                let mut message = "no open connection: ".to_owned();
                message.append(id);
                Err(failure("connector.connectionNotFound", message.as_str()))
            },
        },
    }
}

/// The members of the reply to a successful connect.
pub open spec fn connect_members(
    host: &Host,
    id: Seq<char>,
    config: ConfigView,
    version: Option<Seq<char>>,
) -> Map<Seq<char>, JsonView> {
    let members = Map::<Seq<char>, JsonView>::empty().insert(
        "engine"@,
        JsonView::Text(host.engine@),
    ).insert("connectionId"@, JsonView::Text(id)).insert(
        "driverLinked"@,
        JsonView::Bool(host.driver_linked),
    ).insert("endpoint"@, JsonView::Text(config.base_url));
    match version {
        Some(version) => members.insert("serverVersion"@, JsonView::Text(version)),
        None => members,
    }
}

/// The connection made of a configuration and the client built for it, or the
/// refusal where the client could not be built.
pub fn open_connection(
    config: QdrantConfig,
    client: Result<reqwest::Client, String>,
) -> (result: Result<QdrantConnection, Reply>)
    ensures
        match client {
            Ok(client) => result matches Ok(connection) && connection@ == (ConnectionView {
                settings: tls::client_tls(client),
                config: config@,
            }),
            Err(reason) => result matches Err(reply) && reply@ == redacted_failure(
                config@,
                "connector.invalidRequest"@,
                reason@,
            ),
        },
{
    match client {
        Ok(client) => Ok(QdrantConnection { client, config }),
        Err(reason) => Err(redacted(&config, "connector.invalidRequest", reason.as_str())),
    }
}

/// Registers a connection once the server's version is known, or refuses where
/// the server could not be reached.
pub fn connect(
    host: &Host,
    id: &str,
    connection: QdrantConnection,
    version: Result<Option<String>, String>,
    state: Option<&mut Connections>,
) -> (reply: Reply)
    ensures
        match (version, state) {
            (Err(reason), _) => reply@ == redacted_failure(
                connection.config@,
                "connector.connectFailed"@,
                reason@,
            ),
            (Ok(_), None) => reply@ == poisoned(),
            (Ok(version), Some(_)) => reply@ == ReplyView::Success(
                connect_members(host, id@, connection.config@, text::optional(version)),
            ),
        },
        state matches Some(connections) ==> final(connections)@ == (if version is Ok {
            connections@.insert(id@, connection@)
        } else {
            connections@
        }),
{
    let version = match version {
        Ok(version) => version,
        Err(reason) => return redacted(
            &connection.config,
            "connector.connectFailed",
            reason.as_str(),
        ),
    };
    let connections = match state {
        Some(connections) => connections,
        None => return state_poisoned(),
    };
    let mut members = JsonObject::new();
    members.insert("engine", Json::text(host.engine.as_str()));
    members.insert("connectionId", Json::text(id));
    members.insert("driverLinked", Json::Bool(host.driver_linked));
    members.insert("endpoint", Json::text(connection.config.base_url.as_str()));
    if let Some(version) = version {
        members.insert("serverVersion", Json::Text(version));
    }
    connections.insert(id, connection);
    Reply::Success(members)
}

/// Closes the connection under `id`, and tells whether there was one.
pub fn close(id: &str, state: Option<&mut Connections>) -> (reply: Reply)
    ensures
        match state {
            None => reply@ == poisoned(),
            Some(connections) => {
                &&& reply@ == ReplyView::Success(
                    Map::<Seq<char>, JsonView>::empty().insert(
                        "connectionId"@,
                        JsonView::Text(id@),
                    ).insert("closed"@, JsonView::Bool(connections@.contains_key(id@))),
                )
                &&& final(connections)@ == connections@.remove(id@)
            },
        },
{
    match state {
        None => state_poisoned(),
        Some(connections) => {
            let existed = connections.remove(id);
            let mut members = JsonObject::new();
            members.insert("connectionId", Json::text(id));
            members.insert("closed", Json::Bool(existed));
            Reply::Success(members)
        },
    }
}

/// A field of a request that may hold a query.
#[derive(Clone, Copy)]
pub enum QueryField {
    Query,
    Sql,
    Statement,
    Collection,
}

impl QueryField {
    /// The name under which a request has the field.
    pub open spec fn spelling(self) -> Seq<char> {
        match self {
            QueryField::Query => "query"@,
            QueryField::Sql => "sql"@,
            QueryField::Statement => "statement"@,
            QueryField::Collection => "collection"@,
        }
    }

    /// The name under which a request has the field.
    pub fn name(self) -> (name: &'static str)
        ensures
            name@ == self.spelling(),
    {
        match self {
            QueryField::Query => "query",
            QueryField::Sql => "sql",
            QueryField::Statement => "statement",
            QueryField::Collection => "collection",
        }
    }
}

/// What a request has in the fields that may hold a query.
pub struct QueryFields {
    pub query: Option<String>,
    pub sql: Option<String>,
    pub statement: Option<String>,
    pub collection: Option<String>,
}

impl QueryFields {
    /// The query: the first of the fields that is there.
    pub open spec fn chosen(&self) -> Option<Seq<char>> {
        if self.query is Some {
            text::optional(self.query)
        } else if self.sql is Some {
            text::optional(self.sql)
        } else if self.statement is Some {
            text::optional(self.statement)
        } else {
            text::optional(self.collection)
        }
    }

    fn choose_field(&self) -> (chosen: Option<&String>)
        ensures
            match chosen {
                Some(input) => self.chosen() == Some(input@),
                None => self.chosen() is None,
            },
    {
        if self.query.is_some() {
            self.query.as_ref()
        } else if self.sql.is_some() {
            self.sql.as_ref()
        } else if self.statement.is_some() {
            self.statement.as_ref()
        } else {
            self.collection.as_ref()
        }
    }
}

/// The reply to a request that makes no sense, for `reason`.
pub open spec fn invalid_request(reason: Seq<char>) -> ReplyView {
    ReplyView::Failure { code: "connector.invalidRequest"@, message: reason }
}

/// The query that a request's fields and its profile's collection stand for, or
/// the refusal.
pub open spec fn understood(
    chosen: Option<Seq<char>>,
    collection: Option<Seq<char>>,
    cap: usize,
) -> Result<query::QueryView, ReplyView> {
    match chosen {
        None => Err(
            invalid_request("query requires a collection name or JSON query string."@),
        ),
        Some(input) => match query::planned(input, collection, cap) {
            Ok(query) => Ok(query),
            Err(reason) => Err(invalid_request(reason)),
        },
    }
}

/// The connection to query and the request to send over it, or the refusal: a
/// request that cannot be understood is refused before the connection is looked
/// up.
pub fn query(
    fields: &QueryFields,
    collection: Option<String>,
    cap: usize,
    id: &str,
    state: Option<&Connections>,
) -> (result: Result<(QdrantConnection, HttpRequest), Reply>)
    ensures
        match understood(fields.chosen(), text::optional(collection), cap) {
            Err(refusal) => result matches Err(reply) && reply@ == refusal,
            Ok(query) => match looked_up(state_view(state), id@) {
                Err(refusal) => result matches Err(reply) && reply@ == refusal,
                Ok(found) => result matches Ok((connection, request)) && connection@ == found
                    && request@ == found.config.scroll_request(query),
            },
        },
{
    let input = match fields.choose_field() {
        Some(input) => input,
        None => return Err(
            failure(
                "connector.invalidRequest",
                "query requires a collection name or JSON query string.",
            ),
        ),
    };
    let query = match QdrantQuery::from_input(input.as_str(), collection, cap) {
        Ok(query) => query,
        Err(reason) => return Err(failure("connector.invalidRequest", reason.as_str())),
    };
    let connection = match connection(state, id) {
        Ok(connection) => connection,
        Err(reply) => return Err(reply),
    };
    let request = connection.scroll_request(query);
    Ok((connection, request))
}

/// The members of the reply to a successful query.
pub open spec fn query_members(id: Seq<char>, output: OutputView) -> Map<Seq<char>, JsonView> {
    Map::<Seq<char>, JsonView>::empty().insert("connectionId"@, JsonView::Text(id)).insert(
        "columns"@,
        JsonView::Array(output.columns.map_values(|column: Seq<char>| JsonView::Text(column))),
    ).insert(
        "rows"@,
        JsonView::Array(output.rows.map_values(|row: Seq<JsonView>| JsonView::Array(row))),
    ).insert("truncated"@, JsonView::Bool(output.truncated))
}

fn texts_json(values: Vec<String>) -> (json: Json)
    ensures
        json@ == JsonView::Array(
            config::texts(values@).map_values(|value: Seq<char>| JsonView::Text(value)),
        ),
{
    let mut items: Vec<Json> = Vec::new();
    for value in it: values
        invariant
            it.seq() == values@,
            items@.len() == it.index(),
            forall|k: int|
                0 <= k < items@.len() ==> (#[trigger] items@[k])@ == JsonView::Text(values@[k]@),
    {
        items.push(Json::Text(value));
    }
    assert(json::items_view(items@) =~= config::texts(values@).map_values(
        |value: Seq<char>| JsonView::Text(value),
    ));
    Json::Array(items)
}

fn rows_json(rows: QueryRows) -> (json: Json)
    ensures
        json@ == JsonView::Array(
            answer::rows_view(rows@).map_values(|row: Seq<JsonView>| JsonView::Array(row)),
        ),
{
    let mut items: Vec<Json> = Vec::new();
    for row in it: rows
        invariant
            it.seq() == rows@,
            items@.len() == it.index(),
            forall|k: int|
                0 <= k < items@.len() ==> (#[trigger] items@[k])@ == JsonView::Array(
                    json::items_view(rows@[k]@),
                ),
    {
        items.push(Json::Array(row));
    }
    assert(json::items_view(items@) =~= answer::rows_view(rows@).map_values(
        |row: Seq<JsonView>| JsonView::Array(row),
    ));
    Json::Array(items)
}

/// The reply to a query, once the server has answered or failed to.
pub fn query_reply(
    id: &str,
    config: &QdrantConfig,
    outcome: Result<QueryOutput, String>,
) -> (reply: Reply)
    ensures
        match outcome {
            Ok(output) => reply@ == ReplyView::Success(
                query_members(id@, answer::output_view(output)),
            ),
            Err(reason) => reply@ == redacted_failure(
                config@,
                "connector.queryFailed"@,
                reason@,
            ),
        },
{
    match outcome {
        Ok((columns, rows, truncated)) => {
            let mut members = JsonObject::new();
            members.insert("connectionId", Json::text(id));
            members.insert("columns", texts_json(columns));
            members.insert("rows", rows_json(rows));
            members.insert("truncated", Json::Bool(truncated));
            Reply::Success(members)
        },
        Err(reason) => redacted(config, "connector.queryFailed", reason.as_str()),
    }
}

/// The connection to describe and the request for its collections, or the
/// refusal.
pub fn metadata(id: &str, state: Option<&Connections>) -> (result: Result<
    (QdrantConnection, HttpRequest),
    Reply,
>)
    ensures
        match looked_up(state_view(state), id@) {
            Err(refusal) => result matches Err(reply) && reply@ == refusal,
            Ok(found) => result matches Ok((connection, request)) && connection@ == found
                && request@ == found.config.collections_request(),
        },
{
    match connection(state, id) {
        Ok(connection) => {
            let request = connection.collections_request();
            Ok((connection, request))
        },
        Err(reply) => Err(reply),
    }
}

/// The reply to a request for metadata, once the server is described or could
/// not be.
pub fn metadata_reply(
    id: &str,
    config: &QdrantConfig,
    outcome: Result<Json, String>,
) -> (reply: Reply)
    ensures
        match outcome {
            Ok(metadata) => reply@ == ReplyView::Success(
                Map::<Seq<char>, JsonView>::empty().insert(
                    "connectionId"@,
                    JsonView::Text(id@),
                ).insert("metadata"@, metadata@),
            ),
            Err(reason) => reply@ == redacted_failure(
                config@,
                "connector.metadataFailed"@,
                reason@,
            ),
        },
{
    match outcome {
        Ok(metadata) => {
            let mut members = JsonObject::new();
            members.insert("connectionId", Json::text(id));
            members.insert("metadata", metadata);
            Reply::Success(members)
        },
        Err(reason) => redacted(config, "connector.metadataFailed", reason.as_str()),
    }
}

/// A failure that is redacted shows no gathered secret, whatever the reason was.
pub proof fn failure_shows_no_secret(
    config: ConfigView,
    code: Seq<char>,
    reason: Seq<char>,
    secret: Seq<char>,
)
    requires
        config.redaction_values.contains(secret),
        config::maskable(secret),
    ensures
        !text::occurs(secret, redacted_failure(config, code, reason)->message),
{
    config::secret_is_hidden(config, reason, secret);
}

/// What was opened under an id is found under it, and no other id is affected.
pub proof fn opened_connection_is_found(
    connections: Map<Seq<char>, ConnectionView>,
    id: Seq<char>,
    connection: ConnectionView,
    other: Seq<char>,
)
    ensures
        looked_up(Some(connections.insert(id, connection)), id) == Ok::<
            ConnectionView,
            ReplyView,
        >(connection),
        other != id ==> looked_up(Some(connections.insert(id, connection)), other) == looked_up(
            Some(connections),
            other,
        ),
{
}

/// What was closed is found no more and cannot be closed again, and no other id
/// is affected.
pub proof fn closed_connection_is_gone(
    connections: Map<Seq<char>, ConnectionView>,
    id: Seq<char>,
    other: Seq<char>,
)
    ensures
        looked_up(Some(connections.remove(id)), id) is Err,
        !connections.remove(id).contains_key(id),
        other != id ==> looked_up(Some(connections.remove(id)), other) == looked_up(
            Some(connections),
            other,
        ),
{
}

/// Whether a reply is a success that shows `value` under `key`.
pub open spec fn shows(reply: Reply, key: Seq<char>, value: JsonView) -> bool {
    reply matches Reply::Success(members) && members@.contains_key(key) && members@[key] == value
}

/// Whether a reply is a success with members under these keys and no others.
pub open spec fn shows_just(reply: Reply, keys: Set<Seq<char>>) -> bool {
    reply matches Reply::Success(members) && members@.dom() =~= keys
}

/// Whether a reply is a failure with this code and message.
pub open spec fn fails_as(reply: Reply, code: Seq<char>, message: Seq<char>) -> bool {
    reply matches Reply::Failure { code: found_code, message: found } && found_code@ == code
        && found@ == message
}

proof fn lemma_reply_keys()
    ensures
        "engine"@ != "abiVersion"@,
        "engine"@ != "driverLinked"@,
        "engine"@ != "manifest"@,
        "engine"@ != "config"@,
        "engine"@ != "connectionId"@,
        "engine"@ != "endpoint"@,
        "engine"@ != "serverVersion"@,
        "abiVersion"@ != "driverLinked"@,
        "abiVersion"@ != "manifest"@,
        "abiVersion"@ != "config"@,
        "driverLinked"@ != "manifest"@,
        "driverLinked"@ != "config"@,
        "driverLinked"@ != "connectionId"@,
        "driverLinked"@ != "endpoint"@,
        "driverLinked"@ != "serverVersion"@,
        "manifest"@ != "config"@,
        "connectionId"@ != "endpoint"@,
        "connectionId"@ != "serverVersion"@,
        "connectionId"@ != "columns"@,
        "connectionId"@ != "rows"@,
        "connectionId"@ != "truncated"@,
        "connectionId"@ != "metadata"@,
        "connectionId"@ != "closed"@,
        "endpoint"@ != "serverVersion"@,
        "columns"@ != "rows"@,
        "columns"@ != "truncated"@,
        "rows"@ != "truncated"@,
{
    reveal_strlit("engine");
    reveal_strlit("abiVersion");
    reveal_strlit("driverLinked");
    reveal_strlit("manifest");
    reveal_strlit("config");
    reveal_strlit("connectionId");
    reveal_strlit("endpoint");
    reveal_strlit("serverVersion");
    reveal_strlit("columns");
    reveal_strlit("rows");
    reveal_strlit("truncated");
    reveal_strlit("metadata");
    reveal_strlit("closed");
    assert("engine"@.len() == 6 && "engine"@[0] == 'e');
    assert("abiVersion"@[0] == 'a');
    assert("driverLinked"@[0] == 'd');
    assert("manifest"@[0] == 'm');
    assert("config"@.len() == 6 && "config"@[0] == 'c');
    assert("connectionId"@.len() == 12 && "connectionId"@[0] == 'c');
    assert("endpoint"@.len() == 8 && "endpoint"@[0] == 'e');
    assert("serverVersion"@[0] == 's');
    assert("columns"@.len() == 7 && "columns"@[0] == 'c');
    assert("rows"@[0] == 'r');
    assert("truncated"@[0] == 't');
    assert("metadata"@[0] == 'm');
    assert("closed"@.len() == 6 && "closed"@[0] == 'c');
}

proof fn lemma_method_names()
    ensures
        "health"@ != "describe"@,
        "health"@ != "capabilities"@,
        "ping"@ != "describe"@,
        "ping"@ != "capabilities"@,
        "manifest"@ != "health"@,
        "manifest"@ != "ping"@,
        "manifest"@ != "describe"@,
        "manifest"@ != "capabilities"@,
        "config"@ != "health"@,
        "config"@ != "ping"@,
        "config"@ != "describe"@,
        "config"@ != "capabilities"@,
        "config"@ != "manifest"@,
{
    reveal_strlit("health");
    reveal_strlit("ping");
    reveal_strlit("describe");
    reveal_strlit("capabilities");
    reveal_strlit("manifest");
    reveal_strlit("config");
    assert("health"@[0] == 'h' && "ping"@[0] == 'p' && "describe"@[0] == 'd');
    assert("manifest"@[0] == 'm' && "config"@[0] == 'c' && "config"@.len() == 6);
    assert("capabilities"@.len() == 12 && "capabilities"@[0] == 'c');
}

/// The description of the connector shows what the host says of it, each thing as
/// it is, with the given manifest and configuration, and nothing else.
pub proof fn description_shows_the_host(host: &Host, manifest: Json, config: Json, reply: Reply)
    requires
        call_ensures(describe, (host, manifest, config), reply),
    ensures
        shows(reply, "engine"@, JsonView::Text(host.engine@)),
        shows(reply, "abiVersion"@, JsonView::Unsigned(host.abi_version as u64)),
        shows(reply, "driverLinked"@, JsonView::Bool(host.driver_linked)),
        shows(reply, "manifest"@, manifest@),
        shows(reply, "config"@, config@),
        shows_just(
            reply,
            set!["engine"@, "abiVersion"@, "driverLinked"@, "manifest"@, "config"@],
        ),
{
    lemma_reply_keys();
}

/// What can be answered at once is answered out of what the host says: its health,
/// its description with the documents it has, and the documents themselves as they
/// are; the two names of a method are answered alike.
pub proof fn answers_at_once_come_from_the_host(host: &Host, method: &str, dispatch: Dispatch)
    requires
        call_ensures(call_json, (host, method), dispatch),
    ensures
        method@ == "health"@ || method@ == "ping"@ ==> (dispatch matches Dispatch::Reply(reply)
            && shows(reply, "engine"@, JsonView::Text(host.engine@)) && shows(
            reply,
            "abiVersion"@,
            JsonView::Unsigned(host.abi_version as u64),
        ) && shows(reply, "driverLinked"@, JsonView::Bool(host.driver_linked)) && shows_just(
            reply,
            set!["engine"@, "abiVersion"@, "driverLinked"@],
        )),
        method@ == "describe"@ || method@ == "capabilities"@ ==> (
        dispatch matches Dispatch::Reply(reply) && shows(
            reply,
            "engine"@,
            JsonView::Text(host.engine@),
        ) && shows(reply, "abiVersion"@, JsonView::Unsigned(host.abi_version as u64)) && shows(
            reply,
            "driverLinked"@,
            JsonView::Bool(host.driver_linked),
        ) && (match json::parsed(host.manifest_json@) {
            Ok(manifest) => shows(reply, "manifest"@, manifest),
            Err(_) => shows(reply, "manifest"@, JsonView::Null),
        }) && (match json::parsed(host.config_json@) {
            Ok(config) => shows(reply, "config"@, config),
            Err(_) => shows(reply, "config"@, JsonView::Null),
        }) && shows_just(
            reply,
            set!["engine"@, "abiVersion"@, "driverLinked"@, "manifest"@, "config"@],
        )),
        method@ == "manifest"@ ==> (dispatch matches Dispatch::Reply(Reply::Document(document))
            && document@ == host.manifest_json@),
        method@ == "config"@ ==> (dispatch matches Dispatch::Reply(Reply::Document(document))
            && document@ == host.config_json@),
{
    lemma_reply_keys();
    lemma_method_names();
}

/// A call is handed to a method exactly if it bears the method's name, and any
/// other name is refused by that name.
pub proof fn methods_go_by_their_names(host: &Host, method: &str, dispatch: Dispatch)
    requires
        call_ensures(call_json, (host, method), dispatch),
    ensures
        dispatch is Connect <==> method@ == "connect"@,
        dispatch is Query <==> method@ == "query"@,
        dispatch is Metadata <==> method@ == "metadata"@,
        dispatch is Close <==> method@ == "close"@,
        !(method@ == "health"@ || method@ == "ping"@ || method@ == "describe"@ || method@
            == "capabilities"@ || method@ == "manifest"@ || method@ == "config"@ || method@
            == "connect"@ || method@ == "query"@ || method@ == "metadata"@ || method@ == "close"@)
            ==> (dispatch matches Dispatch::Reply(reply) && fails_as(
            reply,
            "connector.unknownMethod"@,
            "unknown connector method: "@ + method@,
        )),
{
    reveal_strlit("health");
    reveal_strlit("ping");
    reveal_strlit("describe");
    reveal_strlit("capabilities");
    reveal_strlit("manifest");
    reveal_strlit("config");
    reveal_strlit("connect");
    reveal_strlit("query");
    reveal_strlit("metadata");
    reveal_strlit("close");
    assert("health"@[0] == 'h' && "ping"@[0] == 'p' && "describe"@[0] == 'd');
    assert("capabilities"@.len() == 12 && "config"@.len() == 6 && "connect"@.len() == 7
        && "close"@.len() == 5);
    assert("manifest"@[0] == 'm' && "manifest"@[1] == 'a');
    assert("metadata"@[0] == 'm' && "metadata"@[1] == 'e');
    assert("query"@[0] == 'q');
    assert("capabilities"@[0] == 'c' && "config"@[0] == 'c' && "connect"@[0] == 'c' && "close"@[0]
        == 'c');
}

/// A connection is found exactly under the ids that are open, as it was opened; any
/// other id is refused by that id, and so is every id once the state is poisoned.
pub proof fn connection_is_found_by_its_id(
    state: Option<&Connections>,
    id: &str,
    result: Result<QdrantConnection, Reply>,
)
    requires
        call_ensures(connection, (state, id), result),
    ensures
        state matches Some(connections) ==> {
            &&& connections@.contains_key(id@) ==> (result matches Ok(found) && found@
                == connections@[id@])
            &&& !connections@.contains_key(id@) ==> (result matches Err(reply) && fails_as(
                reply,
                "connector.connectionNotFound"@,
                "no open connection: "@ + id@,
            ))
        },
        state is None ==> (result matches Err(reply) && fails_as(
            reply,
            "connector.statePoisoned"@,
            "Connector connection state is poisoned."@,
        )),
{
}

/// A connection is made of the client and the configuration as they are; a client
/// that could not be built is an invalid request, told as the configuration
/// redacts the reason.
pub proof fn opening_takes_client_and_configuration(
    config: QdrantConfig,
    client: Result<reqwest::Client, String>,
    result: Result<QdrantConnection, Reply>,
    reason: &str,
    redacted_reason: String,
)
    requires
        call_ensures(open_connection, (config, client), result),
        call_ensures(QdrantConfig::redact, (&config, reason), redacted_reason),
        client matches Err(message) ==> message@ == reason@,
    ensures
        client matches Ok(client) ==> (result matches Ok(connection) && connection.config@
            == config@ && tls::client_tls(connection.client) == tls::client_tls(client)),
        client is Err ==> (result matches Err(reply) && fails_as(
            reply,
            "connector.invalidRequest"@,
            redacted_reason@,
        )),
{
}

/// The reply to a successful connect shows the engine, the id, whether the driver
/// is linked, the address as it is, and the server's version where there is one,
/// and nothing else.
pub proof fn connect_reply_shows_the_connection(
    host: &Host,
    id: Seq<char>,
    config: ConfigView,
    version: Option<Seq<char>>,
)
    ensures
        ({
            let members = connect_members(host, id, config, version);
            let reply = JsonView::Object(members);
            &&& reply.holds("engine"@, JsonView::Text(host.engine@))
            &&& reply.holds("connectionId"@, JsonView::Text(id))
            &&& reply.holds("driverLinked"@, JsonView::Bool(host.driver_linked))
            &&& reply.holds("endpoint"@, JsonView::Text(config.base_url))
            &&& version is None ==> reply.lacks("serverVersion"@)
            &&& version matches Some(version) ==> reply.holds(
                "serverVersion"@,
                JsonView::Text(version),
            )
            &&& forall|key: Seq<char>| #[trigger]
                members.contains_key(key) ==> key == "engine"@ || key == "connectionId"@ || key
                    == "driverLinked"@ || key == "endpoint"@ || key == "serverVersion"@
        }),
{
    lemma_reply_keys();
}

/// The field that holds the query is the first of the four that is there, whatever
/// it says.
pub proof fn first_field_holds_the_query(fields: &QueryFields)
    ensures
        fields.query matches Some(query) ==> fields.chosen() == Some(query@),
        fields.query is None ==> (fields.sql matches Some(sql) ==> fields.chosen() == Some(sql@)),
        fields.query is None && fields.sql is None ==> (fields.statement matches Some(statement)
            ==> fields.chosen() == Some(statement@)),
        fields.query is None && fields.sql is None && fields.statement is None ==> (
        fields.collection matches Some(collection) ==> fields.chosen() == Some(collection@)),
        fields.query is None && fields.sql is None && fields.statement is None
            && fields.collection is None ==> fields.chosen() is None,
{
}

/// A query is refused without a field to read, then by what is wrong with the
/// input, then for want of a connection; else the scroll request of the connection
/// found, for the query planned, is what is sent.
pub proof fn query_sends_what_was_planned(
    fields: &QueryFields,
    collection: Option<String>,
    cap: usize,
    id: &str,
    state: Option<&Connections>,
    result: Result<(QdrantConnection, HttpRequest), Reply>,
    input: &str,
    planned: Result<QdrantQuery, String>,
    found: Result<QdrantConnection, Reply>,
)
    requires
        call_ensures(query, (fields, collection, cap, id, state), result),
        call_ensures(QdrantQuery::from_input, (input, collection, cap), planned),
        call_ensures(connection, (state, id), found),
        fields.chosen() matches Some(chosen) ==> chosen == input@,
    ensures
        fields.chosen() is None ==> (result matches Err(reply) && fails_as(
            reply,
            "connector.invalidRequest"@,
            "query requires a collection name or JSON query string."@,
        )),
        fields.chosen() is Some ==> (planned matches Err(message) ==> (result matches Err(reply)
            && fails_as(reply, "connector.invalidRequest"@, message@))),
        fields.chosen() is Some && planned is Ok ==> (found matches Err(refusal) ==> (
        result matches Err(reply) && reply@ == refusal@)),
        fields.chosen() is Some ==> (planned matches Ok(asked) ==> (found matches Ok(expected) ==> {
            &&& result is Ok
            &&& result->Ok_0.0@ == expected@
            &&& forall|request: HttpRequest| #[trigger]
                call_ensures(QdrantConnection::scroll_request, (&expected, asked), request)
                    ==> result->Ok_0.1@ == request@
        })),
{
}

/// The reply to a query shows the id, all columns and all rows as they are and in
/// their order, and whether there is more; a failure is told as the configuration
/// redacts the reason.
pub proof fn query_reply_shows_the_output(
    id: &str,
    config: &QdrantConfig,
    outcome: Result<QueryOutput, String>,
    reply: Reply,
    reason: &str,
    redacted_reason: String,
)
    requires
        call_ensures(query_reply, (id, config, outcome), reply),
        call_ensures(QdrantConfig::redact, (config, reason), redacted_reason),
        outcome matches Err(message) ==> message@ == reason@,
    ensures
        outcome matches Ok(output) ==> {
            &&& shows(reply, "connectionId"@, JsonView::Text(id@))
            &&& shows(reply, "truncated"@, JsonView::Bool(output.2))
            &&& shows_just(reply, set!["connectionId"@, "columns"@, "rows"@, "truncated"@])
            &&& exists|columns: Seq<JsonView>|
                {
                    &&& #[trigger] shows(reply, "columns"@, JsonView::Array(columns))
                    &&& columns.len() == output.0@.len()
                    &&& forall|i: int|
                        0 <= i < columns.len() ==> #[trigger] columns[i] == JsonView::Text(
                            output.0@[i]@,
                        )
                }
            &&& exists|rows: Seq<JsonView>|
                {
                    &&& #[trigger] shows(reply, "rows"@, JsonView::Array(rows))
                    &&& rows.len() == output.1@.len()
                    &&& forall|i: int|
                        0 <= i < rows.len() ==> (#[trigger] rows[i]) is Array && rows[i]->Array_0.len()
                            == output.1@[i]@.len()
                    &&& forall|i: int, j: int|
                        0 <= i < rows.len() && 0 <= j < output.1@[i]@.len()
                            ==> #[trigger] rows[i]->Array_0[j] == output.1@[i]@[j]@
                }
        },
        outcome is Err ==> fails_as(reply, "connector.queryFailed"@, redacted_reason@),
{
    lemma_reply_keys();
    if let Ok(output) = outcome {
        let view = answer::output_view(output);
        let members = query_members(id@, view);
        let columns = members["columns"@]->Array_0;
        let rows = members["rows"@]->Array_0;
        assert(shows(reply, "columns"@, JsonView::Array(columns)));
        assert(shows(reply, "rows"@, JsonView::Array(rows)));
        assert forall|i: int| 0 <= i < columns.len() implies #[trigger] columns[i]
            == JsonView::Text(output.0@[i]@) by {
            assert(columns[i] == JsonView::Text(view.columns[i]));
        }
        assert forall|i: int| 0 <= i < rows.len() implies (#[trigger] rows[i]) is Array
            && rows[i]->Array_0.len() == output.1@[i]@.len() by {
            assert(rows[i] == JsonView::Array(view.rows[i]));
        }
        assert forall|i: int, j: int|
            0 <= i < rows.len() && 0 <= j < output.1@[i]@.len() implies #[trigger] rows[i]->Array_0[j]
            == output.1@[i]@[j]@ by {
            assert(rows[i] == JsonView::Array(view.rows[i]));
        }
    }
}

/// Metadata is asked for over the connection found, with its request for the
/// collections, and refused as the lookup is.
pub proof fn metadata_asks_the_connection_found(
    id: &str,
    state: Option<&Connections>,
    result: Result<(QdrantConnection, HttpRequest), Reply>,
    found: Result<QdrantConnection, Reply>,
)
    requires
        call_ensures(metadata, (id, state), result),
        call_ensures(connection, (state, id), found),
    ensures
        found matches Err(refusal) ==> (result matches Err(reply) && reply@ == refusal@),
        found matches Ok(expected) ==> {
            &&& result is Ok
            &&& result->Ok_0.0@ == expected@
            &&& forall|request: HttpRequest| #[trigger]
                call_ensures(QdrantConnection::collections_request, (&expected,), request)
                    ==> result->Ok_0.1@ == request@
        },
{
}

/// The reply to a request for metadata shows the id and the description as it is,
/// and nothing else; a failure is told as the configuration redacts the reason.
pub proof fn metadata_reply_shows_the_description(
    id: &str,
    config: &QdrantConfig,
    outcome: Result<Json, String>,
    reply: Reply,
    reason: &str,
    redacted_reason: String,
)
    requires
        call_ensures(metadata_reply, (id, config, outcome), reply),
        call_ensures(QdrantConfig::redact, (config, reason), redacted_reason),
        outcome matches Err(message) ==> message@ == reason@,
    ensures
        outcome matches Ok(description) ==> shows(reply, "connectionId"@, JsonView::Text(id@))
            && shows(reply, "metadata"@, description@) && shows_just(
            reply,
            set!["connectionId"@, "metadata"@],
        ),
        outcome is Err ==> fails_as(reply, "connector.metadataFailed"@, redacted_reason@),
{
    lemma_reply_keys();
}

/// Whether two registries have the same open under every id but `id`.
pub open spec fn alike_but_for(
    left: Map<Seq<char>, ConnectionView>,
    right: Map<Seq<char>, ConnectionView>,
    id: Seq<char>,
) -> bool {
    forall|other: Seq<char>|
        other != id ==> (#[trigger] left.contains_key(other) <==> right.contains_key(other)) && (
        left.contains_key(other) ==> left[other] == right[other])
}

/// Closing tells the id and whether something was open under it, and takes away
/// exactly that; once the state is poisoned it is refused.
pub proof fn closing_takes_away_its_id_alone(id: &str, reply: Reply)
    ensures
        forall|state: Option<&mut Connections>| #[trigger]
            call_ensures(close, (id, state), reply) ==> (match state {
                Some(connections) => {
                    &&& shows(reply, "connectionId"@, JsonView::Text(id@))
                    &&& shows(reply, "closed"@, JsonView::Bool(connections@.contains_key(id@)))
                    &&& shows_just(reply, set!["connectionId"@, "closed"@])
                    &&& !final(connections)@.contains_key(id@)
                    &&& alike_but_for(final(connections)@, connections@, id@)
                },
                None => fails_as(
                    reply,
                    "connector.statePoisoned"@,
                    "Connector connection state is poisoned."@,
                ),
            }),
{
    lemma_reply_keys();
}

/// Connecting opens the connection under its id, whatever the server calls its
/// version, tells about it, and leaves the other ids alone; once the state is
/// poisoned it is refused.
pub proof fn connecting_opens_its_id_alone(
    host: &Host,
    id: &str,
    connection: QdrantConnection,
    version: Option<String>,
    reply: Reply,
)
    ensures
        forall|state: Option<&mut Connections>| #[trigger]
            call_ensures(
                connect,
                (host, id, connection, Ok::<Option<String>, String>(version), state),
                reply,
            ) ==> (match state {
                Some(connections) => {
                    &&& shows(reply, "engine"@, JsonView::Text(host.engine@))
                    &&& shows(reply, "connectionId"@, JsonView::Text(id@))
                    &&& shows(reply, "driverLinked"@, JsonView::Bool(host.driver_linked))
                    &&& shows(reply, "endpoint"@, JsonView::Text(connection.config.base_url@))
                    &&& version matches Some(shown) ==> shows(
                        reply,
                        "serverVersion"@,
                        JsonView::Text(shown@),
                    ) && shows_just(
                        reply,
                        set![
                            "engine"@,
                            "connectionId"@,
                            "driverLinked"@,
                            "endpoint"@,
                            "serverVersion"@,
                        ],
                    )
                    &&& version is None ==> shows_just(
                        reply,
                        set!["engine"@, "connectionId"@, "driverLinked"@, "endpoint"@],
                    )
                    &&& final(connections)@.contains_key(id@)
                    &&& final(connections)@[id@] == connection@
                    &&& alike_but_for(final(connections)@, connections@, id@)
                },
                None => fails_as(
                    reply,
                    "connector.statePoisoned"@,
                    "Connector connection state is poisoned."@,
                ),
            }),
{
    lemma_reply_keys();
}

/// A server that could not be reached is a failure, told as the configuration
/// redacts the reason, and opens and closes nothing.
pub proof fn failed_connect_opens_nothing(
    host: &Host,
    id: &str,
    connection: QdrantConnection,
    message: String,
    reply: Reply,
    reason: &str,
    redacted_reason: String,
)
    requires
        call_ensures(QdrantConfig::redact, (&connection.config, reason), redacted_reason),
        reason@ == message@,
    ensures
        forall|state: Option<&mut Connections>| #[trigger]
            call_ensures(
                connect,
                (host, id, connection, Err::<Option<String>, String>(message), state),
                reply,
            ) ==> {
                &&& fails_as(reply, "connector.connectFailed"@, redacted_reason@)
                &&& state matches Some(connections) ==> final(connections)@ == connections@
            },
{
}

}
