//! What the answers of a server say: its version, and the points of a
//! collection.

use vstd::prelude::*;

use crate::config;
use crate::json;
use crate::json::{Json, JsonView};
use crate::text;

verus! {

/// The status of an HTTP answer.
#[verifier::external_type_specification]
#[verifier::external_body]
pub struct ExStatusCode(reqwest::StatusCode);

/// The three-digit code of a status.
pub uninterp spec fn status_code(status: reqwest::StatusCode) -> u16;

/// How a status with the given code displays: the code and its canonical reason.
pub uninterp spec fn status_text(code: u16) -> Seq<char>;

/// `reqwest::StatusCode::is_success`: whether the code is within 200 to 299.
pub assume_specification[ reqwest::StatusCode::is_success ](status: &reqwest::StatusCode) -> (ok:
    bool)
    ensures
        ok == (200 <= status_code(*status) <= 299),
;

/// The `Display` of a `reqwest::StatusCode`, which rests on its code alone.
#[verifier::external_body]
fn status_line(status: &reqwest::StatusCode) -> (line: String)
    ensures
        line@ == status_text(status_code(*status)),
{
    status.to_string()
}

/// How sending a request ended.
pub enum Answer {
    /// It could not be sent, or was not answered.
    SendFailed(String),
    /// It was answered, and the answer could not be read.
    ReadFailed(String),
    Received { status: reqwest::StatusCode, body: String },
}

/// The content of an [`Answer`].
pub enum AnswerView {
    SendFailed(Seq<char>),
    ReadFailed(Seq<char>),
    Received { code: u16, body: Seq<char> },
}

impl Answer {
    /// The content of this answer.
    pub open spec fn view(&self) -> AnswerView {
        match self {
            Answer::SendFailed(reason) => AnswerView::SendFailed(reason@),
            Answer::ReadFailed(reason) => AnswerView::ReadFailed(reason@),
            Answer::Received { status, body } => AnswerView::Received {
                code: status_code(*status),
                body: body@,
            },
        }
    }
}

impl AnswerView {
    /// The body of a successful answer, or the message that says what went
    /// wrong, each kind of failure with its own opening.
    pub open spec fn body_or(
        self,
        sending: Seq<char>,
        reading: Seq<char>,
        returned: Seq<char>,
    ) -> Result<Seq<char>, Seq<char>> {
        match self {
            AnswerView::SendFailed(reason) => Err(sending + reason),
            AnswerView::ReadFailed(reason) => Err(reading + reason),
            AnswerView::Received { code, body } => if 200 <= code <= 299 {
                Ok(body)
            } else {
                Err(returned + status_text(code) + ": "@ + body)
            },
        }
    }

    /// The body of a successful answer about the server's version.
    pub open spec fn version_body(self) -> Result<Seq<char>, Seq<char>> {
        self.body_or(
            "Qdrant root request failed: "@,
            "Qdrant response read failed: "@,
            "Qdrant root request returned HTTP "@,
        )
    }

    /// The body of a successful answer with points.
    pub open spec fn scroll_body(self) -> Result<Seq<char>, Seq<char>> {
        self.body_or(
            "Qdrant scroll request failed: "@,
            "Qdrant scroll response read failed: "@,
            "Qdrant scroll returned HTTP "@,
        )
    }

    /// The body of a successful answer with the list of collections.
    pub open spec fn collections_body(self) -> Result<Seq<char>, Seq<char>> {
        self.body_or(
            "Qdrant collections request failed: "@,
            "Qdrant collections response read failed: "@,
            "Qdrant collections returned HTTP "@,
        )
    }
}

/// The view of a text or of the message in its place.
pub open spec fn text_or_message(result: Result<String, String>) -> Result<Seq<char>, Seq<char>> {
    match result {
        Ok(text) => Ok(text@),
        Err(message) => Err(message@),
    }
}

pub(crate) fn prefixed(opening: &str, reason: &str) -> (message: String)
    ensures
        message@ == opening@ + reason@,
{
    let mut message = opening.to_owned();
    message.append(reason);
    message
}

pub(crate) fn body_or(answer: Answer, sending: &str, reading: &str, returned: &str) -> (result: Result<
    String,
    String,
>)
    ensures
        text_or_message(result) == answer@.body_or(sending@, reading@, returned@),
{
    match answer {
        Answer::SendFailed(reason) => Err(prefixed(sending, reason.as_str())),
        Answer::ReadFailed(reason) => Err(prefixed(reading, reason.as_str())),
        Answer::Received { status, body } => {
            if status.is_success() {
                Ok(body)
            } else {
                let mut message = prefixed(returned, status_line(&status).as_str());
                message.append(": ");
                message.append(body.as_str());
                Err(message)
            }
        },
    }
}

/// The version that a server's root document names, as it is shown.
pub open spec fn version_of(value: JsonView) -> Option<Seq<char>> {
    match value.get("version"@) {
        Some(version) => match version.as_text() {
            Some(version) => Some("Qdrant "@ + version),
            None => None,
        },
        None => None,
    }
}

/// The version that a server's root document names, as it is shown.
pub fn version_in(value: &Json) -> (version: Option<String>)
    ensures
        text::optional(version) == version_of(value@),
{
    match value.get("version") {
        Some(version) => match version.as_str() {
            Some(version) => Some(prefixed("Qdrant ", version)),
            None => None,
        },
        None => None,
    }
}

/// The server's version, out of its answer. A document that is no JSON, or names
/// no version, counts as a success without one.
pub fn load_version(answer: Answer) -> (result: Result<Option<String>, String>)
    ensures
        match result {
            Ok(version) => answer@.version_body() matches Ok(body) && text::optional(version)
                == version_of(json::parsed_or_null(body)),
            Err(message) => answer@.version_body() == Err::<Seq<char>, Seq<char>>(message@),
        },
{
    match body_or(
        answer,
        "Qdrant root request failed: ",
        "Qdrant response read failed: ",
        "Qdrant root request returned HTTP ",
    ) {
        Ok(body) => Ok(version_in(&json::parse_or_null(body.as_str()))),
        Err(message) => Err(message),
    }
}

/// Rows of values.
pub type QueryRows = Vec<Vec<Json>>;

/// The columns and rows of a result, and whether there is more.
pub type QueryOutput = (Vec<String>, QueryRows, bool);

/// The content of a [`QueryOutput`].
#[verifier::ext_equal]
pub struct OutputView {
    pub columns: Seq<Seq<char>>,
    pub rows: Seq<Seq<JsonView>>,
    pub truncated: bool,
}

/// The contents of rows.
pub open spec fn rows_view(rows: Seq<Vec<Json>>) -> Seq<Seq<JsonView>> {
    rows.map_values(|row: Vec<Json>| json::items_view(row@))
}

/// The content of a [`QueryOutput`].
pub open spec fn output_view(output: QueryOutput) -> OutputView {
    OutputView {
        columns: config::texts(output.0@),
        rows: rows_view(output.1@),
        truncated: output.2,
    }
}

/// The member under `key`, or `null`.
pub open spec fn member_or_null(value: JsonView, key: Seq<char>) -> JsonView {
    match value.get(key) {
        Some(member) => member,
        None => JsonView::Null,
    }
}

/// The items of the array under `key` of an answer's result, none if there is no
/// such array.
pub open spec fn result_items(value: JsonView, key: Seq<char>) -> Seq<JsonView> {
    match member_or_null(member_or_null(value, "result"@), key).as_items() {
        Some(items) => items,
        None => Seq::empty(),
    }
}

/// The row of a point: its id, payload and vector, `null` where one is missing.
pub open spec fn row_of(point: JsonView) -> Seq<JsonView> {
    seq![
        member_or_null(point, "id"@),
        member_or_null(point, "payload"@),
        member_or_null(point, "vector"@),
    ]
}

/// The result that a scroll answer stands for: one row for each point, in their
/// order, truncated exactly if the answer names where the next page starts.
pub open spec fn output_of(value: JsonView) -> OutputView {
    OutputView {
        columns: seq!["id"@, "payload"@, "vector"@],
        rows: result_items(value, "points"@).map_values(|point: JsonView| row_of(point)),
        truncated: member_or_null(member_or_null(value, "result"@), "next_page_offset"@)
            != JsonView::Null,
    }
}

fn copy_or_null(value: &Json, key: &str) -> (copy: Json)
    ensures
        copy@ == member_or_null(value@, key@),
{
    match value.get(key) {
        Some(member) => member.clone(),
        None => Json::Null,
    }
}

pub(crate) fn items_in<'a>(value: &'a Json, key: &str) -> (items: Option<&'a Vec<Json>>)
    ensures
        result_items(value@, key@) == (match items {
            Some(items) => json::items_view(items@),
            None => Seq::empty(),
        }),
{
    match value.get("result") {
        Some(result) => match result.get(key) {
            Some(member) => member.as_array(),
            None => None,
        },
        None => None,
    }
}

fn row(point: &Json) -> (row: Vec<Json>)
    ensures
        json::items_view(row@) == row_of(point@),
{
    let mut row: Vec<Json> = Vec::new();
    row.push(copy_or_null(point, "id"));
    row.push(copy_or_null(point, "payload"));
    row.push(copy_or_null(point, "vector"));
    assert(json::items_view(row@) =~= row_of(point@));
    row
}

/// The result that a scroll answer stands for.
pub fn points_to_output(value: Json) -> (output: QueryOutput)
    ensures
        output_view(output) == output_of(value@),
{
    let mut rows: QueryRows = Vec::new();
    let ghost points = result_items(value@, "points"@);
    if let Some(items) = items_in(&value, "points") {
        let mut i: usize = 0;
        while i < items.len()
            invariant
                i <= items@.len(),
                points == json::items_view(items@),
                rows@.len() == i,
                forall|k: int|
                    0 <= k < i ==> json::items_view((#[trigger] rows@[k])@) == row_of(points[k]),
            decreases items@.len() - i,
        {
            rows.push(row(&items[i]));
            i += 1;
        }
    }
    let next_page_offset: Json = match value.get("result") {
        Some(result) => copy_or_null(result, "next_page_offset"),
        None => Json::Null,
    };
    let mut columns: Vec<String> = Vec::new();
    columns.push("id".to_owned());
    columns.push("payload".to_owned());
    columns.push("vector".to_owned());
    assert(config::texts(columns@) =~= output_of(value@).columns);
    assert(rows_view(rows@) =~= output_of(value@).rows);
    (columns, rows, !next_page_offset.is_null())
}

/// The points of a collection, out of the server's answer.
pub fn run_scroll(answer: Answer) -> (result: Result<QueryOutput, String>)
    ensures
        match answer@.scroll_body() {
            Err(reason) => result matches Err(message) && message@ == reason,
            Ok(body) => match json::parsed(body) {
                Err(reason) => result matches Err(message) && message@
                    == "Qdrant scroll JSON parse failed: "@ + reason + ": "@ + body,
                Ok(value) => result matches Ok(output) && output_view(output) == output_of(value),
            },
        },
{
    match body_or(
        answer,
        "Qdrant scroll request failed: ",
        "Qdrant scroll response read failed: ",
        "Qdrant scroll returned HTTP ",
    ) {
        Ok(body) => match json::parse(body.as_str()) {
            Ok(value) => Ok(points_to_output(value)),
            Err(reason) => {
                let mut message = prefixed("Qdrant scroll JSON parse failed: ", reason.as_str());
                message.append(": ");
                message.append(body.as_str());
                Err(message)
            },
        },
        Err(message) => Err(message),
    }
}

/// A result has as many rows as the answer has points, and each row as many
/// values as there are columns.
pub proof fn output_is_rectangular(value: JsonView)
    ensures
        output_of(value).rows.len() == result_items(value, "points"@).len(),
        forall|i: int|
            0 <= i < output_of(value).rows.len() ==> (#[trigger] output_of(value).rows[i]).len()
                == output_of(value).columns.len(),
{
}

/// A received answer whose code is outside 200 to 299 is a failure that tells the
/// status and the body, and one within is no failure on account of its status,
/// whatever the body holds.
pub proof fn status_alone_decides(code: u16, body: Seq<char>)
    ensures
        ({
            let answer = AnswerView::Received { code, body };
            if code < 200 || code > 299 {
                &&& answer.version_body() == Err::<Seq<char>, Seq<char>>(
                    "Qdrant root request returned HTTP "@ + status_text(code) + ": "@ + body,
                )
                &&& answer.scroll_body() == Err::<Seq<char>, Seq<char>>(
                    "Qdrant scroll returned HTTP "@ + status_text(code) + ": "@ + body,
                )
                &&& answer.collections_body() == Err::<Seq<char>, Seq<char>>(
                    "Qdrant collections returned HTTP "@ + status_text(code) + ": "@ + body,
                )
            } else {
                &&& answer.version_body() == Ok::<Seq<char>, Seq<char>>(body)
                &&& answer.scroll_body() == Ok::<Seq<char>, Seq<char>>(body)
                &&& answer.collections_body() == Ok::<Seq<char>, Seq<char>>(body)
            }
        }),
{
}

/// A request that was not answered, or whose answer could not be read, is a
/// failure that tells the reason.
pub proof fn lost_answer_is_a_failure(reason: Seq<char>)
    ensures
        AnswerView::SendFailed(reason).version_body() == Err::<Seq<char>, Seq<char>>(
            "Qdrant root request failed: "@ + reason,
        ),
        AnswerView::ReadFailed(reason).version_body() == Err::<Seq<char>, Seq<char>>(
            "Qdrant response read failed: "@ + reason,
        ),
        AnswerView::SendFailed(reason).scroll_body() == Err::<Seq<char>, Seq<char>>(
            "Qdrant scroll request failed: "@ + reason,
        ),
        AnswerView::ReadFailed(reason).scroll_body() == Err::<Seq<char>, Seq<char>>(
            "Qdrant scroll response read failed: "@ + reason,
        ),
        AnswerView::SendFailed(reason).collections_body() == Err::<Seq<char>, Seq<char>>(
            "Qdrant collections request failed: "@ + reason,
        ),
        AnswerView::ReadFailed(reason).collections_body() == Err::<Seq<char>, Seq<char>>(
            "Qdrant collections response read failed: "@ + reason,
        ),
{
}

/// Asking for the version fails exactly if the request was not answered, could
/// not be read, or was answered with a code outside 200 to 299, and the failure
/// tells which.
pub proof fn version_fails_with_the_request(
    answer: Answer,
    result: Result<Option<String>, String>,
)
    requires
        call_ensures(load_version, (answer,), result),
    ensures
        match answer {
            Answer::SendFailed(reason) => result matches Err(message) && message@
                == "Qdrant root request failed: "@ + reason@,
            Answer::ReadFailed(reason) => result matches Err(message) && message@
                == "Qdrant response read failed: "@ + reason@,
            Answer::Received { status, body } => if status_code(status) < 200 || status_code(status)
                > 299 {
                result matches Err(message) && message@ == "Qdrant root request returned HTTP "@
                    + status_text(status_code(status)) + ": "@ + body@
            } else {
                result is Ok
            },
        },
{
}

/// A version is shown exactly if the server's document is an object with a text
/// under `version`, and it is that text behind the product's name.
pub proof fn version_is_the_named_text(
    answer: Answer,
    result: Result<Option<String>, String>,
    document: JsonView,
)
    requires
        call_ensures(load_version, (answer,), result),
        answer matches Answer::Received { status, body } && 200 <= status_code(status) <= 299
            && json::parsed(body@) == Ok::<JsonView, Seq<char>>(document),
    ensures
        forall|version: Seq<char>| #[trigger]
            document.holds("version"@, JsonView::Text(version)) ==> (result matches Ok(Some(shown))
                && shown@ == "Qdrant "@ + version),
        document.lacks("version"@) ==> (result matches Ok(None)),
        forall|other: JsonView| #[trigger]
            document.holds("version"@, other) && !(other is Text) ==> (result matches Ok(None)),
{
}

/// A successful answer that is no JSON names no version.
pub proof fn unreadable_document_names_no_version(
    answer: Answer,
    result: Result<Option<String>, String>,
)
    requires
        call_ensures(load_version, (answer,), result),
        answer matches Answer::Received { status, body } && 200 <= status_code(status) <= 299
            && json::parsed(body@) is Err,
    ensures
        result matches Ok(None),
{
}

/// What a document says under `version` is the whole of what is read in it.
pub proof fn version_in_is_the_named_text(value: &Json, version: Option<String>)
    requires
        call_ensures(version_in, (value,), version),
    ensures
        forall|named: Seq<char>| #[trigger]
            value@.holds("version"@, JsonView::Text(named)) ==> (version matches Some(shown)
                && shown@ == "Qdrant "@ + named),
        value@.lacks("version"@) ==> version is None,
        forall|other: JsonView| #[trigger]
            value@.holds("version"@, other) && !(other is Text) ==> version is None,
{
}

/// A result is truncated exactly if the answer's result holds something other
/// than `null` under `next_page_offset`, of whatever kind it is.
pub proof fn further_page_means_truncated(value: Json, output: QueryOutput, result: JsonView)
    requires
        call_ensures(points_to_output, (value,), output),
        value@.holds("result"@, result),
    ensures
        forall|offset: JsonView| #[trigger]
            result.holds("next_page_offset"@, offset) ==> output.2 == (offset != JsonView::Null),
        result.lacks("next_page_offset"@) ==> !output.2,
        forall|offset: Seq<char>| #[trigger]
            result.holds("next_page_offset"@, JsonView::Text(offset)) ==> output.2,
        forall|offset: u64| #[trigger]
            result.holds("next_page_offset"@, JsonView::Unsigned(offset)) ==> output.2,
{
}

/// An answer without a result has no rows and is not truncated.
pub proof fn answer_without_result_is_empty(value: Json, output: QueryOutput)
    requires
        call_ensures(points_to_output, (value,), output),
        value@.lacks("result"@),
    ensures
        output.1@.len() == 0,
        !output.2,
{
    assert(output_view(output).rows.len() == output.1@.len());
}

/// Whether a cell holds what a point holds under `key`, and `null` where the point
/// holds nothing.
pub open spec fn cell_shows(cell: JsonView, point: JsonView, key: Seq<char>) -> bool {
    &&& forall|member: JsonView| #[trigger] point.holds(key, member) ==> cell == member
    &&& point.lacks(key) ==> cell == JsonView::Null
}

/// The rows are the answer's points, all of them and in their order, each with
/// what it holds as id, payload and vector; without an array of points there are
/// none.
pub proof fn rows_are_the_points(
    value: Json,
    output: QueryOutput,
    result: JsonView,
    points: Seq<JsonView>,
)
    requires
        call_ensures(points_to_output, (value,), output),
        value@.holds("result"@, result),
    ensures
        output.0@.len() == 3,
        output.0@[0]@ == "id"@,
        output.0@[1]@ == "payload"@,
        output.0@[2]@ == "vector"@,
        result.holds("points"@, JsonView::Array(points)) ==> output.1@.len() == points.len(),
        result.holds("points"@, JsonView::Array(points)) ==> (forall|i: int|
            0 <= i < points.len() ==> {
                let row = #[trigger] output.1@[i];
                &&& row@.len() == 3
                &&& cell_shows(row@[0]@, points[i], "id"@)
                &&& cell_shows(row@[1]@, points[i], "payload"@)
                &&& cell_shows(row@[2]@, points[i], "vector"@)
            }),
        result.lacks("points"@) ==> output.1@.len() == 0,
        forall|other: JsonView| #[trigger]
            result.holds("points"@, other) && !(other is Array) ==> output.1@.len() == 0,
{
    let view = output_view(output);
    assert(view.columns.len() == 3);
    assert(view.columns[0] == output.0@[0]@ && view.columns[1] == output.0@[1]@ && view.columns[2]
        == output.0@[2]@);
    assert(view.rows.len() == output.1@.len());
    if result.holds("points"@, JsonView::Array(points)) {
        assert forall|i: int| 0 <= i < points.len() implies {
            let row = #[trigger] output.1@[i];
            &&& row@.len() == 3
            &&& cell_shows(row@[0]@, points[i], "id"@)
            &&& cell_shows(row@[1]@, points[i], "payload"@)
            &&& cell_shows(row@[2]@, points[i], "vector"@)
        } by {
            let row = output.1@[i];
            assert(view.rows[i] == row_of(points[i]));
            assert(json::items_view(row@) == row_of(points[i]));
            assert(json::items_view(row@).len() == row@.len());
            assert(json::items_view(row@)[0] == row@[0]@);
            assert(json::items_view(row@)[1] == row@[1]@);
            assert(json::items_view(row@)[2] == row@[2]@);
        }
    }
}

/// The points of an answer are read as [`points_to_output`] reads its document,
/// and a failed request, a code outside 200 to 299 or a body that is no JSON is a
/// failure that tells which.
pub proof fn scroll_reads_the_document(
    answer: Answer,
    result: Result<QueryOutput, String>,
    value: Json,
    output: QueryOutput,
)
    requires
        call_ensures(run_scroll, (answer,), result),
        call_ensures(points_to_output, (value,), output),
    ensures
        match answer {
            Answer::SendFailed(reason) => result matches Err(message) && message@
                == "Qdrant scroll request failed: "@ + reason@,
            Answer::ReadFailed(reason) => result matches Err(message) && message@
                == "Qdrant scroll response read failed: "@ + reason@,
            Answer::Received { status, body } => if status_code(status) < 200 || status_code(status)
                > 299 {
                result matches Err(message) && message@ == "Qdrant scroll returned HTTP "@
                    + status_text(status_code(status)) + ": "@ + body@
            } else {
                match json::parsed(body@) {
                    Err(reason) => result matches Err(message) && message@
                        == "Qdrant scroll JSON parse failed: "@ + reason + ": "@ + body@,
                    Ok(document) => result is Ok && (document == value@ ==> output_view(
                        result->Ok_0,
                    ) == output_view(output)),
                }
            },
        },
{
}

}
