//! JSON values as the driver reads and writes them.
//!
//! A [`Json`] holds what a `serde_json::Value` holds, as plain data. Contracts
//! speak of it through [`JsonView`], in which an object is a map.

use vstd::prelude::*;

use crate::text;

verus! {

/// A JSON number of `serde_json`, carried as it is.
#[verifier::external_type_specification]
#[verifier::external_body]
pub struct ExNumber(serde_json::Number);

/// A JSON value of `serde_json`.
#[verifier::external_type_specification]
#[verifier::external_body]
pub struct ExValue(serde_json::Value);

/// The error of a failed parse.
#[verifier::external_type_specification]
#[verifier::external_body]
pub struct ExJsonError(serde_json::Error);

/// The integer that a number holds if it is one between zero and `u64::MAX`,
/// as `serde_json::Number::as_u64` tells it.
pub uninterp spec fn unsigned_of(number: serde_json::Number) -> Option<u64>;

/// The JSON tree that a `serde_json::Value` holds.
pub uninterp spec fn json_of(value: serde_json::Value) -> JsonView;

/// The message that a `serde_json::Error` displays.
pub uninterp spec fn json_error_text(error: serde_json::Error) -> Seq<char>;

/// What `serde_json::from_str` reads a text as: a tree, or the message of the
/// error.
pub uninterp spec fn parsed(text: Seq<char>) -> Result<JsonView, Seq<char>>;

/// A JSON value.
pub enum Json {
    Null,
    Bool(bool),
    Number(serde_json::Number),
    Text(String),
    Array(Vec<Json>),
    Object(JsonObject),
}

/// The members of a JSON object. Where a key occurs more than once, the last
/// entry counts.
pub struct JsonObject {
    pub entries: Vec<(String, Json)>,
}

/// The mathematical content of a [`Json`].
#[verifier::ext_equal]
pub enum JsonView {
    Null,
    Bool(bool),
    Unsigned(u64),
    Number(serde_json::Number),
    Text(Seq<char>),
    Array(Seq<JsonView>),
    Object(Map<Seq<char>, JsonView>),
}

impl JsonView {
    /// The member under `key`, of an object that has one.
    pub open spec fn get(self, key: Seq<char>) -> Option<JsonView> {
        match self {
            JsonView::Object(members) => if members.contains_key(key) {
                Some(members[key])
            } else {
                None
            },
            _ => None,
        }
    }

    /// The text, if this is one.
    pub open spec fn as_text(self) -> Option<Seq<char>> {
        match self {
            JsonView::Text(text) => Some(text),
            _ => None,
        }
    }

    /// The items, if this is an array.
    pub open spec fn as_items(self) -> Option<Seq<JsonView>> {
        match self {
            JsonView::Array(items) => Some(items),
            _ => None,
        }
    }
}

/// The content of a number: the integer it holds, or the number itself.
pub open spec fn number_view(number: serde_json::Number) -> JsonView {
    match unsigned_of(number) {
        Some(value) => JsonView::Unsigned(value),
        None => JsonView::Number(number),
    }
}

/// The contents of a sequence of values.
pub open spec fn items_view(items: Seq<Json>) -> Seq<JsonView>
    decreases items,
{
    Seq::new(
        items.len(),
        |i: int|
            if 0 <= i < items.len() {
                items[i].view()
            } else {
                JsonView::Null
            },
    )
}

/// The members that a sequence of entries stands for.
pub open spec fn entries_view(entries: Seq<(String, Json)>) -> Map<Seq<char>, JsonView>
    decreases entries,
{
    if entries.len() == 0 {
        Map::empty()
    } else {
        entries_view(entries.drop_last()).insert(entries.last().0@, entries.last().1.view())
    }
}

impl Json {
    /// The content of this value.
    pub open spec fn view(&self) -> JsonView
        decreases self,
    {
        match self {
            Json::Null => JsonView::Null,
            Json::Bool(flag) => JsonView::Bool(*flag),
            Json::Number(number) => number_view(*number),
            Json::Text(text) => JsonView::Text(text@),
            Json::Array(items) => JsonView::Array(items_view(items@)),
            Json::Object(members) => JsonView::Object(entries_view(members.entries@)),
        }
    }
}

impl JsonObject {
    /// The members as a map.
    pub open spec fn view(&self) -> Map<Seq<char>, JsonView> {
        entries_view(self.entries@)
    }

    /// An object without members.
    pub fn new() -> (object: JsonObject)
        ensures
            object@ == Map::<Seq<char>, JsonView>::empty(),
    {
        JsonObject { entries: Vec::new() }
    }

    /// Sets the member under `key`.
    pub fn insert(&mut self, key: &str, value: Json)
        ensures
            final(self)@ == old(self)@.insert(key@, value@),
    {
        let ghost before = self.entries@;
        self.entries.push((key.to_owned(), value));
        assert(self.entries@.drop_last() =~= before);
    }

    /// The member under `key`.
    pub fn get(&self, key: &str) -> (member: Option<&Json>)
        ensures
            match member {
                Some(value) => self@.contains_key(key@) && self@[key@] == value@,
                None => !self@.contains_key(key@),
            },
    {
        let mut i: usize = self.entries.len();
        assert(self.entries@.take(i as int) =~= self.entries@);
        while 0 < i
            invariant
                i <= self.entries@.len(),
                self@.contains_key(key@) == entries_view(
                    self.entries@.take(i as int),
                ).contains_key(key@),
                self@.contains_key(key@) ==> self@[key@] == entries_view(
                    self.entries@.take(i as int),
                )[key@],
            decreases i,
        {
            i -= 1;
            let ghost seen = self.entries@.take(i + 1);
            assert(seen.drop_last() =~= self.entries@.take(i as int));
            assert(seen.last() == self.entries@[i as int]);
            if text::same(self.entries[i].0.as_str(), key) {
                return Some(&self.entries[i].1);
            }
        }
        None
    }
}

impl Json {
    /// The member under `key`, of an object that has one.
    pub fn get(&self, key: &str) -> (member: Option<&Json>)
        ensures
            match member {
                Some(value) => self@.get(key@) == Some(value@),
                None => self@.get(key@) is None,
            },
    {
        match self {
            Json::Object(members) => members.get(key),
            _ => None,
        }
    }

    /// The text, if this is one.
    pub fn as_str(&self) -> (result: Option<&str>)
        ensures
            match result {
                Some(text) => self@.as_text() == Some(text@),
                None => self@.as_text() is None,
            },
    {
        match self {
            Json::Text(text) => Some(text.as_str()),
            _ => None,
        }
    }

    /// The items, if this is an array.
    pub fn as_array(&self) -> (result: Option<&Vec<Json>>)
        ensures
            match result {
                Some(items) => self@.as_items() == Some(items_view(items@)),
                None => self@.as_items() is None,
            },
    {
        match self {
            Json::Array(items) => Some(items),
            _ => None,
        }
    }

    /// Whether this is `null`.
    pub fn is_null(&self) -> (result: bool)
        ensures
            result == (self@ == JsonView::Null),
    {
        match self {
            Json::Null => true,
            _ => false,
        }
    }

    /// A JSON text.
    pub fn text(text: &str) -> (json: Json)
        ensures
            json@ == JsonView::Text(text@),
    {
        Json::Text(text.to_owned())
    }

    /// A JSON integer.
    pub fn unsigned(value: u64) -> (json: Json)
        ensures
            json@ == JsonView::Unsigned(value),
    {
        Json::Number(number_from(value))
    }
}

/// `<serde_json::Number as From<u64>>::from`: the number that holds `value`.
#[verifier::external_body]
fn number_from(value: u64) -> (number: serde_json::Number)
    ensures
        unsigned_of(number) == Some(value),
{
    serde_json::Number::from(value)
}

/// `<serde_json::Number as Clone>::clone`: the same number.
pub assume_specification[ <serde_json::Number as Clone>::clone ](
    number: &serde_json::Number,
) -> (copy: serde_json::Number)
    ensures
        copy == *number,
;

impl Clone for Json {
    fn clone(&self) -> (copy: Json)
        ensures
            copy@ == self@,
        decreases self,
    {
        match self {
            Json::Null => Json::Null,
            Json::Bool(flag) => Json::Bool(*flag),
            Json::Number(number) => Json::Number(number.clone()),
            Json::Text(text) => Json::Text(text.clone()),
            Json::Array(items) => Json::Array(clone_items(items)),
            Json::Object(members) => Json::Object(members.clone()),
        }
    }
}

impl Clone for JsonObject {
    fn clone(&self) -> (copy: JsonObject)
        ensures
            copy@ == self@,
        decreases self,
    {
        let mut entries: Vec<(String, Json)> = Vec::new();
        let mut i: usize = 0;
        while i < self.entries.len()
            invariant
                i <= self.entries@.len(),
                entries_view(entries@) == entries_view(self.entries@.take(i as int)),
            decreases self.entries@.len() - i,
        {
            let ghost before = entries@;
            let value = self.entries[i].1.clone();
            entries.push((self.entries[i].0.clone(), value));
            assert(entries@.drop_last() =~= before);
            assert(self.entries@.take(i + 1).drop_last() =~= self.entries@.take(i as int));
            i += 1;
        }
        assert(self.entries@.take(i as int) =~= self.entries@);
        JsonObject { entries }
    }
}

fn clone_items(items: &Vec<Json>) -> (copies: Vec<Json>)
    ensures
        items_view(copies@) == items_view(items@),
    decreases items,
{
    let mut copies: Vec<Json> = Vec::new();
    let mut i: usize = 0;
    while i < items.len()
        invariant
            i <= items@.len(),
            copies@.len() == i,
            forall|k: int| 0 <= k < i ==> (#[trigger] copies@[k])@ == items@[k]@,
        decreases items@.len() - i,
    {
        copies.push(items[i].clone());
        i += 1;
    }
    assert(items_view(copies@) =~= items_view(items@));
    copies
}

/// One level of a `serde_json::Value`.
enum Node {
    Null,
    Bool(bool),
    Number(serde_json::Number),
    Text(String),
    Array(Vec<serde_json::Value>),
    Object(Vec<(String, serde_json::Value)>),
}

/// The members that a sequence of keyed values stands for.
pub open spec fn members_of(entries: Seq<(String, serde_json::Value)>) -> Map<Seq<char>, JsonView>
    decreases entries.len(),
{
    if entries.len() == 0 {
        Map::empty()
    } else {
        members_of(entries.drop_last()).insert(entries.last().0@, json_of(entries.last().1))
    }
}

/// Whether no two entries have the same key.
pub open spec fn distinct_keys(entries: Seq<(String, serde_json::Value)>) -> bool {
    forall|i: int, j: int|
        0 <= i < j < entries.len() ==> (#[trigger] entries[i]).0@ != (#[trigger] entries[j]).0@
}

spec fn node_view(node: Node) -> JsonView {
    match node {
        Node::Null => JsonView::Null,
        Node::Bool(flag) => JsonView::Bool(flag),
        Node::Number(number) => number_view(number),
        Node::Text(text) => JsonView::Text(text@),
        Node::Array(items) => JsonView::Array(
            items@.map_values(|item: serde_json::Value| json_of(item)),
        ),
        Node::Object(entries) => JsonView::Object(members_of(entries@)),
    }
}

/// The variants of `serde_json::Value`, told apart: the tree that a value holds
/// is what its variant says, and the keys of an object's `serde_json::Map`,
/// taken out by its `into_iter`, are distinct.
#[verifier::external_body]
fn open_value(value: serde_json::Value) -> (node: Node)
    ensures
        node_view(node) == json_of(value),
        node matches Node::Object(entries) ==> distinct_keys(entries@),
{
    match value {
        serde_json::Value::Null => Node::Null,
        serde_json::Value::Bool(flag) => Node::Bool(flag),
        serde_json::Value::Number(number) => Node::Number(number),
        serde_json::Value::String(text) => Node::Text(text),
        serde_json::Value::Array(items) => Node::Array(items),
        serde_json::Value::Object(members) => Node::Object(members.into_iter().collect()),
    }
}

proof fn lemma_member(entries: Seq<(String, serde_json::Value)>, i: int)
    requires
        0 <= i < entries.len(),
        distinct_keys(entries),
    ensures
        members_of(entries).dom().finite(),
        members_of(entries).contains_key(entries[i].0@),
        members_of(entries)[entries[i].0@] == json_of(entries[i].1),
    decreases entries.len(),
{
    let front = entries.drop_last();
    if front.len() > 0 {
        assert forall|a: int, b: int| 0 <= a < b < front.len() implies (#[trigger] front[a]).0@
            != (#[trigger] front[b]).0@ by {
            assert(entries[a].0@ != entries[b].0@);
        }
        if i < front.len() {
            lemma_member(front, i);
            assert(entries[i].0@ != entries[entries.len() - 1].0@);
        } else {
            lemma_member(front, 0);
        }
    } else {
        assert(members_of(front).dom().finite());
    }
}

impl Json {
    /// What a `serde_json::Value` holds, as plain data.
    pub fn from_value(value: serde_json::Value) -> (json: Json)
        ensures
            json@ == json_of(value),
        decreases json_of(value),
    {
        let ghost whole = json_of(value);
        match open_value(value) {
            Node::Null => Json::Null,
            Node::Bool(flag) => Json::Bool(flag),
            Node::Number(number) => Json::Number(number),
            Node::Text(text) => Json::Text(text),
            Node::Array(values) => {
                let ghost contents = values@.map_values(|item: serde_json::Value| json_of(item));
                let mut items: Vec<Json> = Vec::new();
                for item in it: values
                    invariant
                        it.seq() == values@,
                        whole == json_of(value),
                        whole == JsonView::Array(contents),
                        contents == values@.map_values(|item: serde_json::Value| json_of(item)),
                        items@.len() == it.index(),
                        forall|k: int| 0 <= k < items@.len() ==> (#[trigger] items@[k])@ == contents[k],
                {
                    assert(item == values@[it.index() as int]);
                    assert(contents[it.index() as int] == json_of(item));
                    assert(decreases_to!(whole => whole->Array_0));
                    assert(decreases_to!(whole->Array_0 => whole->Array_0[it.index() as int]));
                    items.push(Json::from_value(item));
                }
                assert(items_view(items@) =~= contents);
                Json::Array(items)
            },
            Node::Object(values) => {
                let mut entries: Vec<(String, Json)> = Vec::new();
                assert(values@.take(0) =~= Seq::empty());
                for entry in it: values
                    invariant
                        it.seq() == values@,
                        whole == json_of(value),
                        whole == JsonView::Object(members_of(values@)),
                        distinct_keys(values@),
                        entries_view(entries@) == members_of(values@.take(it.index() as int)),
                {
                    let ghost before = entries@;
                    proof {
                        lemma_member(values@, it.index() as int);
                    }
                    assert(entry == values@[it.index() as int]);
                    assert(decreases_to!(whole => whole->Object_0));
                    assert(decreases_to!(whole->Object_0 => whole->Object_0[entry.0@]));
                    let item = Json::from_value(entry.1);
                    entries.push((entry.0, item));
                    assert(entries@.drop_last() =~= before);
                    assert(values@.take(it.index() + 1).drop_last() =~= values@.take(it.index() as int));
                }
                assert(values@.take(values@.len() as int) =~= values@);
                Json::Object(JsonObject { entries })
            },
        }
    }
}

/// `serde_json::from_str` at the type `serde_json::Value`: the tree that the
/// text spells, or the error. Equal texts give equal trees and equal messages.
#[verifier::external_body]
fn read_value(source: &str) -> (result: Result<serde_json::Value, serde_json::Error>)
    ensures
        match result {
            Ok(value) => parsed(source@) == Ok::<JsonView, Seq<char>>(json_of(value)),
            Err(error) => parsed(source@) == Err::<JsonView, Seq<char>>(json_error_text(error)),
        },
{
    serde_json::from_str(source)
}

/// The `Display` of a `serde_json::Error`: its message.
#[verifier::external_body]
fn error_message(error: &serde_json::Error) -> (message: String)
    ensures
        message@ == json_error_text(*error),
{
    error.to_string()
}

/// Reads a JSON text; on failure, the message of the error.
pub fn parse(source: &str) -> (result: Result<Json, String>)
    ensures
        match result {
            Ok(json) => parsed(source@) == Ok::<JsonView, Seq<char>>(json@),
            Err(message) => parsed(source@) == Err::<JsonView, Seq<char>>(message@),
        },
{
    match read_value(source) {
        Ok(value) => Ok(Json::from_value(value)),
        Err(error) => Err(error_message(&error)),
    }
}

/// What a text is read as where a text that is no JSON counts as `null`.
pub open spec fn parsed_or_null(text: Seq<char>) -> JsonView {
    match parsed(text) {
        Ok(tree) => tree,
        Err(_) => JsonView::Null,
    }
}

/// Reads a JSON text; one that is no JSON counts as `null`.
pub fn parse_or_null(source: &str) -> (json: Json)
    ensures
        json@ == parsed_or_null(source@),
{
    match parse(source) {
        Ok(json) => json,
        Err(_) => Json::Null,
    }
}

impl JsonView {
    /// Whether this is an object that holds `member` under `key`.
    pub open spec fn holds(self, key: Seq<char>, member: JsonView) -> bool {
        self matches JsonView::Object(members) && members.contains_key(key) && members[key]
            == member
    }

    /// Whether this is no object, or one with nothing under `key`.
    pub open spec fn lacks(self, key: Seq<char>) -> bool {
        self matches JsonView::Object(members) ==> !members.contains_key(key)
    }
}

/// The content of a value is what its variant carries.
pub proof fn content_is_what_the_variant_carries(json: Json)
    ensures
        json is Null ==> json@ == JsonView::Null,
        json matches Json::Bool(flag) ==> json@ == JsonView::Bool(flag),
        json matches Json::Number(number) ==> (match unsigned_of(number) {
            Some(value) => json@ == JsonView::Unsigned(value),
            None => json@ == JsonView::Number(number),
        }),
        json matches Json::Text(text) ==> json@ == JsonView::Text(text@),
        json matches Json::Array(items) ==> {
            &&& json@ is Array
            &&& json@->Array_0.len() == items@.len()
            &&& forall|i: int|
                0 <= i < items@.len() ==> #[trigger] json@->Array_0[i] == items@[i]@
        },
        json matches Json::Object(members) ==> json@ == JsonView::Object(members@),
{
}

proof fn lemma_entry_counts(entries: Seq<(String, Json)>, i: int)
    requires
        0 <= i < entries.len(),
        forall|j: int| i < j < entries.len() ==> (#[trigger] entries[j]).0@ != entries[i].0@,
    ensures
        entries_view(entries).contains_key(entries[i].0@),
        entries_view(entries)[entries[i].0@] == entries[i].1@,
    decreases entries.len(),
{
    let front = entries.drop_last();
    if i < front.len() {
        assert(entries[entries.len() - 1].0@ != entries[i].0@);
        assert forall|j: int| i < j < front.len() implies (#[trigger] front[j]).0@
            != front[i].0@ by {
            assert(front[j] == entries[j]);
        }
        lemma_entry_counts(front, i);
    }
}

proof fn lemma_entry_absent(entries: Seq<(String, Json)>, key: Seq<char>)
    requires
        forall|j: int| 0 <= j < entries.len() ==> (#[trigger] entries[j]).0@ != key,
    ensures
        !entries_view(entries).contains_key(key),
    decreases entries.len(),
{
    if entries.len() > 0 {
        let front = entries.drop_last();
        assert(entries[entries.len() - 1].0@ != key);
        assert forall|j: int| 0 <= j < front.len() implies (#[trigger] front[j]).0@ != key by {
            assert(front[j] == entries[j]);
        }
        lemma_entry_absent(front, key);
    }
}

/// An object holds, under each key, what its last entry with that key says, and
/// nothing under a key that no entry has.
pub proof fn last_entry_counts(object: JsonObject, key: Seq<char>)
    ensures
        forall|i: int|
            0 <= i < object.entries@.len() && (#[trigger] object.entries@[i]).0@ == key && (forall|
                j: int,
            |
                i < j < object.entries@.len() ==> (#[trigger] object.entries@[j]).0@ != key)
                ==> object@.contains_key(key) && object@[key] == object.entries@[i].1@,
        (forall|j: int|
            0 <= j < object.entries@.len() ==> (#[trigger] object.entries@[j]).0@ != key)
            ==> !object@.contains_key(key),
{
    let entries = object.entries@;
    assert forall|i: int|
        0 <= i < entries.len() && (#[trigger] entries[i]).0@ == key && (forall|j: int|
            i < j < entries.len() ==> (#[trigger] entries[j]).0@ != key) implies
        object@.contains_key(key) && object@[key] == entries[i].1@ by {
        lemma_entry_counts(entries, i);
    }
    if forall|j: int| 0 <= j < entries.len() ==> (#[trigger] entries[j]).0@ != key {
        lemma_entry_absent(entries, key);
    }
}

/// A member is found under its key, whatever it is, and nothing is found where
/// there is none.
pub proof fn member_is_found(json: &Json, key: &str, found: Option<&Json>)
    requires
        call_ensures(Json::get, (json, key), found),
    ensures
        found matches Some(member) ==> json@.holds(key@, member@),
        found is None ==> json@.lacks(key@),
{
}

/// Each value is told by its kind: texts are read as texts, arrays as arrays with
/// all their items, and `null` alone as `null`.
pub proof fn kinds_are_told_apart(
    json: &Json,
    text: Option<&str>,
    items: Option<&Vec<Json>>,
    null: bool,
)
    requires
        call_ensures(Json::as_str, (json,), text),
        call_ensures(Json::as_array, (json,), items),
        call_ensures(Json::is_null, (json,), null),
    ensures
        json@ matches JsonView::Text(expected) ==> (text matches Some(found) && found@
            == expected),
        !(json@ is Text) ==> text is None,
        json@ is Array <==> items is Some,
        items matches Some(found) ==> json@->Array_0.len() == found@.len() && (forall|i: int|
            0 <= i < found@.len() ==> #[trigger] json@->Array_0[i] == found@[i]@),
        null == (json@ == JsonView::Null),
{
}

/// A text that is JSON is read as what it spells, and any other as `null`.
pub proof fn unreadable_text_counts_as_null(source: &str, json: Json)
    requires
        call_ensures(parse_or_null, (source,), json),
    ensures
        parsed(source@) matches Ok(tree) ==> json@ == tree,
        parsed(source@) is Err ==> json@ == JsonView::Null,
{
}

}
