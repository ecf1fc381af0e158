//! A plain model of a JSON document. The text is read by `serde_json`; the
//! document is copied into the model, on which the lookups are verified.

use vstd::prelude::*;

verus! {

/// A number of a JSON document, as far as it is an integer.
#[derive(Debug, Clone, Copy)]
pub struct JsonNumber {
    /// The number, if it is an integer from 0 to `u64::MAX`.
    pub unsigned: Option<u64>,
    /// The number, if it is an integer from `i64::MIN` to `i64::MAX`.
    pub signed: Option<i64>,
}

/// A JSON document. The members of an object are kept in a list; a lookup
/// takes the first member with the key.
#[derive(Debug)]
pub enum Json {
    Null,
    Bool(bool),
    Number(JsonNumber),
    Text(String),
    Array(Vec<Json>),
    Object(Vec<(String, Json)>),
}

/// The mathematical content of a [`Json`].
pub enum JsonView {
    Null,
    Bool(bool),
    Number(JsonNumber),
    Text(Seq<char>),
    Array(Seq<JsonView>),
    Object(Seq<(Seq<char>, JsonView)>),
}

impl View for Json {
    type V = JsonView;

    open spec fn view(&self) -> JsonView
        decreases self,
    {
        match self {
            Json::Null => JsonView::Null,
            Json::Bool(flag) => JsonView::Bool(*flag),
            Json::Number(number) => JsonView::Number(*number),
            Json::Text(text) => JsonView::Text(text@),
            Json::Array(items) => JsonView::Array(json_items_view(*items)),
            Json::Object(members) => JsonView::Object(json_members_view(*members)),
        }
    }
}

/// The content of the items of an array, in the same order.
pub open spec fn json_items_view(items: Vec<Json>) -> Seq<JsonView>
    decreases items,
{
    Seq::new(
        items.len() as nat,
        |i: int|
            if 0 <= i < items.len() {
                items[i]@
            } else {
                arbitrary()
            },
    )
}

/// The content of the members of an object, in the same order.
pub open spec fn json_members_view(members: Vec<(String, Json)>) -> Seq<(Seq<char>, JsonView)>
    decreases members,
{
    Seq::new(
        members.len() as nat,
        |i: int|
            if 0 <= i < members.len() {
                (members[i].0@, members[i].1@)
            } else {
                arbitrary()
            },
    )
}

/// The first member with the key, if there is one.
pub open spec fn find_member(members: Seq<(Seq<char>, JsonView)>, key: Seq<char>) -> Option<
    JsonView,
>
    decreases members.len(),
{
    if members.len() == 0 {
        None
    } else if members[0].0 == key {
        Some(members[0].1)
    } else {
        find_member(members.drop_first(), key)
    }
}

impl JsonView {
    /// The member of an object with this key. What is no object has no
    /// members.
    pub open spec fn member(self, key: Seq<char>) -> Option<JsonView> {
        match self {
            JsonView::Object(members) => find_member(members, key),
            _ => None,
        }
    }

    /// The text, if the document is a text.
    pub open spec fn as_text(self) -> Option<Seq<char>> {
        match self {
            JsonView::Text(text) => Some(text),
            _ => None,
        }
    }

    /// The number, if the document is an integer from 0 to `u64::MAX`.
    pub open spec fn as_u64(self) -> Option<u64> {
        match self {
            JsonView::Number(number) => number.unsigned,
            _ => None,
        }
    }

    /// The number, if the document is an integer from `i64::MIN` to
    /// `i64::MAX`.
    pub open spec fn as_i64(self) -> Option<i64> {
        match self {
            JsonView::Number(number) => number.signed,
            _ => None,
        }
    }

    /// The items, if the document is an array.
    pub open spec fn as_array(self) -> Option<Seq<JsonView>> {
        match self {
            JsonView::Array(items) => Some(items),
            _ => None,
        }
    }
}

/// The text of a member, if the document has one with this key and it is a
/// text.
pub open spec fn member_text(json: JsonView, key: Seq<char>) -> Option<Seq<char>> {
    match json.member(key) {
        Some(member) => member.as_text(),
        None => None,
    }
}

/// The number of a member, if the document has one with this key and it is an
/// integer from 0 to `u64::MAX`.
pub open spec fn member_u64(json: JsonView, key: Seq<char>) -> Option<u64> {
    match json.member(key) {
        Some(member) => member.as_u64(),
        None => None,
    }
}

/// The number of a member, if the document has one with this key and it is an
/// integer from `i64::MIN` to `i64::MAX`.
pub open spec fn member_i64(json: JsonView, key: Seq<char>) -> Option<i64> {
    match json.member(key) {
        Some(member) => member.as_i64(),
        None => None,
    }
}

/// The items of a member, if the document has one with this key and it is an
/// array.
pub open spec fn member_array(json: JsonView, key: Seq<char>) -> Option<Seq<JsonView>> {
    match json.member(key) {
        Some(member) => member.as_array(),
        None => None,
    }
}

impl Json {
    /// The member of an object with this key: the first, if the list holds
    /// several. What is no object has no members.
    pub fn member(&self, key: &str) -> (found: Option<&Json>)
        ensures
            match found {
                Some(member) => self@.member(key@) == Some(member@),
                None => self@.member(key@) is None,
            },
    {
        match self {
            Json::Object(members) => {
                let wanted = String::from_str(key);
                let ghost all = json_members_view(*members);
                let mut i: usize = 0;
                assert(all.skip(0) =~= all);
                while i < members.len()
                    invariant
                        i <= members.len(),
                        all == json_members_view(*members),
                        self@ == JsonView::Object(all),
                        wanted@ == key@,
                        find_member(all, key@) == find_member(all.skip(i as int), key@),
                    decreases members.len() - i,
                {
                    assert(all.skip(i as int).drop_first() =~= all.skip(i + 1));
                    if members[i].0 == wanted {
                        return Some(&members[i].1);
                    }
                    i += 1;
                }
                None
            },
            _ => None,
        }
    }

    /// The text, if the document is a text.
    pub fn as_str(&self) -> (text: Option<&str>)
        ensures
            match text {
                Some(t) => self@.as_text() == Some(t@),
                None => self@.as_text() is None,
            },
    {
        match self {
            Json::Text(text) => Some(text.as_str()),
            _ => None,
        }
    }

    /// The number, if the document is an integer from 0 to `u64::MAX`.
    pub fn as_u64(&self) -> (number: Option<u64>)
        ensures
            number == self@.as_u64(),
    {
        match self {
            Json::Number(number) => number.unsigned,
            _ => None,
        }
    }

    /// The number, if the document is an integer from `i64::MIN` to
    /// `i64::MAX`.
    pub fn as_i64(&self) -> (number: Option<i64>)
        ensures
            number == self@.as_i64(),
    {
        match self {
            Json::Number(number) => number.signed,
            _ => None,
        }
    }

    /// The items, if the document is an array.
    pub fn as_array(&self) -> (items: Option<&Vec<Json>>)
        ensures
            match items {
                Some(list) => self@.as_array() == Some(json_items_view(*list)),
                None => self@.as_array() is None,
            },
    {
        match self {
            Json::Array(items) => Some(items),
            _ => None,
        }
    }
}

/// `serde_json::Value`, of which nothing is known here but what
/// [`json_model`] names.
#[verifier::external_type_specification]
#[verifier::external_body]
pub struct ExValue(serde_json::Value);

/// What a `serde_json::Value` holds.
pub uninterp spec fn json_model(value: serde_json::Value) -> JsonView;

/// What `serde_json::from_str` makes of a text: the document, or what it has
/// to say against the text.
pub uninterp spec fn json_text_model(text: Seq<char>) -> Result<JsonView, Seq<char>>;

/// The text that `serde_json` writes for a text: quoted and escaped.
pub uninterp spec fn json_literal(text: Seq<char>) -> Seq<char>;

/// One level of a `serde_json::Value`: its variant, with what the variant
/// holds.
enum Opened<'a> {
    Null,
    Bool(bool),
    Number(JsonNumber),
    Text(&'a String),
    Array(&'a Vec<serde_json::Value>),
    Object(Vec<(&'a String, &'a serde_json::Value)>),
}

impl<'a> Opened<'a> {
    spec fn model(self) -> JsonView {
        match self {
            Opened::Null => JsonView::Null,
            Opened::Bool(flag) => JsonView::Bool(flag),
            Opened::Number(number) => JsonView::Number(number),
            Opened::Text(text) => JsonView::Text(text@),
            Opened::Array(items) => JsonView::Array(
                items@.map_values(|item: serde_json::Value| json_model(item)),
            ),
            Opened::Object(members) => JsonView::Object(
                members@.map_values(
                    |member: (&String, &serde_json::Value)| (member.0@, json_model(*member.1)),
                ),
            ),
        }
    }
}

/// Calls `serde_json::from_str` for a `serde_json::Value`. The contract names
/// the outcome: the document read, or the text of the error.
#[verifier::external_body]
fn value_from_str(text: &str) -> (result: Result<serde_json::Value, String>)
    ensures
        match result {
            Ok(value) => json_text_model(text@) == Ok::<JsonView, Seq<char>>(json_model(value)),
            Err(complaint) => json_text_model(text@) == Err::<JsonView, Seq<char>>(complaint@),
        },
{
    serde_json::from_str::<serde_json::Value>(text).map_err(|error| error.to_string())
}

/// Tells the variants of a `serde_json::Value` apart and hands out what the
/// variant holds: a number by `Number::as_u64` and `Number::as_i64`, the
/// members of an object in the order of `Map::iter`. The contract claims that
/// the value holds just that.
#[verifier::external_body]
fn open_value<'a>(value: &'a serde_json::Value) -> (opened: Opened<'a>)
    ensures
        opened.model() == json_model(*value),
{
    match value {
        serde_json::Value::Null => Opened::Null,
        serde_json::Value::Bool(flag) => Opened::Bool(*flag),
        serde_json::Value::Number(n) => Opened::Number(
            JsonNumber { unsigned: n.as_u64(), signed: n.as_i64() },
        ),
        serde_json::Value::String(text) => Opened::Text(text),
        serde_json::Value::Array(items) => Opened::Array(items),
        serde_json::Value::Object(members) => Opened::Object(members.iter().collect()),
    }
}

/// Calls `serde_json::Value::from` on a text and prints the value with
/// `to_string`: the text as JSON writes it, quoted and escaped. The contract
/// names the outcome.
#[verifier::external_body]
pub(crate) fn json_string(text: &str) -> (quoted: String)
    ensures
        quoted@ == json_literal(text@),
{
    serde_json::Value::from(text).to_string()
}

/// Copies a `serde_json::Value` into the model.
fn json_from_value(value: &serde_json::Value) -> (json: Json)
    ensures
        json@ == json_model(*value),
    decreases json_model(*value),
{
    match open_value(value) {
        Opened::Null => Json::Null,
        Opened::Bool(flag) => Json::Bool(flag),
        Opened::Number(number) => Json::Number(number),
        Opened::Text(text) => Json::Text(text.clone()),
        Opened::Array(items) => {
            let ghost models = items@.map_values(|item: serde_json::Value| json_model(item));
            let mut copied: Vec<Json> = Vec::new();
            let mut i: usize = 0;
            while i < items.len()
                invariant
                    i <= items.len(),
                    copied@.len() == i,
                    models == items@.map_values(|item: serde_json::Value| json_model(item)),
                    json_model(*value) == JsonView::Array(models),
                    forall|k: int| 0 <= k < i ==> copied@[k]@ == models[k],
                decreases items.len() - i,
            {
                assert(models[i as int] == json_model(items@[i as int]));
                assert(decreases_to!(json_model(*value) => json_model(*value)->Array_0));
                copied.push(json_from_value(&items[i]));
                i += 1;
            }
            assert(json_items_view(copied) =~= models);
            Json::Array(copied)
        },
        Opened::Object(members) => {
            let ghost models = members@.map_values(
                |member: (&String, &serde_json::Value)| (member.0@, json_model(*member.1)),
            );
            let mut copied: Vec<(String, Json)> = Vec::new();
            let mut i: usize = 0;
            while i < members.len()
                invariant
                    i <= members.len(),
                    copied@.len() == i,
                    models == members@.map_values(
                        |member: (&String, &serde_json::Value)| (member.0@, json_model(*member.1)),
                    ),
                    json_model(*value) == JsonView::Object(models),
                    forall|k: int| 0 <= k < i ==> (copied@[k].0@, copied@[k].1@) == models[k],
                decreases members.len() - i,
            {
                assert(decreases_to!(json_model(*value) => json_model(*value)->Object_0));
                assert(decreases_to!(models[i as int] => models[i as int].1));
                let key = members[i].0.clone();
                let item = json_from_value(members[i].1);
                copied.push((key, item));
                i += 1;
            }
            assert(json_members_view(copied) =~= models);
            Json::Object(copied)
        },
    }
}

/// The content of the outcome of [`parse_json`].
pub open spec fn parsed_view(result: Result<Json, String>) -> Result<JsonView, Seq<char>> {
    match result {
        Ok(json) => Ok(json@),
        Err(complaint) => Err(complaint@),
    }
}

/// Reads a JSON document from a text. A text that is no JSON document gives
/// what the parser has to say against it.
pub fn parse_json(text: &str) -> (result: Result<Json, String>)
    ensures
        parsed_view(result) == json_text_model(text@),
{
    match value_from_str(text) {
        Ok(value) => Ok(json_from_value(&value)),
        Err(complaint) => Err(complaint),
    }
}

} // verus!
