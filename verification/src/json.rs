//! JSON documents, as far as the command protocol reads them.
//!
//! Text is parsed by `serde_json`. What it reads is carried over into [`Json`], a tree
//! of plain values, and everything the protocol decides is decided on that tree.

use vstd::prelude::*;

verus! {

/// The mathematical value of a JSON document.
///
/// Numbers are kept as far as the protocol tells them apart: a natural number below
/// 2^64 with its value, any other number without it. The members of an object are kept
/// in the order in which they are held.
pub enum JsonValue {
    Null,
    Bool(bool),
    Natural(u64),
    OtherNumber,
    Text(Seq<char>),
    Array(Seq<JsonValue>),
    Object(Seq<(Seq<char>, JsonValue)>),
}

impl JsonValue {
    /// The value of the first member called `name`, if this is an object that has one.
    pub open spec fn member(self, name: Seq<char>) -> Option<JsonValue> {
        match self {
            JsonValue::Object(members) => first_named(members, name),
            _ => None,
        }
    }
}

/// The value of the first of `members` that is called `name`.
pub open spec fn first_named(members: Seq<(Seq<char>, JsonValue)>, name: Seq<char>) -> Option<
    JsonValue,
>
    decreases members.len(),
{
    if members.len() == 0 {
        None
    } else if members[0].0 == name {
        Some(members[0].1)
    } else {
        first_named(members.drop_first(), name)
    }
}

/// A JSON document in memory.
#[derive(Debug, PartialEq, Eq)]
pub enum Json {
    Null,
    Bool(bool),
    /// A natural number below 2^64.
    Natural(u64),
    /// A number that is negative, has a fraction or an exponent, or is 2^64 or more.
    OtherNumber,
    Text(String),
    Array(Vec<Json>),
    Object(Vec<(String, Json)>),
}

impl View for Json {
    type V = JsonValue;

    open spec fn view(&self) -> JsonValue
        decreases self,
    {
        match self {
            Json::Null => JsonValue::Null,
            Json::Bool(b) => JsonValue::Bool(*b),
            Json::Natural(n) => JsonValue::Natural(*n),
            Json::OtherNumber => JsonValue::OtherNumber,
            Json::Text(text) => JsonValue::Text(text@),
            Json::Array(items) => JsonValue::Array(
                Seq::new(
                    items@.len(),
                    |i: int|
                        if 0 <= i < items@.len() {
                            items@[i]@
                        } else {
                            JsonValue::Null
                        },
                ),
            ),
            Json::Object(members) => JsonValue::Object(
                Seq::new(
                    members@.len(),
                    |i: int|
                        if 0 <= i < members@.len() {
                            (members@[i].0@, members@[i].1@)
                        } else {
                            (Seq::empty(), JsonValue::Null)
                        },
                ),
            ),
        }
    }
}

/// The value of an object in memory holds, member by member, the names and the values
/// of its members.
pub proof fn lemma_view_of_object(members: Vec<(String, Json)>)
    ensures
        Json::Object(members)@ is Object,
        Json::Object(members)@->Object_0.len() == members@.len(),
        forall|i: int|
            0 <= i < members@.len() ==> (#[trigger] Json::Object(members)@->Object_0[i]) == (
                members@[i].0@,
                members@[i].1@,
            ),
{
    reveal_with_fuel(<Json as View>::view, 2);
}

impl Json {
    /// Parses a text as JSON. Returns nothing where the text is not JSON.
    pub fn parse(text: &str) -> (parsed: Option<Json>)
        ensures
            match parsed {
                Some(json) => parsed_json(text@) == Some(json@),
                None => parsed_json(text@) is None,
            },
    {
        match parse_value(text) {
            Ok(value) => Some(json_from_value(value)),
            Err(_) => None,
        }
    }

    /// Looks up the first member called `name`.
    pub fn member(&self, name: &str) -> (found: Option<&Json>)
        ensures
            match found {
                Some(value) => self@.member(name@) == Some(value@),
                None => self@.member(name@) is None,
            },
    {
        match self {
            Json::Object(members) => {
                let wanted = name.to_owned();
                let ghost all = self@->Object_0;
                proof {
                    lemma_view_of_object(*members);
                    assert(all.skip(0) == all);
                }
                let mut i: usize = 0;
                while i < members.len()
                    invariant
                        i <= members.len(),
                        wanted@ == name@,
                        self@ == JsonValue::Object(all),
                        all.len() == members@.len(),
                        forall|k: int|
                            0 <= k < all.len() ==> (#[trigger] all[k]) == (
                                members@[k].0@,
                                members@[k].1@,
                            ),
                        first_named(all, name@) == first_named(all.skip(i as int), name@),
                    decreases members.len() - i,
                {
                    assert(all.skip(i as int).drop_first() == all.skip(i as int + 1));
                    if members[i].0 == wanted {
                        return Some(&members[i].1);
                    }
                    i += 1;
                }
                None
            },
            _ => None,
        }
    }
}

#[verifier::external_type_specification]
#[verifier::external_body]
pub struct ExJsonError(serde_json::Error);

#[verifier::external_type_specification]
#[verifier::external_body]
pub struct ExJsonTree(serde_json::Value);

/// What `serde_json::from_str` makes of a text: the document it reads, or nothing where
/// it reports an error.
pub uninterp spec fn parsed_json(text: Seq<char>) -> Option<JsonValue>;

/// The document that a `serde_json::Value` holds.
pub uninterp spec fn held_json(value: serde_json::Value) -> JsonValue;

/// Calls `serde_json::from_str` for a `serde_json::Value`. The contract only gives the
/// outcome its name: the same text is read as the same document every time, or refused
/// every time.
#[verifier::external_body]
fn parse_value(text: &str) -> (r: Result<serde_json::Value, serde_json::Error>)
    ensures
        match r {
            Ok(value) => parsed_json(text@) == Some(held_json(value)),
            Err(_) => parsed_json(text@) is None,
        },
{
    serde_json::from_str::<serde_json::Value>(text)
}

/// Carries a `serde_json::Value` over into a [`Json`], variant by variant. Of a number
/// it keeps what `serde_json::Number::as_u64` returns. The contract says that the result
/// is the document that the value holds.
#[verifier::external_body]
fn json_from_value(value: serde_json::Value) -> (json: Json)
    ensures
        json@ == held_json(value),
{
    match value {
        serde_json::Value::Null => Json::Null,
        serde_json::Value::Bool(b) => Json::Bool(b),
        serde_json::Value::Number(n) => n.as_u64().map_or(Json::OtherNumber, Json::Natural),
        serde_json::Value::String(text) => Json::Text(text),
        serde_json::Value::Array(items) => Json::Array(
            items.into_iter().map(json_from_value).collect(),
        ),
        serde_json::Value::Object(members) => Json::Object(
            members.into_iter().map(|(name, value)| (name, json_from_value(value))).collect(),
        ),
    }
}

} // verus!
