//! JSON values as the match statistics feed sends them, and the lookups the
//! feed's handling makes in them.
use vstd::prelude::*;

verus! {

/// A JSON value. Numbers keep the text they were written with.
#[derive(Debug, PartialEq, Eq)]
pub enum JsonValue {
    Null,
    Bool(bool),
    Number(String),
    Str(String),
    Array(Vec<JsonValue>),
    /// The members of an object, in order, each key once.
    Object(Vec<(String, JsonValue)>),
}

/// A value of the JSON library, carried only from its parser to
/// `json_value_from`.
#[verifier::external_type_specification]
#[verifier::external_body]
pub struct ExLibraryJsonValue(serde_json::Value);

/// What `serde_json::from_str` makes of `text` as a JSON value, taken as a
/// plain value: the parsed value as a `JsonValue` (variant for variant,
/// numbers by their text, members in the parsed map's order), or the debug
/// text of the parse error. The conversion to plain values is part of the
/// name because the parser's own value is opaque here.
pub uninterp spec fn json_parse_outcome(text: Seq<char>) -> Result<JsonValue, Seq<char>>;

/// Turns a value of the JSON library into a `JsonValue`, variant for variant:
/// numbers by their text, object members in the library map's order. Nothing
/// is stated of the result here; `parse_json` states what the parse gives.
#[verifier::external_body]
fn json_value_from(value: serde_json::Value) -> JsonValue {
    match value {
        serde_json::Value::Null => JsonValue::Null,
        serde_json::Value::Bool(b) => JsonValue::Bool(b),
        serde_json::Value::Number(n) => JsonValue::Number(n.to_string()),
        serde_json::Value::String(s) => JsonValue::Str(s),
        serde_json::Value::Array(items) => JsonValue::Array(items.into_iter().map(json_value_from).collect()),
        serde_json::Value::Object(members) => JsonValue::Object(
            members.into_iter().map(|(key, member)| (key, json_value_from(member))).collect(),
        ),
    }
}

/// Parses `text` as JSON (calls `serde_json::from_str::<serde_json::Value>`):
/// the contract says that the outcome is the one named by
/// `json_parse_outcome` for the text, the error by its debug text.
#[verifier::external_body]
pub(crate) fn parse_json(text: &str) -> (r: Result<JsonValue, String>)
    ensures
        match r {
            Ok(v) => json_parse_outcome(text@) == Ok::<JsonValue, Seq<char>>(v),
            Err(e) => json_parse_outcome(text@) == Err::<JsonValue, Seq<char>>(e@),
        },
{
    match serde_json::from_str::<serde_json::Value>(text) {
        Ok(value) => Ok(json_value_from(value)),
        Err(err) => Err(format!("{:?}", err)),
    }
}

/// The value of the first member named `key` among `members`, at or after `from`.
pub open spec fn member_value(members: Seq<(String, JsonValue)>, key: Seq<char>, from: int) -> Option<JsonValue>
    decreases members.len() - from,
{
    if from < 0 || from >= members.len() {
        None
    } else if members[from].0@ == key {
        Some(members[from].1)
    } else {
        member_value(members, key, from + 1)
    }
}

/// The member `key` of `value`: `None` where `value` is no object or has no
/// such member (where indexing a JSON value gives null).
pub open spec fn json_member(value: JsonValue, key: Seq<char>) -> Option<JsonValue> {
    match value {
        JsonValue::Object(members) => member_value(members@, key, 0),
        _ => None,
    }
}

/// The member at the end of the path `key1`, `key2` from `value`.
pub open spec fn json_member2(value: JsonValue, key1: Seq<char>, key2: Seq<char>) -> Option<JsonValue> {
    match json_member(value, key1) {
        Some(inner) => json_member(inner, key2),
        None => None,
    }
}

/// The member at the end of the path `key1`, `key2`, `key3` from `value`.
pub open spec fn json_member3(value: JsonValue, key1: Seq<char>, key2: Seq<char>, key3: Seq<char>) -> Option<
    JsonValue,
> {
    match json_member2(value, key1, key2) {
        Some(inner) => json_member(inner, key3),
        None => None,
    }
}

/// The text of a JSON string value; `None` for any other value.
pub open spec fn json_text(value: Option<JsonValue>) -> Option<Seq<char>> {
    match value {
        Some(JsonValue::Str(s)) => Some(s@),
        _ => None,
    }
}

/// Whether indexing gives JSON null: a missing member or a null value.
pub open spec fn json_is_null(value: Option<JsonValue>) -> bool {
    match value {
        None => true,
        Some(JsonValue::Null) => true,
        _ => false,
    }
}

/// The member `key` of `value`, where it is an object that has one.
pub fn get_member<'a>(value: &'a JsonValue, key: &str) -> (r: Option<&'a JsonValue>)
    ensures
        match r {
            Some(v) => json_member(*value, key@) == Some(*v),
            None => json_member(*value, key@) is None,
        },
{
    match value {
        JsonValue::Object(members) => {
            let wanted = String::from_str(key);
            let mut i: usize = 0;
            while i < members.len()
                invariant
                    i <= members.len(),
                    wanted@ == key@,
                    json_member(*value, key@) == member_value(members@, key@, 0),
                    member_value(members@, key@, i as int) == member_value(members@, key@, 0),
                decreases members.len() - i,
            {
                if members[i].0 == wanted {
                    assert(members@[i as int].0@ == key@);
                    assert(member_value(members@, key@, i as int) == Some(members@[i as int].1));
                    return Some(&members[i].1);
                }
                i = i + 1;
            }
            None
        },
        _ => None,
    }
}

/// The member at the end of the path `key1`, `key2` from `value`.
pub fn get_member2<'a>(value: &'a JsonValue, key1: &str, key2: &str) -> (r: Option<&'a JsonValue>)
    ensures
        match r {
            Some(v) => json_member2(*value, key1@, key2@) == Some(*v),
            None => json_member2(*value, key1@, key2@) is None,
        },
{
    match get_member(value, key1) {
        Some(inner) => get_member(inner, key2),
        None => None,
    }
}

/// The member at the end of the path `key1`, `key2`, `key3` from `value`.
pub fn get_member3<'a>(value: &'a JsonValue, key1: &str, key2: &str, key3: &str) -> (r: Option<&'a JsonValue>)
    ensures
        match r {
            Some(v) => json_member3(*value, key1@, key2@, key3@) == Some(*v),
            None => json_member3(*value, key1@, key2@, key3@) is None,
        },
{
    match get_member2(value, key1, key2) {
        Some(inner) => get_member(inner, key3),
        None => None,
    }
}

/// The text of a JSON string value.
pub fn as_text(value: Option<&JsonValue>) -> (r: Option<String>)
    ensures
        match value {
            Some(v) => match r {
                Some(s) => json_text(Some(*v)) == Some(s@),
                None => json_text(Some(*v)) is None,
            },
            None => r is None,
        },
{
    match value {
        Some(JsonValue::Str(s)) => Some(s.clone()),
        _ => None,
    }
}

/// Takes the member `key` out of `value`, giving JSON null where it has none.
pub fn take_member(value: JsonValue, key: &str) -> (r: JsonValue)
    ensures
        r == match json_member(value, key@) {
            Some(v) => v,
            None => JsonValue::Null,
        },
{
    let ghost whole = value;
    match value {
        JsonValue::Object(members) => {
            let mut members = members;
            let ghost members_before = members@;
            assert(json_member(whole, key@) == member_value(members_before, key@, 0));
            let wanted = String::from_str(key);
            let mut i: usize = 0;
            while i < members.len()
                invariant
                    i <= members.len(),
                    members@ == members_before,
                    wanted@ == key@,
                    json_member(whole, key@) == member_value(members_before, key@, 0),
                    whole == value,
                    member_value(members_before, key@, i as int) == member_value(members_before, key@, 0),
                decreases members.len() - i,
            {
                if members[i].0 == wanted {
                    assert(members_before[i as int].0@ == key@);
                    assert(member_value(members_before, key@, i as int) == Some(members_before[i as int].1));
                    let member = members.remove(i);
                    assert(member == members_before[i as int]);
                    assert(json_member(whole, key@) == Some(member.1));
                    assert(whole == value);
                    return member.1;
                }
                i = i + 1;
            }
            JsonValue::Null
        },
        _ => JsonValue::Null,
    }
}

} // verus!
