//! A JSON document as the library reads it: objects keep their members in
//! order, and each member also carries the compact JSON text of its value.

use vstd::prelude::*;

verus! {

/// A JSON value. Numbers are kept as their JSON text.
pub enum Json {
    Null,
    Bool(bool),
    Number(String),
    Str(String),
    Array(Vec<Json>),
    Object(Vec<JsonMember>),
}

/// One member of a JSON object.
pub struct JsonMember {
    pub key: String,
    pub value: Json,
    /// The value rendered as compact JSON text.
    pub text: String,
}

/// The first member of `members` whose key is `key`.
pub open spec fn member(members: Seq<JsonMember>, key: Seq<char>) -> Option<JsonMember>
    decreases members.len(),
{
    if members.len() == 0 {
        None
    } else if members[0].key@ == key {
        Some(members[0])
    } else {
        member(members.drop_first(), key)
    }
}

/// The member `key` of an object; `None` for a value that is no object, as
/// `serde_json::Value::get` with a key.
pub open spec fn member_of(j: Json, key: Seq<char>) -> Option<JsonMember> {
    match j {
        Json::Object(members) => member(members@, key),
        _ => None,
    }
}

/// The value of member `key` of an object.
pub open spec fn field(j: Json, key: Seq<char>) -> Option<Json> {
    match member_of(j, key) {
        Some(m) => Some(m.value),
        None => None,
    }
}

/// The text of a JSON string value (`as_str`).
pub open spec fn str_of(j: Option<Json>) -> Option<Seq<char>> {
    match j {
        Some(Json::Str(s)) => Some(s@),
        _ => None,
    }
}

proof fn lemma_member_skip(members: Seq<JsonMember>, key: Seq<char>, i: int)
    requires
        0 <= i < members.len(),
        members[i].key@ != key,
    ensures
        member(members.subrange(i, members.len() as int), key)
            == member(members.subrange(i + 1, members.len() as int), key),
{
    let s = members.subrange(i, members.len() as int);
    assert(s[0] == members[i]);
    assert(s.drop_first() =~= members.subrange(i + 1, members.len() as int));
}

/// Compares a stored text with a key.
fn same_text(a: &String, b: &str) -> (r: bool)
    ensures
        r == (a@ == b@),
{
    let bs = String::from_str(b);
    *a == bs
}

/// The first member of `members` named `key`.
pub fn find_member<'a>(members: &'a Vec<JsonMember>, key: &str) -> (r: Option<&'a JsonMember>)
    ensures
        (match (r, member(members@, key@)) {
            (Some(x), Some(y)) => *x == y,
            (None, None) => true,
            _ => false,
        }),
{
    let mut i: usize = 0;
    assert(members@.subrange(0, members@.len() as int) =~= members@);
    while i < members.len()
        invariant
            i <= members@.len(),
            member(members@.subrange(i as int, members@.len() as int), key@) == member(members@, key@),
        decreases members@.len() - i,
    {
        if same_text(&members[i].key, key) {
            proof {
                let s = members@.subrange(i as int, members@.len() as int);
                assert(s[0] == members@[i as int]);
            }
            return Some(&members[i]);
        }
        proof {
            lemma_member_skip(members@, key@, i as int);
        }
        i = i + 1;
    }
    None
}

/// The member `key` of `j`, if `j` is an object that has one.
pub fn get_member<'a>(j: &'a Json, key: &str) -> (r: Option<&'a JsonMember>)
    ensures
        (match (r, member_of(*j, key@)) {
            (Some(x), Some(y)) => *x == y,
            (None, None) => true,
            _ => false,
        }),
{
    match j {
        Json::Object(members) => find_member(members, key),
        _ => None,
    }
}

/// The value of member `key` of `j` (`serde_json::Value::get`).
pub fn get<'a>(j: &'a Json, key: &str) -> (r: Option<&'a Json>)
    ensures
        (match (r, field(*j, key@)) {
            (Some(x), Some(y)) => *x == y,
            (None, None) => true,
            _ => false,
        }),
{
    match get_member(j, key) {
        Some(m) => Some(&m.value),
        None => None,
    }
}

/// The text of a string value (`serde_json::Value::as_str`).
pub fn as_str<'a>(j: Option<&'a Json>) -> (r: Option<&'a String>)
    ensures
        (match (r, j) {
            (Some(s), Some(Json::Str(t))) => *s == t,
            (None, Some(Json::Str(_))) => false,
            (Some(_), _) => false,
            _ => true,
        }),
{
    match j {
        Some(Json::Str(s)) => Some(s),
        _ => None,
    }
}

/// The value that `serde_json::from_str::<serde_json::Value>` reads from a
/// text, written as the library's `Json` (numbers by their JSON text, each
/// object member with the compact JSON text of its value); `None` where the
/// parse fails.
pub uninterp spec fn parsed_json(text: Seq<char>) -> Option<Json>;

/// The message (`Display`) of the error that `serde_json::from_str` gives
/// for a text it does not parse.
pub uninterp spec fn json_error_text(text: Seq<char>) -> Seq<char>;

/// A parsed JSON value of `serde_json`, carried opaque.
#[verifier::external_type_specification]
#[verifier::external_body]
pub struct ExJsonValue(serde_json::Value);

/// Writes a `serde_json::Value` as the library's `Json`, variant for
/// variant: a number by its text, an object member with its key, its value
/// and the value's compact text (`to_string()`), members in the map's order.
#[verifier::external_body]
fn json_from_value(v: &serde_json::Value) -> Json {
    match v {
        serde_json::Value::Null => Json::Null,
        serde_json::Value::Bool(b) => Json::Bool(*b),
        serde_json::Value::Number(n) => Json::Number(n.to_string()),
        serde_json::Value::String(s) => Json::Str(s.clone()),
        serde_json::Value::Array(items) => Json::Array(items.iter().map(json_from_value).collect()),
        serde_json::Value::Object(map) => Json::Object(
            map.iter()
                .map(|(k, x)| JsonMember { key: k.clone(), value: json_from_value(x), text: x.to_string() })
                .collect(),
        ),
    }
}

/// `serde_json::from_str::<serde_json::Value>(text)`, written as the
/// library's `Json`; the error as its message. Stated: it succeeds exactly
/// where `parsed_json(text@)` is a value, gives that value, and otherwise
/// gives `json_error_text(text@)`. The grammar is not written out.
#[verifier::external_body]
pub(crate) fn parse_json(text: &str) -> (r: Result<Json, String>)
    ensures
        r is Ok <==> parsed_json(text@) is Some,
        r matches Ok(j) ==> parsed_json(text@) == Some(j),
        r matches Err(e) ==> e@ == json_error_text(text@),
{
    match serde_json::from_str::<serde_json::Value>(text) {
        Ok(v) => Ok(json_from_value(&v)),
        Err(e) => Err(e.to_string()),
    }
}

/// The JSON read from a text, or the parser's message where it is not JSON.
pub open spec fn json_of_text(text: Seq<char>) -> Result<Json, Seq<char>> {
    match parsed_json(text) {
        Some(j) => Ok(j),
        None => Err(json_error_text(text)),
    }
}

/// `r` is what parsing `text` gives: the JSON value, or the parser's
/// message.
pub open spec fn is_parse_of(r: Result<Json, String>, text: Seq<char>) -> bool {
    match (r, json_of_text(text)) {
        (Ok(j), Ok(k)) => j == k,
        (Err(e), Err(m)) => e@ == m,
        _ => false,
    }
}

} // verus!
