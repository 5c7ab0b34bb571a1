use vstd::prelude::*;

verus! {

/// A JSON document as the library reads it.
///
/// Object members keep the order in which the parser hands them out; a key
/// occurs at most once in a document that came from the parser.
#[derive(Debug)]
pub enum Json {
    Null,
    Bool(bool),
    /// A number, kept as the text that the parser prints for it.
    Number(String),
    Str(String),
    Array(Vec<Json>),
    Object(Vec<(String, Json)>),
}

/// The value that the first member named `key` holds, if any.
pub open spec fn member_of(members: Seq<(String, Json)>, key: Seq<char>) -> Option<Json>
    decreases members.len(),
{
    if members.len() == 0 {
        None
    } else if members[0].0@ == key {
        Some(members[0].1)
    } else {
        member_of(members.drop_first(), key)
    }
}

/// What indexing `doc[key]` gives: the member's value, or `null` where `doc`
/// is no object or has no such member.
pub open spec fn index_spec(doc: Json, key: Seq<char>) -> Json {
    match doc {
        Json::Object(members) => match member_of(members@, key) {
            Some(v) => v,
            None => Json::Null,
        },
        _ => Json::Null,
    }
}

/// The text of the first member named `key`, where that member is a string.
pub open spec fn str_member(members: Seq<(String, Json)>, key: Seq<char>) -> Option<Seq<char>> {
    match member_of(members, key) {
        Some(Json::Str(s)) => Some(s@),
        _ => None,
    }
}

/// Finds the position of the first member named `key`.
pub fn find_member(members: &Vec<(String, Json)>, key: &String) -> (r: Option<usize>)
    ensures
        match r {
            Some(i) => i < members@.len() && member_of(members@, key@) == Some(members@[i as int].1),
            None => member_of(members@, key@) is None,
        },
{
    let mut i: usize = 0;
    assert(members@.subrange(0, members@.len() as int) =~= members@);
    while i < members.len()
        invariant
            0 <= i <= members.len(),
            member_of(members@, key@) == member_of(members@.subrange(i as int, members@.len() as int), key@),
        decreases members.len() - i,
    {
        let ghost rest = members@.subrange(i as int, members@.len() as int);
        assert(rest.drop_first() =~= members@.subrange(i + 1, members@.len() as int));
        assert(rest[0] == members@[i as int]);
        if members[i].0 == *key {
            return Some(i);
        }
        i = i + 1;
    }
    None
}

/// The string that the first member named `key` holds, if it is a string.
pub fn find_str_member<'a>(members: &'a Vec<(String, Json)>, key: &String) -> (r: Option<&'a String>)
    ensures
        match r {
            Some(s) => str_member(members@, key@) == Some(s@),
            None => str_member(members@, key@) is None,
        },
{
    match find_member(members, key) {
        Some(i) => match &members[i].1 {
            Json::Str(s) => Some(s),
            _ => None,
        },
        None => None,
    }
}

/// `doc[key]`, taken out of `doc`.
pub fn take_index(doc: Json, key: &String) -> (r: Json)
    ensures
        r == index_spec(doc, key@),
{
    match doc {
        Json::Object(mut members) => match find_member(&members, key) {
            Some(i) => members.remove(i).1,
            None => Json::Null,
        },
        _ => Json::Null,
    }
}

#[verifier::external_type_specification]
#[verifier::external_body]
pub struct ExSerdeValue(serde_json::Value);

/// The document that serde_json reads from `bytes`, or `None` where they hold
/// no JSON document.
pub uninterp spec fn json_document(bytes: Seq<u8>) -> Option<Json>;

/// Relies on serde_json::from_slice, which reads one JSON document from
/// `bytes` and fails where they hold none or something follows it.
#[verifier::external_body]
pub(crate) fn parse_json(bytes: &[u8]) -> (r: Option<Json>)
    ensures
        r == json_document(bytes@),
{
    serde_json::from_slice::<serde_json::Value>(bytes).ok().map(from_serde)
}

/// Carries a value that serde_json parsed over into `Json`, variant for
/// variant; numbers keep the text that serde_json prints for them.
#[verifier::external_body]
fn from_serde(v: serde_json::Value) -> Json {
    match v {
        serde_json::Value::Null => Json::Null,
        serde_json::Value::Bool(b) => Json::Bool(b),
        serde_json::Value::Number(n) => Json::Number(n.to_string()),
        serde_json::Value::String(s) => Json::Str(s),
        serde_json::Value::Array(a) => Json::Array(a.into_iter().map(from_serde).collect()),
        serde_json::Value::Object(o) => Json::Object(o.into_iter().map(|(k, x)| (k, from_serde(x))).collect()),
    }
}

} // verus!
