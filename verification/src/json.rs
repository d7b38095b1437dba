//! JSON documents, which `serde_json` reads and writes.
use serde_json::{Error, Map as Members, Value};
use vstd::prelude::*;
use vstd::string::*;
use vstd::utf8::*;

verus! {

/// What a JSON document says.
pub enum Json {
    Null,
    Bool(bool),
    Integer(int),
    /// A number that is not held as an integer, by the bits of the double that holds it.
    Double(u64),
    Text(Seq<char>),
    Array(Seq<Json>),
    Object(Map<Seq<char>, Json>),
}

/// Whether arrays and objects lie at most `n` deep inside each other.
pub open spec fn depth_at_most(j: Json, n: nat) -> bool
    decreases n,
{
    match j {
        Json::Array(items) => n > 0 && forall|i: int|
            0 <= i < items.len() ==> #[trigger] depth_at_most(items[i], (n - 1) as nat),
        Json::Object(members) => n > 0 && forall|k: Seq<char>|
            members.contains_key(k) ==> #[trigger] depth_at_most(members[k], (n - 1) as nat),
        _ => true,
    }
}

/// Whether a text stands between quotation marks as it is: it holds no quotation mark, no
/// backslash and no control character.
pub open spec fn is_plain(s: Seq<char>) -> bool {
    forall|i: int|
        0 <= i < s.len() ==> (#[trigger] s[i]) != '"' && s[i] != '\\' && s[i] as u32 >= 0x20
}

/// A plain text between quotation marks.
pub open spec fn quoted(s: Seq<char>) -> Seq<char> {
    "\""@ + s + "\""@
}

/// Whether a document is a plain text, or a number that 64 bits hold.
pub open spec fn is_simple(j: Json) -> bool {
    match j {
        Json::Text(s) => is_plain(s),
        Json::Integer(n) => 0 <= n <= u64::MAX,
        _ => false,
    }
}

/// How a simple document is written.
pub open spec fn simple_text(j: Json) -> Seq<char> {
    match j {
        Json::Text(s) => quoted(s),
        Json::Integer(n) => crate::text::decimal(n as nat),
        _ => seq![],
    }
}

/// How members are written, one after the other, with commas between them and no spaces.
pub open spec fn members_text(members: Seq<(Seq<char>, Json)>) -> Seq<char>
    decreases members.len(),
{
    if members.len() == 0 {
        seq![]
    } else {
        let last = quoted(members.last().0) + ":"@ + simple_text(members.last().1);
        if members.len() == 1 {
            last
        } else {
            members_text(members.drop_last()) + ","@ + last
        }
    }
}

/// The object of members that are written one after the other: where a name comes twice,
/// the later member counts.
pub open spec fn object_of(members: Seq<(Seq<char>, Json)>) -> Map<Seq<char>, Json>
    decreases members.len(),
{
    if members.len() == 0 {
        Map::empty()
    } else {
        object_of(members.drop_last()).insert(members.last().0, members.last().1)
    }
}

/// Whether members have plain names and simple values.
pub open spec fn are_simple(members: Seq<(Seq<char>, Json)>) -> bool {
    forall|i: int|
        0 <= i < members.len() ==> is_plain((#[trigger] members[i]).0) && is_simple(members[i].1)
}

/// The text of an object of simple members.
pub open spec fn object_text(members: Seq<(Seq<char>, Json)>) -> Seq<char> {
    "{"@ + members_text(members) + "}"@
}

/// Whether what was read out of bytes is the object of simple members that they are the
/// text of, where they are the text of one.
pub open spec fn reads_simple_objects(bytes: Seq<u8>, read: Option<Json>) -> bool {
    forall|members: Seq<(Seq<char>, Json)>|
        are_simple(members) && bytes == encode_utf8(#[trigger] object_text(members)) ==> read
            == Some(Json::Object(object_of(members)))
}

/// A parsed JSON document.
#[verifier::external_type_specification]
#[verifier::external_body]
pub struct ExValue(serde_json::Value);

/// The members of a JSON object.
#[verifier::external_type_specification]
#[verifier::external_body]
#[verifier::reject_recursive_types(K)]
#[verifier::reject_recursive_types(V)]
pub struct ExMembers<K, V>(serde_json::Map<K, V>);

/// Why a document could not be read or written.
#[verifier::external_type_specification]
#[verifier::external_body]
pub struct ExError(serde_json::Error);

/// What a parsed document says.
pub uninterp spec fn json_of(value: serde_json::Value) -> Json;

/// The members that an object under construction holds.
pub uninterp spec fn members_of(
    members: serde_json::Map<String, serde_json::Value>,
) -> Map<Seq<char>, Json>;

/// The document that `serde_json::from_slice` reads out of bytes, if they are JSON.
pub uninterp spec fn parsed(bytes: Seq<u8>) -> Option<Json>;

/// The bytes that `serde_json::to_vec` writes a document as.
pub uninterp spec fn written(document: Json) -> Seq<u8>;

/// What came of reading bytes.
pub open spec fn outcome(r: Result<serde_json::Value, serde_json::Error>) -> Option<Json> {
    match r {
        Ok(value) => Some(json_of(value)),
        Err(_) => None,
    }
}

/// `serde_json::from_slice` at type `Value`: whether the bytes are JSON, and the document
/// that they hold, depend on the bytes alone. The text of an object whose names and texts
/// need no escapes and whose numbers fit 64 bits reads as that object.
#[verifier::external_body]
pub(crate) fn parse(bytes: &[u8]) -> (r: Result<Value, Error>)
    ensures
        (r is Ok) == (parsed(bytes@) is Some),
        r matches Ok(value) ==> Some(json_of(value)) == parsed(bytes@),
        reads_simple_objects(bytes@, outcome(r)),
{
    serde_json::from_slice(bytes)
}

/// `serde_json::to_vec` of a `Value`: the bytes depend on the document alone, members
/// being written in the order of their keys. Writing a `Value` to memory does not fail:
/// its keys are strings, and its numbers are finite. The call descends into the document
/// by recursion, so the contract admits only documents as deep as `parse` reads.
#[verifier::external_body]
pub(crate) fn write(value: &Value) -> (r: Result<Vec<u8>, Error>)
    requires
        depth_at_most(json_of(*value), 128),
    ensures
        r is Ok,
        r matches Ok(bytes) ==> bytes@ == written(json_of(*value)),
{
    serde_json::to_vec(value)
}

/// `serde_json::Value::get` with a text as index: the member of that name, where the
/// document is an object that has one.
#[verifier::external_body]
pub(crate) fn member<'a>(value: &'a Value, name: &str) -> (r: Option<&'a Value>)
    ensures
        (r is Some) == (json_of(*value) is Object && json_of(*value)->Object_0.contains_key(name@)),
        r matches Some(found) ==> json_of(*found) == json_of(*value)->Object_0[name@],
{
    value.get(name)
}

/// `serde_json::Value::as_str`: the text, where the document is one.
pub assume_specification[ serde_json::Value::as_str ](value: &serde_json::Value) -> (r: Option<
    &str,
>)
    ensures
        (r is Some) == (json_of(*value) is Text),
        r matches Some(text) ==> json_of(*value) == Json::Text(text@),
;

/// `serde_json::Map::new`: no members.
pub assume_specification[ serde_json::Map::<String, serde_json::Value>::new ]() -> (r:
    serde_json::Map<String, serde_json::Value>)
    ensures
        members_of(r) == (Map::<Seq<char>, Json>::empty()),
;

/// `serde_json::Map::insert`: sets the member of that name, and hands back the one that
/// it replaces.
pub assume_specification[ serde_json::Map::<String, serde_json::Value>::insert ](
    members: &mut serde_json::Map<String, serde_json::Value>,
    k: String,
    v: serde_json::Value,
) -> (r: Option<serde_json::Value>)
    ensures
        members_of(*final(members)) == members_of(*old(members)).insert(k@, json_of(v)),
        (r is Some) == members_of(*old(members)).contains_key(k@),
        r matches Some(replaced) ==> json_of(replaced) == members_of(*old(members))[k@],
;

/// `serde_json::Value::from` of the members of an object.
#[verifier::external_body]
pub(crate) fn object(members: Members<String, Value>) -> (r: Value)
    ensures
        json_of(r) == Json::Object(members_of(members)),
{
    Value::from(members)
}

/// `serde_json::Value::from` of a text.
#[verifier::external_body]
pub(crate) fn text(s: &str) -> (r: Value)
    ensures
        json_of(r) == Json::Text(s@),
{
    Value::from(s)
}

/// `serde_json::Value::from` of a number.
#[verifier::external_body]
pub(crate) fn number(n: u64) -> (r: Value)
    ensures
        json_of(r) == Json::Integer(n as int),
{
    Value::from(n)
}

/// `serde_json::Value::default`: the document `null`.
#[verifier::external_body]
pub(crate) fn null() -> (r: Value)
    ensures
        json_of(r) == Json::Null,
{
    Value::default()
}

/// Sets one member of an object under construction.
pub(crate) fn set_member(members: &mut Members<String, Value>, name: &str, value: Value)
    ensures
        members_of(*final(members)) == members_of(*old(members)).insert(name@, json_of(value)),
{
    let _ = members.insert(name.to_owned(), value);
}

/// The bytes of a document.
pub(crate) fn to_bytes(value: &Value) -> (r: Vec<u8>)
    requires
        depth_at_most(json_of(*value), 128),
    ensures
        r@ == written(json_of(*value)),
{
    write(value).unwrap()
}

} // verus!
