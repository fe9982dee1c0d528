//! Incoming frames: JSON text read into a tree, and the tree read into the
//! fields that the game looks at.
//!
//! `serde_json` parses the text. Everything after that is done here, on a
//! tree type of this library.

use vstd::prelude::*;
use vstd::string::*;
use crate::game::MessageFields;
use crate::text::{opt_text, same_text};

verus! {

/// A JSON number, as far as the game reads numbers.
#[derive(Clone, Copy, PartialEq, Eq, Debug, Structural)]
pub struct JsonNumber {
    /// The number, where it is a whole number from 0 to `u64::MAX`.
    pub whole: Option<u64>,
}

/// A JSON value.
#[derive(PartialEq, Eq, Debug)]
pub enum Json {
    Null,
    Bool(bool),
    Number(JsonNumber),
    Text(String),
    List(Vec<Json>),
    /// The members of an object.
    Object(Vec<JsonMember>),
}

/// One member of a JSON object.
#[derive(PartialEq, Eq, Debug)]
pub struct JsonMember {
    pub key: String,
    pub value: Json,
}

/// `serde_json::Value`, a parsed JSON value. Nothing is read of it here but
/// through `into_tree`.
#[verifier::external_type_specification]
#[verifier::external_body]
pub struct ExValue(serde_json::Value);

/// The tree that a `serde_json::Value` holds.
pub uninterp spec fn json_tree(v: serde_json::Value) -> Json;

/// What `serde_json` makes of a text: the tree of the JSON value that the
/// text spells, or the description of what is wrong with it.
pub uninterp spec fn json_document(text: Seq<char>) -> Result<Json, Seq<char>>;

/// Calls `serde_json::from_str` for a `serde_json::Value`. The contract
/// names what comes back: the value's tree, or the text of the error.
#[verifier::external_body]
fn parse_value(text: &str) -> (r: Result<serde_json::Value, String>)
    ensures
        match r {
            Ok(v) => json_document(text@) == Ok::<Json, Seq<char>>(json_tree(v)),
            Err(e) => json_document(text@) == Err::<Json, Seq<char>>(e@),
        },
{
    serde_json::from_str::<serde_json::Value>(text).map_err(|err| err.to_string())
}

/// Takes a `serde_json::Value` apart, variant by variant, into the tree that
/// it holds: the members of an object in the order in which `serde_json`
/// hands them out, a number as `serde_json::Number::as_u64` reads it. The
/// contract names the tree.
#[verifier::external_body]
fn into_tree(v: serde_json::Value) -> (r: Json)
    ensures
        r == json_tree(v),
{
    match v {
        serde_json::Value::Null => Json::Null,
        serde_json::Value::Bool(b) => Json::Bool(b),
        serde_json::Value::Number(n) => Json::Number(JsonNumber { whole: n.as_u64() }),
        serde_json::Value::String(s) => Json::Text(s),
        serde_json::Value::Array(a) => Json::List(a.into_iter().map(into_tree).collect()),
        serde_json::Value::Object(o) => Json::Object(
            o.into_iter().map(|(key, v)| JsonMember { key, value: into_tree(v) }).collect(),
        ),
    }
}

/// Reads a text as JSON.
pub fn parse_json(text: &str) -> (r: Result<Json, String>)
    ensures
        match r {
            Ok(tree) => json_document(text@) == Ok::<Json, Seq<char>>(tree),
            Err(e) => json_document(text@) == Err::<Json, Seq<char>>(e@),
        },
{
    match parse_value(text) {
        Ok(v) => Ok(into_tree(v)),
        Err(e) => Err(e),
    }
}

/// The value of the first member of `o` whose key is `field`.
pub open spec fn find_member(o: Seq<JsonMember>, field: Seq<char>) -> Option<Json>
    decreases o.len(),
{
    if o.len() == 0 {
        None
    } else if o[0].key@ == field {
        Some(o[0].value)
    } else {
        find_member(o.drop_first(), field)
    }
}

/// What the getters answer when the object has no member of the given name.
pub open spec fn missing_field() -> Seq<char> {
    "No type field"@
}

/// What the getters answer when the member is of another kind than `kind`.
pub open spec fn wrong_type(kind: Seq<char>, field: Seq<char>) -> Seq<char> {
    "Wrong type, expected "@ + kind + " for field "@ + field
}

/// What `get_json_obj` answers.
pub open spec fn obj_field(o: Seq<JsonMember>, field: Seq<char>) -> Result<
    Seq<JsonMember>,
    Seq<char>,
> {
    match find_member(o, field) {
        None => Err(missing_field()),
        Some(Json::Object(members)) => Ok(members@),
        Some(_) => Err(wrong_type("object"@, field)),
    }
}

/// What `get_json_str` answers.
pub open spec fn str_field(o: Seq<JsonMember>, field: Seq<char>) -> Result<Seq<char>, Seq<char>> {
    match find_member(o, field) {
        None => Err(missing_field()),
        Some(Json::Text(s)) => Ok(s@),
        Some(_) => Err(wrong_type("string"@, field)),
    }
}

/// What `get_json_arr` answers.
pub open spec fn arr_field(o: Seq<JsonMember>, field: Seq<char>) -> Result<Seq<Json>, Seq<char>> {
    match find_member(o, field) {
        None => Err(missing_field()),
        Some(Json::List(items)) => Ok(items@),
        Some(_) => Err(wrong_type("array"@, field)),
    }
}

/// What `get_json_number` answers.
pub open spec fn number_field(o: Seq<JsonMember>, field: Seq<char>) -> Result<
    JsonNumber,
    Seq<char>,
> {
    match find_member(o, field) {
        None => Err(missing_field()),
        Some(Json::Number(n)) => Ok(n),
        Some(_) => Err(wrong_type("number"@, field)),
    }
}

/// The value of the first member of `o` whose key is `field`.
pub fn get_json_field<'a>(o: &'a Vec<JsonMember>, field: &str) -> (r: Option<&'a Json>)
    ensures
        match r {
            Some(v) => find_member(o@, field@) == Some(*v),
            None => find_member(o@, field@) is None,
        },
{
    let mut i: usize = 0;
    proof {
        assert(o@.subrange(0, o.len() as int) =~= o@);
    }
    while i < o.len()
        invariant
            i <= o.len(),
            find_member(o@, field@) == find_member(o@.subrange(i as int, o.len() as int), field@),
        decreases o.len() - i,
    {
        proof {
            // What is left to search starts with member `i`.
            assert(o@.subrange(i as int, o.len() as int).drop_first() =~= o@.subrange(
                i + 1,
                o.len() as int,
            ));
        }
        if same_text(o[i].key.as_str(), field) {
            return Some(&o[i].value);
        }
        i = i + 1;
    }
    None
}

/// The text that tells of a member of the wrong kind.
fn wrong_type_text(kind: &str, field: &str) -> (r: String)
    ensures
        r@ == wrong_type(kind@, field@),
{
    let mut text = String::from_str("Wrong type, expected ");
    text.append(kind);
    text.append(" for field ");
    text.append(field);
    text
}

/// The object under `field`.
pub fn get_json_obj<'a>(o: &'a Vec<JsonMember>, field: &str) -> (r: Result<
    &'a Vec<JsonMember>,
    String,
>)
    ensures
        match r {
            Ok(members) => obj_field(o@, field@) == Ok::<Seq<JsonMember>, Seq<char>>(members@),
            Err(e) => obj_field(o@, field@) == Err::<Seq<JsonMember>, Seq<char>>(e@),
        },
{
    match get_json_field(o, field) {
        None => Err(String::from_str("No type field")),
        Some(Json::Object(members)) => Ok(members),
        Some(_) => Err(wrong_type_text("object", field)),
    }
}

/// The string under `field`.
pub fn get_json_str<'a>(o: &'a Vec<JsonMember>, field: &str) -> (r: Result<&'a str, String>)
    ensures
        match r {
            Ok(s) => str_field(o@, field@) == Ok::<Seq<char>, Seq<char>>(s@),
            Err(e) => str_field(o@, field@) == Err::<Seq<char>, Seq<char>>(e@),
        },
{
    match get_json_field(o, field) {
        None => Err(String::from_str("No type field")),
        Some(Json::Text(s)) => Ok(s.as_str()),
        Some(_) => Err(wrong_type_text("string", field)),
    }
}

/// The list under `field`.
pub fn get_json_arr<'a>(o: &'a Vec<JsonMember>, field: &str) -> (r: Result<&'a Vec<Json>, String>)
    ensures
        match r {
            Ok(items) => arr_field(o@, field@) == Ok::<Seq<Json>, Seq<char>>(items@),
            Err(e) => arr_field(o@, field@) == Err::<Seq<Json>, Seq<char>>(e@),
        },
{
    match get_json_field(o, field) {
        None => Err(String::from_str("No type field")),
        Some(Json::List(items)) => Ok(items),
        Some(_) => Err(wrong_type_text("array", field)),
    }
}

/// The number under `field`.
pub fn get_json_number(o: &Vec<JsonMember>, field: &str) -> (r: Result<JsonNumber, String>)
    ensures
        match r {
            Ok(n) => number_field(o@, field@) == Ok::<JsonNumber, Seq<char>>(n),
            Err(e) => number_field(o@, field@) == Err::<JsonNumber, Seq<char>>(e@),
        },
{
    match get_json_field(o, field) {
        None => Err(String::from_str("No type field")),
        Some(Json::Number(n)) => Ok(*n),
        Some(_) => Err(wrong_type_text("number", field)),
    }
}

/// A message of a client, taken out of its envelope.
#[derive(Clone, PartialEq, Eq, Debug)]
pub struct ClientMessage {
    /// The text under `type`.
    pub msg_type: String,
    /// What the game reads of the value under `content`.
    pub contents: MessageFields,
}

/// The value of a `ClientMessage`: its type, its word and its number.
pub open spec fn message_view(m: ClientMessage) -> (Seq<char>, Option<Seq<char>>, Option<u64>) {
    (m.msg_type@, opt_text(m.contents.word), m.contents.id)
}

/// The string under `word`, if the content is an object that has one.
pub open spec fn word_of(content: Json) -> Option<Seq<char>> {
    match content {
        Json::Object(members) => match str_field(members@, "word"@) {
            Ok(w) => Some(w),
            Err(_) => None,
        },
        _ => None,
    }
}

/// The whole number under `id`, if the content is an object that has one.
pub open spec fn id_of(content: Json) -> Option<u64> {
    match content {
        Json::Object(members) => match number_field(members@, "id"@) {
            Ok(n) => n.whole,
            Err(_) => None,
        },
        _ => None,
    }
}

/// What `decode_message` makes of a parsed frame. The frame must be an
/// object with a string under `type` and some value under `content`.
pub open spec fn decoded(doc: Result<Json, Seq<char>>) -> Result<
    (Seq<char>, Option<Seq<char>>, Option<u64>),
    Seq<char>,
> {
    match doc {
        Err(e) => Err(e),
        Ok(Json::Object(members)) => match str_field(members@, "type"@) {
            Err(e) => Err(e),
            Ok(msg_type) => match find_member(members@, "content"@) {
                None => Err(missing_field()),
                Some(content) => Ok((msg_type, word_of(content), id_of(content))),
            },
        },
        Ok(_) => Err("Websocket message is not an object"@),
    }
}

/// What the game reads of a message's content.
pub fn read_fields(content: &Json) -> (fields: MessageFields)
    ensures
        opt_text(fields.word) == word_of(*content),
        fields.id == id_of(*content),
{
    match content {
        Json::Object(members) => {
            let word = match get_json_str(members, "word") {
                Ok(w) => Some(w.to_owned()),
                Err(_) => None,
            };
            let id = match get_json_number(members, "id") {
                Ok(n) => n.whole,
                Err(_) => None,
            };
            MessageFields { word, id }
        },
        _ => MessageFields { word: None, id: None },
    }
}

/// Takes a client's message out of its envelope: the text of a frame is
/// parsed, and its type and the fields of its content are read.
pub fn decode_message(text: &str) -> (r: Result<ClientMessage, String>)
    ensures
        match r {
            Ok(m) => decoded(json_document(text@)) == Ok::<
                (Seq<char>, Option<Seq<char>>, Option<u64>),
                Seq<char>,
            >(message_view(m)),
            Err(e) => decoded(json_document(text@)) == Err::<
                (Seq<char>, Option<Seq<char>>, Option<u64>),
                Seq<char>,
            >(e@),
        },
{
    match parse_json(text) {
        Err(e) => Err(e),
        Ok(Json::Object(members)) => {
            let msg_type = match get_json_str(&members, "type") {
                Ok(t) => t.to_owned(),
                Err(e) => {
                    return Err(e);
                },
            };
            match get_json_field(&members, "content") {
                None => Err(String::from_str("No type field")),
                Some(content) => Ok(ClientMessage { msg_type, contents: read_fields(content) }),
            }
        },
        Ok(_) => Err(String::from_str("Websocket message is not an object")),
    }
}

} // verus!
