//! The calls into outside crates that only compute.

use serde_json::Value;
use vstd::prelude::*;

use crate::json::{Json, JsonView};

verus! {

/// The words of a shell command line, as the `shlex` crate splits it; `None` where
/// a quotation or an escape is left open.
pub uninterp spec fn shell_words(text: Seq<char>) -> Option<Seq<Seq<char>>>;

/// `shlex::split`: the words of a command line by the rules of a POSIX shell, a
/// function of its characters alone, or `None` where it does not parse.
#[verifier::external_body]
pub(crate) fn shell_split(text: &str) -> (r: Option<Vec<String>>)
    ensures
        r.deep_view() == shell_words(text@),
{
    shlex::split(text)
}

/// A JSON value as the `serde_json` crate holds it.
#[verifier::external_type_specification]
#[verifier::external_body]
pub struct ExJsonValue(Value);

/// What a JSON value holds: the items of its arrays and the entries of its objects,
/// all the way down.
pub uninterp spec fn json_tree(value: Value) -> JsonView;

/// A `serde_json::Value` taken apart, variant by variant: `as_u64` and `as_i64` tell
/// whole numbers from others, and an array or an object is taken apart item by item,
/// in the order in which the crate walks it.
#[verifier::external_body]
pub(crate) fn json_of(value: &Value) -> (r: Json)
    ensures
        r.tree() == json_tree(*value),
{
    match value {
        Value::Null => Json::Null,
        Value::Bool(b) => Json::Flag(*b),
        Value::Number(n) => match (n.as_u64(), n.as_i64()) {
            (Some(n), _) => Json::Count(n),
            (None, Some(n)) => Json::Int(n),
            (None, None) => Json::Real(n.to_string()),
        },
        Value::String(s) => Json::Text(s.clone()),
        Value::Array(v) => Json::List(v.iter().map(json_of).collect()),
        Value::Object(m) => {
            Json::Object(m.iter().map(|(k, v)| (k.clone(), json_of(v))).collect())
        },
    }
}

/// The value that a text stands for in JSON, or the complaint of the parser.
pub uninterp spec fn json_parsed(text: Seq<char>) -> Result<JsonView, Seq<char>>;

/// `serde_json::from_str` into a value: what the text stands for, or the message of
/// the error, either of them a function of the text alone.
#[verifier::external_body]
pub(crate) fn json_value(text: &str) -> (r: Result<Value, String>)
    ensures
        match r {
            Ok(v) => json_parsed(text@) == Ok::<JsonView, Seq<char>>(json_tree(v)),
            Err(e) => json_parsed(text@) == Err::<JsonView, Seq<char>>(e@),
        },
{
    serde_json::from_str::<Value>(text).map_err(|e| e.to_string())
}

/// The values of the array that a text stands for in JSON, or the complaint of the
/// parser, which rejects anything but an array.
pub uninterp spec fn json_parsed_list(text: Seq<char>) -> Result<Seq<JsonView>, Seq<char>>;

/// `serde_json::from_str` into a list of values: the items of the array that the text
/// stands for, or the message of the error, either of them a function of the text
/// alone.
#[verifier::external_body]
pub(crate) fn json_values(text: &str) -> (r: Result<Vec<Value>, String>)
    ensures
        match r {
            Ok(v) => json_parsed_list(text@) == Ok::<Seq<JsonView>, Seq<char>>(
                v@.map_values(|x: Value| json_tree(x)),
            ),
            Err(e) => json_parsed_list(text@) == Err::<Seq<JsonView>, Seq<char>>(e@),
        },
{
    serde_json::from_str::<Vec<Value>>(text).map_err(|e| e.to_string())
}

/// `uuid::Uuid::new_v4` as text: a random identifier of version 4, lowercase
/// hexadecimal digits in groups with hyphens between them. The call panics where the
/// operating system has no randomness to give, which no argument could rule out.
#[verifier::external_body]
pub(crate) fn random_uuid() -> (r: String)
    ensures
        is_uuid(r@),
{
    uuid::Uuid::new_v4().to_string()
}

/// The shape of a random identifier: five groups of 8, 4, 4, 4 and 12 lowercase
/// hexadecimal digits with hyphens between them; the third group begins with the
/// version, and the fourth with the variant.
pub open spec fn is_uuid(s: Seq<char>) -> bool {
    &&& s.len() == 36
    &&& forall|i: int|
        0 <= i < 36 ==> if i == 8 || i == 13 || i == 18 || i == 23 {
            #[trigger] s[i] == '-'
        } else {
            ('0' <= s[i] && s[i] <= '9') || ('a' <= s[i] && s[i] <= 'f')
        }
    &&& s[14] == '4'
    &&& s[19] == '8' || s[19] == '9' || s[19] == 'a' || s[19] == 'b'
}

} // verus!
