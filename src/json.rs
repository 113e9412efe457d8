//! A model of JSON documents, and the reading of typed values out of them.
use crate::text::str_eq;
use vstd::prelude::*;

verus! {

#[verifier::external_type_specification]
#[verifier::external_body]
pub struct ExValue(serde_json::Value);

/// A JSON document as the library reads it.
///
/// Object members keep the order in which they were read; the parser gives
/// each key at most once.
#[derive(Debug)]
pub enum Json {
    Null,
    Bool(bool),
    /// A number: its value when it is an integer that fits in an `i64`, and
    /// its shortest decimal text.
    Number(Option<i64>, String),
    Str(String),
    Array(Vec<Json>),
    Object(Vec<(String, Json)>),
}

/// What `serde_json` reads from a text: `None` when the text is not one
/// JSON document.
pub uninterp spec fn parsed_json(text: Seq<char>) -> Option<Json>;

/// Relies on `serde_json::from_str::<serde_json::Value>`: reads one JSON
/// document from the text, or fails with a description of the syntax error.
#[verifier::external_body]
pub fn parse_json(text: &str) -> (r: Result<Json, String>)
    ensures
        r is Ok <==> parsed_json(text@) is Some,
        r is Ok ==> r->Ok_0 == parsed_json(text@)->Some_0,
{
    serde_json::from_str::<serde_json::Value>(text).map(json_from_value).map_err(|e| e.to_string())
}

/// Relies on the variants of `serde_json::Value`: moves each into the
/// matching variant of [`Json`], one for one.
#[verifier::external_body]
fn json_from_value(v: serde_json::Value) -> Json {
    match v {
        serde_json::Value::Null => Json::Null,
        serde_json::Value::Bool(b) => Json::Bool(b),
        serde_json::Value::Number(n) => Json::Number(n.as_i64(), n.to_string()),
        serde_json::Value::String(s) => Json::Str(s),
        serde_json::Value::Array(a) => Json::Array(a.into_iter().map(json_from_value).collect()),
        serde_json::Value::Object(m) => Json::Object(
            m.into_iter().map(|(k, x)| (k, json_from_value(x))).collect(),
        ),
    }
}

/// The value of the first member named `key`.
pub open spec fn member(entries: Seq<(String, Json)>, key: Seq<char>) -> Option<Json>
    decreases entries.len(),
{
    if entries.len() == 0 {
        None
    } else if entries[0].0@ == key {
        Some(entries[0].1)
    } else {
        member(entries.drop_first(), key)
    }
}

/// The value of the field `key` of an object; `None` for anything else.
pub open spec fn field(j: Json, key: Seq<char>) -> Option<Json> {
    match j {
        Json::Object(entries) => member(entries@, key),
        _ => None,
    }
}

/// The field `key` of `j`, when `j` is an object that has it.
pub fn get_field<'a>(j: &'a Json, key: &str) -> (r: Option<&'a Json>)
    ensures
        r is Some <==> field(*j, key@) is Some,
        r is Some ==> *r->Some_0 == field(*j, key@)->Some_0,
{
    match j {
        Json::Object(entries) => {
            let mut i: usize = 0;
            assert(entries@.subrange(0, entries@.len() as int) == entries@);
            while i < entries.len()
                invariant
                    i <= entries@.len(),
                    field(*j, key@) == member(entries@, key@),
                    member(entries@, key@) == member(entries@.subrange(i as int, entries@.len() as int), key@),
                decreases entries@.len() - i,
            {
                let ghost rest = entries@.subrange(i as int, entries@.len() as int);
                assert(rest[0] == entries@[i as int]);
                if str_eq(entries[i].0.as_str(), key) {
                    assert(rest.len() > 0 && rest[0].0@ == key@);
                    assert(member(rest, key@) == Some(rest[0].1));
                    return Some(&entries[i].1);
                }
                assert(rest.drop_first() == entries@.subrange(i + 1, entries@.len() as int));
                i = i + 1;
            }
            None
        },
        _ => None,
    }
}

/// A type that can be read out of a JSON document.
pub trait FromJson: Sized {
    /// Whether `j` has the shape of this type.
    spec fn accepts(j: Json) -> bool;

    /// Whether `self` is what is read out of `j`.
    spec fn read_from(self, j: Json) -> bool;

    /// Reads a value out of `j`, or fails with a description of what did not match.
    fn from_json(j: &Json) -> (r: Result<Self, String>)
        ensures
            r is Ok <==> Self::accepts(*j),
            r is Ok ==> r->Ok_0.read_from(*j);
}

impl FromJson for String {
    open spec fn accepts(j: Json) -> bool {
        j is Str
    }

    open spec fn read_from(self, j: Json) -> bool {
        j == Json::Str(self)
    }

    fn from_json(j: &Json) -> (r: Result<String, String>) {
        match j {
            Json::Str(s) => Ok(s.clone()),
            _ => Err(String::from_str("invalid type: expected a string")),
        }
    }
}

impl FromJson for i32 {
    open spec fn accepts(j: Json) -> bool {
        match j {
            Json::Number(Some(n), _) => i32::MIN <= n <= i32::MAX,
            _ => false,
        }
    }

    open spec fn read_from(self, j: Json) -> bool {
        j is Number && j->Number_0 == Some(self as i64)
    }

    fn from_json(j: &Json) -> (r: Result<i32, String>) {
        match j {
            Json::Number(Some(n), _) => {
                if i32::MIN as i64 <= *n && *n <= i32::MAX as i64 {
                    Ok(*n as i32)
                } else {
                    Err(String::from_str("invalid value: integer out of range for i32"))
                }
            },
            _ => Err(String::from_str("invalid type: expected an i32")),
        }
    }
}

impl<T: FromJson> FromJson for Vec<T> {
    open spec fn accepts(j: Json) -> bool {
        match j {
            Json::Array(items) => forall|i: int| 0 <= i < items@.len() ==> T::accepts(#[trigger] items@[i]),
            _ => false,
        }
    }

    open spec fn read_from(self, j: Json) -> bool {
        match j {
            Json::Array(items) => {
                &&& self@.len() == items@.len()
                &&& forall|i: int| 0 <= i < items@.len() ==> (#[trigger] self@[i]).read_from(items@[i])
            },
            _ => false,
        }
    }

    fn from_json(j: &Json) -> (r: Result<Vec<T>, String>) {
        match j {
            Json::Array(items) => {
                let mut out: Vec<T> = Vec::new();
                let mut i: usize = 0;
                while i < items.len()
                    invariant
                        i <= items@.len(),
                        *j == Json::Array(*items),
                        out@.len() == i,
                        forall|k: int| 0 <= k < i ==> T::accepts(#[trigger] items@[k]),
                        forall|k: int| 0 <= k < i ==> (#[trigger] out@[k]).read_from(items@[k]),
                    decreases items@.len() - i,
                {
                    match T::from_json(&items[i]) {
                        Ok(x) => out.push(x),
                        Err(e) => {
                            assert(j->Array_0@[i as int] == items@[i as int]);
                            assert(!T::accepts(j->Array_0@[i as int]));
                            return Err(e);
                        },
                    }
                    i = i + 1;
                }
                Ok(out)
            },
            _ => Err(String::from_str("invalid type: expected a sequence")),
        }
    }
}

/// A number read from JSON, kept as its shortest decimal text, such as
/// `38.8817596` or `-77`.
#[derive(Clone, Debug)]
pub struct Decimal {
    pub text: String,
}

impl FromJson for Decimal {
    open spec fn accepts(j: Json) -> bool {
        j is Number
    }

    open spec fn read_from(self, j: Json) -> bool {
        j is Number && j->Number_1 == self.text
    }

    fn from_json(j: &Json) -> (r: Result<Decimal, String>) {
        match j {
            Json::Number(_, text) => Ok(Decimal { text: text.clone() }),
            _ => Err(String::from_str("invalid type: expected a number")),
        }
    }
}

/// Whether the required field `key` is present and has the shape of `T`.
pub open spec fn required_accepts<T: FromJson>(j: Json, key: Seq<char>) -> bool {
    match field(j, key) {
        Some(v) => T::accepts(v),
        None => false,
    }
}

/// Whether `x` is what is read out of the required field `key`.
pub open spec fn required_read<T: FromJson>(x: T, j: Json, key: Seq<char>) -> bool {
    match field(j, key) {
        Some(v) => x.read_from(v),
        None => false,
    }
}

/// Whether the optional field `key` is absent, null, or has the shape of `T`.
pub open spec fn optional_accepts<T: FromJson>(j: Json, key: Seq<char>) -> bool {
    match field(j, key) {
        Some(Json::Null) => true,
        Some(v) => T::accepts(v),
        None => true,
    }
}

/// Whether `x` is what is read out of the optional field `key`.
pub open spec fn optional_read<T: FromJson>(x: Option<T>, j: Json, key: Seq<char>) -> bool {
    match field(j, key) {
        Some(Json::Null) => x is None,
        Some(v) => x is Some && x->Some_0.read_from(v),
        None => x is None,
    }
}

/// Reads the required field `key` of an object.
pub fn required<T: FromJson>(j: &Json, key: &str) -> (r: Result<T, String>)
    ensures
        r is Ok <==> required_accepts::<T>(*j, key@),
        r is Ok ==> required_read(r->Ok_0, *j, key@),
{
    match get_field(j, key) {
        Some(v) => T::from_json(v),
        None => {
            let mut m = String::from_str("missing field `");
            m.append(key);
            m.append("`");
            Err(m)
        },
    }
}

/// Reads the optional field `key` of an object: absent or null reads as `None`.
pub fn optional<T: FromJson>(j: &Json, key: &str) -> (r: Result<Option<T>, String>)
    ensures
        r is Ok <==> optional_accepts::<T>(*j, key@),
        r is Ok ==> optional_read(r->Ok_0, *j, key@),
{
    match get_field(j, key) {
        Some(Json::Null) => Ok(None),
        Some(v) => match T::from_json(v) {
            Ok(x) => Ok(Some(x)),
            Err(e) => Err(e),
        },
        None => Ok(None),
    }
}

} // verus!
