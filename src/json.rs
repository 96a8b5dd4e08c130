//! JSON as a tree of plain values: reading a body into records, and writing
//! request bodies.
use vstd::prelude::*;

use serde_json::Error as JsonError;

use crate::error::{DecodeError, Error};

verus! {

/// A JSON document.
#[derive(Debug)]
pub enum Json {
    Null,
    Bool(bool),
    /// A number that is a whole number within `u64`.
    Unsigned(u64),
    /// Any other number, in serde_json's decimal text.
    Number(String),
    Str(String),
    Array(Vec<Json>),
    /// The members of an object, keys unique.
    Object(Vec<(String, Json)>),
}

/// A parsed document of serde_json, handed on to `Json` at once.
#[verifier::external_type_specification]
#[verifier::external_body]
pub struct ExValue(serde_json::Value);

/// What serde_json reads from a text: `None` where the text is not JSON.
pub uninterp spec fn parsed_json(text: Seq<char>) -> Option<Json>;

/// The string literal, quoted and escaped, that serde_json writes for a text.
pub uninterp spec fn json_quoted(s: Seq<char>) -> Seq<char>;

/// Relies on `serde_json::from_str` into a `serde_json::Value`: whether a
/// text parses, and into what, depends on the text alone.
#[verifier::external_body]
fn parse_value(text: &str) -> (r: Result<Json, JsonError>)
    ensures
        match r {
            Ok(j) => parsed_json(text@) == Some(j),
            Err(_) => parsed_json(text@) is None,
        },
{
    serde_json::from_str::<serde_json::Value>(text).map(json_of_value)
}

/// Relies on the variants of `serde_json::Value` and on
/// `serde_json::Number::as_u64`: moves each node into the matching variant.
#[verifier::external_body]
fn json_of_value(v: serde_json::Value) -> Json {
    match v {
        serde_json::Value::Null => Json::Null,
        serde_json::Value::Bool(b) => Json::Bool(b),
        serde_json::Value::Number(n) => match n.as_u64() {
            Some(u) => Json::Unsigned(u),
            None => Json::Number(n.to_string()),
        },
        serde_json::Value::String(s) => Json::Str(s),
        serde_json::Value::Array(a) => Json::Array(a.into_iter().map(json_of_value).collect()),
        serde_json::Value::Object(m) => Json::Object(
            m.into_iter().map(|(k, v)| (k, json_of_value(v))).collect(),
        ),
    }
}

/// Relies on `serde_json::to_string` on a `str`, which writes the quoted,
/// escaped literal and cannot fail on a string.
#[verifier::external_body]
fn quote(s: &str) -> (r: String)
    ensures
        r@ == json_quoted(s@),
{
    serde_json::to_string(s).unwrap_or_default()
}

/// Reads a JSON text into a tree.
pub fn parse(text: &str) -> (r: Result<Json, Error>)
    ensures
        match r {
            Ok(j) => parsed_json(text@) == Some(j),
            Err(e) => parsed_json(text@) is None && e matches Error::Json(DecodeError::Syntax(_)),
        },
{
    match parse_value(text) {
        Ok(j) => Ok(j),
        Err(e) => Err(Error::Json(DecodeError::Syntax(e))),
    }
}

/// The first member of `ms` under `key`.
pub open spec fn find_member(ms: Seq<(String, Json)>, key: Seq<char>) -> Option<Json>
    decreases ms.len(),
{
    if ms.len() == 0 {
        None
    } else if ms[0].0@ == key {
        Some(ms[0].1)
    } else {
        find_member(ms.drop_first(), key)
    }
}

/// The member of the object `j` under `key`; `None` where `j` is no object or
/// has no such member.
pub open spec fn member(j: Json, key: Seq<char>) -> Option<Json> {
    match j {
        Json::Object(ms) => find_member(ms@, key),
        _ => None,
    }
}

impl Json {
    pub fn is_object(&self) -> (r: bool)
        ensures
            r == (*self is Object),
    {
        match self {
            Json::Object(_) => true,
            _ => false,
        }
    }

    pub fn is_null(&self) -> (r: bool)
        ensures
            r == (*self is Null),
    {
        match self {
            Json::Null => true,
            _ => false,
        }
    }

    /// The member under `key`, where `self` is an object that has one.
    pub fn get(&self, key: &str) -> (r: Option<&Json>)
        ensures
            match r {
                Some(f) => member(*self, key@) == Some(*f),
                None => member(*self, key@) is None,
            },
    {
        match self {
            Json::Object(ms) => {
                let k = String::from_str(key);
                let n = ms.len();
                let mut i: usize = 0;
                assert(ms@.subrange(0, n as int) =~= ms@);
                while i < n
                    invariant
                        n == ms@.len(),
                        i <= n,
                        k@ == key@,
                        member(*self, key@) == find_member(ms@, key@),
                        find_member(ms@.subrange(i as int, n as int), key@) == find_member(ms@, key@),
                    decreases n - i,
                {
                    assert(ms@.subrange(i as int, n as int).drop_first() =~= ms@.subrange(
                        i + 1,
                        n as int,
                    ));
                    assert(ms@.subrange(i as int, n as int)[0] == ms@[i as int]);
                    if ms[i].0 == k {
                        assert(find_member(ms@.subrange(i as int, n as int), key@) == Some(
                            ms@[i as int].1,
                        ));
                        return Some(&ms[i].1);
                    }
                    i = i + 1;
                }
                None
            },
            _ => None,
        }
    }
}

/// A schema error with the message `what` followed by `key`.
fn schema_error(what: &str, key: &str) -> (e: Error)
    ensures
        e.is_schema(),
{
    let m = String::from_str(what);
    Error::Json(DecodeError::Schema(m.concat(key)))
}

/// Succeeds where `j` is an object; else a schema error naming `what`.
pub fn expect_object(j: &Json, what: &str) -> (r: Result<(), Error>)
    ensures
        r is Ok <==> j is Object,
        r matches Err(e) ==> e.is_schema(),
{
    if j.is_object() {
        Ok(())
    } else {
        Err(schema_error("invalid type: expected an object for ", what))
    }
}

/// A value that a JSON tree can be decoded into.
pub trait FromJson: Sized {
    /// `v` is what `j` decodes to.
    spec fn decodes_to(j: Json, v: Self) -> bool;

    /// Decodes `j`, or fails with a schema error where nothing decodes from it.
    fn from_json(j: &Json) -> (r: Result<Self, Error>)
        ensures
            match r {
                Ok(v) => Self::decodes_to(*j, v),
                Err(e) => e.is_schema() && forall|v: Self| !Self::decodes_to(*j, v),
            },
    ;
}

impl FromJson for String {
    open spec fn decodes_to(j: Json, v: String) -> bool {
        j matches Json::Str(s) && s@ == v@
    }

    fn from_json(j: &Json) -> (r: Result<String, Error>) {
        match j {
            Json::Str(s) => Ok(s.clone()),
            _ => Err(schema_error("invalid type: expected ", "a string")),
        }
    }
}

impl FromJson for u64 {
    open spec fn decodes_to(j: Json, v: u64) -> bool {
        j == Json::Unsigned(v)
    }

    fn from_json(j: &Json) -> (r: Result<u64, Error>) {
        match j {
            Json::Unsigned(n) => Ok(*n),
            _ => Err(schema_error("invalid type: expected ", "an unsigned integer")),
        }
    }
}

impl FromJson for bool {
    open spec fn decodes_to(j: Json, v: bool) -> bool {
        j == Json::Bool(v)
    }

    fn from_json(j: &Json) -> (r: Result<bool, Error>) {
        match j {
            Json::Bool(b) => Ok(*b),
            _ => Err(schema_error("invalid type: expected ", "a boolean")),
        }
    }
}

/// The required member `key` of `j` decodes to `v`.
pub open spec fn field_is<T: FromJson>(j: Json, key: Seq<char>, v: T) -> bool {
    match member(j, key) {
        Some(f) => T::decodes_to(f, v),
        None => false,
    }
}

/// The optional member `key` of `j` decodes to `v`: absent or `null` gives
/// `None`.
pub open spec fn opt_field_is<T: FromJson>(j: Json, key: Seq<char>, v: Option<T>) -> bool {
    match member(j, key) {
        None => v is None,
        Some(Json::Null) => v is None,
        Some(f) => match v {
            Some(x) => T::decodes_to(f, x),
            None => false,
        },
    }
}

/// The member `key` of `j` is an array whose items decode, one for one, to
/// the items of `v`.
pub open spec fn list_field_is<T: FromJson>(j: Json, key: Seq<char>, v: Seq<T>) -> bool {
    match member(j, key) {
        Some(Json::Array(a)) => a@.len() == v.len() && forall|i: int|
            0 <= i < v.len() ==> #[trigger] T::decodes_to(a@[i], v[i]),
        _ => false,
    }
}

/// Decodes the required member `key` of `j`.
pub fn field<T: FromJson>(j: &Json, key: &str) -> (r: Result<T, Error>)
    ensures
        match r {
            Ok(v) => field_is(*j, key@, v),
            Err(e) => e.is_schema() && forall|v: T| !#[trigger] field_is(*j, key@, v),
        },
{
    match j.get(key) {
        Some(f) => T::from_json(f),
        None => Err(schema_error("missing field ", key)),
    }
}

/// Decodes the optional member `key` of `j`.
pub fn opt_field<T: FromJson>(j: &Json, key: &str) -> (r: Result<Option<T>, Error>)
    ensures
        match r {
            Ok(v) => opt_field_is(*j, key@, v),
            Err(e) => e.is_schema() && forall|v: Option<T>| !#[trigger] opt_field_is(*j, key@, v),
        },
{
    match j.get(key) {
        Some(f) => {
            if f.is_null() {
                Ok(None)
            } else {
                match T::from_json(f) {
                    Ok(x) => Ok(Some(x)),
                    Err(e) => {
                        assert forall|v: Option<T>| !#[trigger] opt_field_is(*j, key@, v) by {
                            if let Some(x) = v {
                                assert(!T::decodes_to(*f, x));
                            }
                        }
                        Err(e)
                    },
                }
            }
        },
        None => Ok(None),
    }
}

/// Decodes the member `key` of `j`, an array, item by item.
pub fn list_field<T: FromJson>(j: &Json, key: &str) -> (r: Result<Vec<T>, Error>)
    ensures
        match r {
            Ok(v) => list_field_is(*j, key@, v@),
            Err(e) => e.is_schema() && forall|v: Seq<T>| !#[trigger] list_field_is(*j, key@, v),
        },
{
    let got = j.get(key);
    if got.is_none() {
        return Err(schema_error("missing field ", key));
    }
    let f = got.unwrap();
    match f {
        Json::Array(a) => {
            assert(member(*j, key@) == Some(Json::Array(*a)));
            let mut out: Vec<T> = Vec::new();
            let n = a.len();
            let mut i: usize = 0;
            while i < n
                invariant
                    n == a@.len(),
                    i <= n,
                    out@.len() == i,
                    member(*j, key@) == Some(Json::Array(*a)),
                    forall|k: int| 0 <= k < i ==> #[trigger] T::decodes_to(a@[k], out@[k]),
                decreases n - i,
            {
                match T::from_json(&a[i]) {
                    Ok(x) => {
                        out.push(x);
                    },
                    Err(e) => {
                        assert forall|v: Seq<T>| !#[trigger] list_field_is(*j, key@, v) by {
                            if list_field_is(*j, key@, v) {
                                assert(T::decodes_to(a@[i as int], v[i as int]));
                            }
                        }
                        return Err(e);
                    },
                }
                i = i + 1;
            }
            Ok(out)
        },
        _ => Err(schema_error("invalid type: expected an array at ", key)),
    }
}

/// `r` is what decoding the text `text` into a `T` gives: a syntax error
/// where it is not JSON, else the value it decodes to, or a schema error
/// where it decodes to none.
pub open spec fn decoded<T: FromJson>(text: Seq<char>, r: Result<T, Error>) -> bool {
    match parsed_json(text) {
        None => r matches Err(Error::Json(DecodeError::Syntax(_))),
        Some(j) => match r {
            Ok(v) => T::decodes_to(j, v),
            Err(e) => e.is_schema() && forall|v: T| !T::decodes_to(j, v),
        },
    }
}

/// Reads a JSON text and decodes it into a `T`.
pub fn decode<T: FromJson>(text: &str) -> (r: Result<T, Error>)
    ensures
        decoded(text@, r),
{
    let j = parse(text)?;
    T::from_json(&j)
}

/// The text of the member `m`: its key quoted, a colon, its encoded value.
pub open spec fn member_text(m: (Seq<char>, Seq<char>)) -> Seq<char> {
    json_quoted(m.0) + ":"@ + m.1
}

/// The members `ms`, comma-separated.
pub open spec fn members_text(ms: Seq<(Seq<char>, Seq<char>)>) -> Seq<char>
    decreases ms.len(),
{
    if ms.len() == 0 {
        Seq::empty()
    } else if ms.len() == 1 {
        member_text(ms[0])
    } else {
        members_text(ms.drop_last()) + ","@ + member_text(ms.last())
    }
}

/// The JSON object with the members `ms` (key, encoded value), in that order.
pub open spec fn object_text(ms: Seq<(Seq<char>, Seq<char>)>) -> Seq<char> {
    "{"@ + members_text(ms) + "}"@
}

/// Writes a text as a JSON string literal.
pub fn string_json(s: &str) -> (r: String)
    ensures
        r@ == json_quoted(s@),
{
    quote(s)
}

/// Writes the JSON object whose members are `ms`: each a key and its value,
/// already encoded.
pub fn object_json(ms: &Vec<(String, String)>) -> (r: String)
    ensures
        r@ == object_text(ms.deep_view()),
{
    let mut out = String::from_str("{");
    let n = ms.len();
    let mut i: usize = 0;
    while i < n
        invariant
            n == ms@.len(),
            i <= n,
            out@ == "{"@ + members_text(ms.deep_view().take(i as int)),
        decreases n - i,
    {
        let ghost before = ms.deep_view().take(i as int);
        assert(ms.deep_view().take(i + 1).drop_last() =~= before);
        if i > 0 {
            out.append(",");
        }
        let k = quote(ms[i].0.as_str());
        out.append(k.as_str());
        out.append(":");
        out.append(ms[i].1.as_str());
        proof {
            let now = ms.deep_view().take(i + 1);
            assert(now.last() == ms.deep_view()[i as int]);
            if i == 0 {
                assert(now.len() == 1);
                assert(out@ =~= "{"@ + member_text(now[0]));
            } else {
                assert(out@ =~= "{"@ + (members_text(before) + ","@ + member_text(now.last())));
            }
        }
        i = i + 1;
    }
    assert(ms.deep_view().take(n as int) =~= ms.deep_view());
    out.append("}");
    out
}

} // verus!
