//! What the request filters and records share: room privacy, the text of
//! numbers, and query strings.
use vstd::prelude::*;

use crate::error::{DecodeError, Error};
use crate::json::{json_quoted, string_json, FromJson, Json};

verus! {

/// Who may enter a room.
#[derive(Debug, Clone, Copy, Hash, PartialEq, Eq, Structural)]
pub enum Privacy {
    Public,
    Private,
}

impl Privacy {
    /// The wire string of each variant.
    pub open spec fn wire(self) -> Seq<char> {
        match self {
            Privacy::Public => "public"@,
            Privacy::Private => "private"@,
        }
    }

    /// The variant whose wire string is `s`, if any.
    pub open spec fn from_wire(s: Seq<char>) -> Option<Privacy> {
        if s == "public"@ {
            Some(Privacy::Public)
        } else if s == "private"@ {
            Some(Privacy::Private)
        } else {
            None
        }
    }

    /// The wire string.
    pub fn as_str(&self) -> (r: &'static str)
        ensures
            r@ == self.wire(),
    {
        match self {
            Privacy::Public => "public",
            Privacy::Private => "private",
        }
    }

    /// The variant whose wire string is `s`.
    pub fn parse(s: &str) -> (r: Result<Privacy, Error>)
        ensures
            match r {
                Ok(p) => Privacy::from_wire(s@) == Some(p),
                Err(e) => Privacy::from_wire(s@) is None && e.is_schema_with(
                    "invalid value for privacy"@,
                ),
            },
    {
        if text_is(s, "public") {
            Ok(Privacy::Public)
        } else if text_is(s, "private") {
            Ok(Privacy::Private)
        } else {
            Err(Error::Json(DecodeError::Schema(String::from_str("invalid value for privacy"))))
        }
    }

    /// The JSON string of the variant.
    pub fn to_json(&self) -> (r: String)
        ensures
            r@ == json_quoted(self.wire()),
    {
        string_json(self.as_str())
    }
}

/// Encoding a privacy and decoding the result gives it back, and a string
/// that encodes no privacy does not decode.
pub proof fn privacy_wire_round_trip(p: Privacy, s: Seq<char>)
    ensures
        Privacy::from_wire(p.wire()) == Some(p),
        Privacy::from_wire(s) is None <==> forall|q: Privacy| q.wire() != s,
{
    reveal_strlit("public");
    reveal_strlit("private");
    assert("public"@[1] != "private"@[1]);
    match p {
        Privacy::Public => {},
        Privacy::Private => {},
    }
    if Privacy::from_wire(s) is None {
        assert forall|q: Privacy| q.wire() != s by {
            match q {
                Privacy::Public => {},
                Privacy::Private => {},
            }
        }
    } else {
        assert(Privacy::from_wire(s).unwrap().wire() == s);
    }
}

impl Default for Privacy {
    fn default() -> (r: Privacy)
        ensures
            r == Privacy::Public,
    {
        Privacy::Public
    }
}

impl FromJson for Privacy {
    open spec fn decodes_to(j: Json, v: Privacy) -> bool {
        j matches Json::Str(s) && Privacy::from_wire(s@) == Some(v)
    }

    fn from_json(j: &Json) -> (r: Result<Privacy, Error>) {
        match j {
            Json::Str(s) => Privacy::parse(s.as_str()),
            _ => Err(Error::Json(DecodeError::Schema(String::from_str("invalid value for privacy")))),
        }
    }
}

/// Whether the text `s` is `lit`.
pub fn text_is(s: &str, lit: &str) -> (r: bool)
    ensures
        r == (s@ == lit@),
{
    String::from_str(s) == String::from_str(lit)
}

/// The character of a decimal digit.
pub open spec fn digit_char(d: nat) -> char {
    if d == 0 {
        '0'
    } else if d == 1 {
        '1'
    } else if d == 2 {
        '2'
    } else if d == 3 {
        '3'
    } else if d == 4 {
        '4'
    } else if d == 5 {
        '5'
    } else if d == 6 {
        '6'
    } else if d == 7 {
        '7'
    } else if d == 8 {
        '8'
    } else {
        '9'
    }
}

/// The decimal digits of `n`, without sign or leading zeros.
pub open spec fn decimal_text(n: nat) -> Seq<char>
    decreases n,
{
    if n < 10 {
        seq![digit_char(n)]
    } else {
        decimal_text(n / 10).push(digit_char(n % 10))
    }
}

/// Relies on `u64`'s `Display` (through `to_string`): the decimal digits of
/// the number, without sign or leading zeros.
#[verifier::external_body]
fn decimal(n: u64) -> (r: String)
    ensures
        r@ == decimal_text(n as nat),
{
    n.to_string()
}

/// Writes `n` in decimal.
pub fn u64_text(n: u64) -> (r: String)
    ensures
        r@ == decimal_text(n as nat),
{
    decimal(n)
}

/// The text of a boolean in a query: `true` or `false`.
pub open spec fn flag_text(b: bool) -> Seq<char> {
    if b {
        "true"@
    } else {
        "false"@
    }
}

/// Writes a boolean as a query value.
pub fn bool_text(b: bool) -> (r: String)
    ensures
        r@ == flag_text(b),
{
    if b {
        String::from_str("true")
    } else {
        String::from_str("false")
    }
}

/// The `application/x-www-form-urlencoded` escaping that url writes for one
/// name or value.
pub uninterp spec fn form_escaped(s: Seq<char>) -> Seq<char>;

/// One `name=value` pair of a query, escaped.
pub open spec fn pair_text(p: (Seq<char>, Seq<char>)) -> Seq<char> {
    form_escaped(p.0) + "="@ + form_escaped(p.1)
}

/// The query string of `pairs`: each pair escaped, joined by `&`.
pub open spec fn query_text(pairs: Seq<(Seq<char>, Seq<char>)>) -> Seq<char>
    decreases pairs.len(),
{
    if pairs.len() == 0 {
        Seq::empty()
    } else if pairs.len() == 1 {
        pair_text(pairs[0])
    } else {
        query_text(pairs.drop_last()) + "&"@ + pair_text(pairs.last())
    }
}

/// Relies on `url::form_urlencoded::Serializer` on a new `String`: each pair
/// is appended as the escaped name, `=` and the escaped value, with `&`
/// before every pair but the first.
#[verifier::external_body]
fn form_encode(pairs: &Vec<(String, String)>) -> (r: String)
    ensures
        r@ == query_text(pairs.deep_view()),
        pairs@.len() == 1 ==> r@ == form_escaped(pairs@[0].0@) + "="@ + form_escaped(pairs@[0].1@),
{
    url::form_urlencoded::Serializer::new(String::new()).extend_pairs(pairs).finish()
}

/// A pair for `key` where `v` is present, none where it is absent.
pub open spec fn opt_pair(key: Seq<char>, v: Option<Seq<char>>) -> Seq<(Seq<char>, Seq<char>)> {
    match v {
        Some(t) => seq![(key, t)],
        None => Seq::empty(),
    }
}

/// The decimal text of a number, where present.
pub open spec fn opt_decimal(o: Option<u64>) -> Option<Seq<char>> {
    match o {
        Some(n) => Some(decimal_text(n as nat)),
        None => None,
    }
}

/// The text of a flag, where present.
pub open spec fn opt_flag(o: Option<bool>) -> Option<Seq<char>> {
    match o {
        Some(b) => Some(flag_text(b)),
        None => None,
    }
}

/// A text as it stands, where present.
pub open spec fn opt_text(o: Option<String>) -> Option<Seq<char>> {
    match o {
        Some(s) => Some(s@),
        None => None,
    }
}

/// Appends the pair `key`, `value`.
pub fn push_pair(query: &mut Vec<(String, String)>, key: &str, value: String)
    ensures
        final(query).deep_view() == old(query).deep_view().push((key@, value@)),
{
    query.push((String::from_str(key), value));
    assert(final(query).deep_view() =~= old(query).deep_view().push((key@, value@)));
}

/// Appends `key` with the decimal text of `o`, where present.
pub fn push_opt_decimal(query: &mut Vec<(String, String)>, key: &str, o: Option<u64>)
    ensures
        final(query).deep_view() == old(query).deep_view() + opt_pair(key@, opt_decimal(o)),
{
    let ghost start = query.deep_view();
    if let Some(n) = o {
        push_pair(query, key, u64_text(n));
    }
    assert(query.deep_view() =~= start + opt_pair(key@, opt_decimal(o)));
}

/// Appends `key` with the text of the flag `o`, where present.
pub fn push_opt_flag(query: &mut Vec<(String, String)>, key: &str, o: Option<bool>)
    ensures
        final(query).deep_view() == old(query).deep_view() + opt_pair(key@, opt_flag(o)),
{
    let ghost start = query.deep_view();
    if let Some(b) = o {
        push_pair(query, key, bool_text(b));
    }
    assert(query.deep_view() =~= start + opt_pair(key@, opt_flag(o)));
}

/// Appends `key` with the text `o` as it stands, where present.
pub fn push_opt_text(query: &mut Vec<(String, String)>, key: &str, o: &Option<String>)
    ensures
        final(query).deep_view() == old(query).deep_view() + opt_pair(key@, opt_text(*o)),
{
    let ghost start = query.deep_view();
    if let Some(t) = o {
        push_pair(query, key, t.clone());
    }
    assert(query.deep_view() =~= start + opt_pair(key@, opt_text(*o)));
}

/// A filter that adds parameters to a query string.
pub trait AppendToQueryParams {
    /// The pairs (name, plain value) that the filter adds, in order.
    spec fn query_pairs(&self) -> Seq<(Seq<char>, Seq<char>)>;

    /// Appends one pair for each field that is present, in declared order.
    fn append_to(&self, query: &mut Vec<(String, String)>)
        ensures
            final(query).deep_view() == old(query).deep_view() + self.query_pairs(),
    ;
}

/// The escaped query string of a filter.
pub fn query_string<Q: AppendToQueryParams>(q: &Q) -> (r: String)
    ensures
        r@ == query_text(q.query_pairs()),
{
    let mut pairs: Vec<(String, String)> = Vec::new();
    q.append_to(&mut pairs);
    assert(pairs.deep_view() =~= Seq::<(Seq<char>, Seq<char>)>::empty() + q.query_pairs());
    form_encode(&pairs)
}

} // verus!
