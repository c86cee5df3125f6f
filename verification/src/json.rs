//! The crate's own structured value for wire payloads.
//!
//! The remote server speaks JSON.  Generic parsing is delegated to
//! `serde_json`; the parsed tree is carried over into [`Json`], a plain value
//! the verifier can see inside, and every rule of the data layer is then
//! stated and proved over [`Json`] alone.
use vstd::prelude::*;

use crate::coerce::{str_eq, str_to_u64, str_to_u64_spec};
use crate::error::{Error, ErrorView};

verus! {

/// A structured wire value.
#[derive(Debug, PartialEq)]
pub enum Json {
    Null,
    Bool(bool),
    /// A non-negative integer that fits `u64` — the only numbers the
    /// protocol's identity and count fields may take.
    Num(u64),
    /// Any other number literal (negative, fractional, or too large), kept
    /// as its decimal text so that failures can report it verbatim.
    BadNum(String),
    Str(String),
    Arr(Vec<Json>),
    /// An object as an ordered list of pairs; on lookup the first binding of
    /// a key wins.
    Obj(Vec<(String, Json)>),
}

/// The first value bound to `key`, if any.
pub open spec fn lookup(pairs: Seq<(String, Json)>, key: Seq<char>) -> Option<Json>
    decreases pairs.len(),
{
    if pairs.len() == 0 {
        None
    } else if pairs[0].0@ == key {
        Some(pairs[0].1)
    } else {
        lookup(pairs.drop_first(), key)
    }
}

/// The field `key` of an object value; `None` on any other shape.
pub open spec fn get_field(v: Json, key: Seq<char>) -> Option<Json> {
    match v {
        Json::Obj(pairs) => lookup(pairs@, key),
        _ => None,
    }
}

/// Looks a field up in an object value.
pub fn field<'a>(v: &'a Json, key: &str) -> (r: Option<&'a Json>)
    ensures
        (match r {
            Some(j) => get_field(*v, key@) == Some(*j),
            None => get_field(*v, key@) is None,
        }),
{
    match v {
        Json::Obj(pairs) => {
            proof {
                assert(pairs@.skip(0) =~= pairs@);
            }
            let mut i: usize = 0;
            while i < pairs.len()
                invariant
                    v is Obj,
                    v->Obj_0 == *pairs,
                    0 <= i <= pairs.len(),
                    lookup(pairs@, key@) == lookup(pairs@.skip(i as int), key@),
                decreases pairs.len() - i,
            {
                proof {
                    assert(pairs@.skip(i as int).len() > 0);
                    assert(pairs@.skip(i as int)[0] == pairs@[i as int]);
                    assert(pairs@.skip(i as int).drop_first() =~= pairs@.skip(i as int + 1));
                }
                if str_eq(pairs[i].0.as_str(), key) {
                    proof {
                        assert(lookup(pairs@.skip(i as int), key@)
                            == Some(pairs@[i as int].1));
                        assert(get_field(*v, key@) == lookup(pairs@, key@));
                    }
                    return Some(&pairs[i].1);
                }
                i = i + 1;
            }
            proof {
                assert(pairs@.skip(pairs.len() as int) =~= Seq::<(String, Json)>::empty());
            }
            None
        },
        _ => None,
    }
}

/// No binding of `key` means no field: the whole object misses it.
proof fn lemma_lookup_no_match(pairs: Seq<(String, Json)>, key: Seq<char>)
    requires
        forall|j: int| 0 <= j < pairs.len() ==> #[trigger] pairs[j].0@ != key,
    ensures
        lookup(pairs, key) is None,
    decreases pairs.len(),
{
    if pairs.len() > 0 {
        assert(pairs[0].0@ != key);
        assert(forall|j: int|
            0 <= j < pairs.drop_first().len()
                ==> #[trigger] pairs.drop_first()[j].0@ != key);
        lemma_lookup_no_match(pairs.drop_first(), key);
    }
}

/// The first binding of `key` is the one lookup yields.
proof fn lemma_lookup_first_match(pairs: Seq<(String, Json)>, key: Seq<char>, i: int)
    requires
        0 <= i < pairs.len(),
        forall|j: int| 0 <= j < i ==> #[trigger] pairs[j].0@ != key,
        pairs[i].0@ == key,
    ensures
        lookup(pairs, key) == Some(pairs[i].1),
    decreases i,
{
    if i > 0 {
        assert(forall|j: int|
            0 <= j < i - 1 ==> #[trigger] pairs.drop_first()[j].0@ != key);
        assert(pairs.drop_first()[i - 1] == pairs[i]);
        lemma_lookup_first_match(pairs.drop_first(), key, i - 1);
    }
}

/// Moves the field `key` out of an object value, consuming the value.
#[verifier::loop_isolation(false)]
pub fn take_field(v: Json, key: &str) -> (r: Option<Json>)
    ensures
        r == get_field(v, key@),
{
    let ghost vg = v;
    match v {
        Json::Obj(mut pairs) => {
            let ghost orig = pairs@;
            let mut i: usize = 0;
            while i < pairs.len()
                invariant
                    vg is Obj,
                    vg->Obj_0@ == orig,
                    pairs@ == orig,
                    0 <= i <= pairs@.len(),
                    forall|j: int| 0 <= j < i ==> #[trigger] pairs@[j].0@ != key@,
                decreases pairs@.len() - i,
            {
                if str_eq(pairs[i].0.as_str(), key) {
                    proof {
                        lemma_lookup_first_match(pairs@, key@, i as int);
                        assert(get_field(vg, key@) == lookup(orig, key@));
                    }
                    let p = pairs.remove(i);
                    return Some(p.1);
                }
                i = i + 1;
            }
            proof {
                lemma_lookup_no_match(pairs@, key@);
                assert(get_field(vg, key@) == lookup(orig, key@));
            }
            None
        },
        _ => None,
    }
}

/// What lenient coercion of one wire value to an unsigned integer yields:
/// a native number is taken as is, a string is parsed as decimal, and every
/// other shape is refused.
pub open spec fn lenient_uint(v: Json) -> Option<u64> {
    match v {
        Json::Num(n) => Some(n),
        Json::Str(s) => str_to_u64_spec(s@),
        _ => None,
    }
}

/// The raw text reported when a declared-numeric value fails coercion.
pub open spec fn raw_text(v: Json) -> Seq<char> {
    match v {
        Json::Str(s) => s@,
        Json::BadNum(t) => t@,
        Json::Bool(b) => if b { "true"@ } else { "false"@ },
        Json::Null => "null"@,
        _ => Seq::<char>::empty(),
    }
}

/// Coerces a wire value that is declared numeric into a `u64`.
///
/// A native number and its decimal string yield the same canonical value; a
/// value that is present but not a non-negative integer is a fatal error
/// naming the field and the raw text, never a silent default.
pub fn parse_lenient_uint(v: &Json, field_name: &str) -> (r: Result<u64, Error>)
    ensures
        (match lenient_uint(*v) {
            Some(n) => r == Ok::<u64, Error>(n),
            None => r matches Err(e) && e@ == ErrorView::Malformed(field_name@, raw_text(*v)),
        }),
{
    match v {
        Json::Num(n) => Ok(*n),
        Json::Str(s) => match str_to_u64(s.as_str()) {
            Some(n) => Ok(n),
            None => Err(Error::Malformed(field_name.to_owned(), s.clone())),
        },
        Json::BadNum(t) => Err(Error::Malformed(field_name.to_owned(), t.clone())),
        Json::Bool(b) => Err(
            Error::Malformed(
                field_name.to_owned(),
                if *b {
                    "true".to_owned()
                } else {
                    "false".to_owned()
                },
            ),
        ),
        Json::Null => Err(Error::Malformed(field_name.to_owned(), "null".to_owned())),
        Json::Arr(_) => Err(Error::Malformed(field_name.to_owned(), String::new())),
        Json::Obj(_) => Err(Error::Malformed(field_name.to_owned(), String::new())),
    }
}

/// The raw text of a wire value, as coercion failures report it.
pub fn raw_text_of(v: &Json) -> (r: String)
    ensures
        r@ == raw_text(*v),
{
    match v {
        Json::Str(s) => s.clone(),
        Json::BadNum(t) => t.clone(),
        Json::Bool(b) => if *b {
            "true".to_owned()
        } else {
            "false".to_owned()
        },
        Json::Null => "null".to_owned(),
        _ => String::new(),
    }
}

/// What reading the declared-numeric field `key` of an entity object yields:
/// an absent field, or one that resists lenient coercion, is malformed.
pub open spec fn uint_field(v: Json, key: Seq<char>) -> Result<u64, ErrorView> {
    match get_field(v, key) {
        None => Err(ErrorView::Malformed(key, Seq::<char>::empty())),
        Some(j) => match lenient_uint(j) {
            Some(n) => Ok(n),
            None => Err(ErrorView::Malformed(key, raw_text(j))),
        },
    }
}

/// What reading the required string field `key` yields.
pub open spec fn str_field(v: Json, key: Seq<char>) -> Result<Seq<char>, ErrorView> {
    match get_field(v, key) {
        None => Err(ErrorView::Malformed(key, Seq::<char>::empty())),
        Some(j) => match j {
            Json::Str(s) => Ok(s@),
            _ => Err(ErrorView::Malformed(key, raw_text(j))),
        },
    }
}

/// What reading the optional string field `key` yields: an absent or null
/// field maps to the unset representation, never to an error.
pub open spec fn opt_str_field(v: Json, key: Seq<char>) -> Result<Option<Seq<char>>, ErrorView> {
    match get_field(v, key) {
        None => Ok(None),
        Some(j) => match j {
            Json::Str(s) => Ok(Some(s@)),
            Json::Null => Ok(None),
            _ => Err(ErrorView::Malformed(key, raw_text(j))),
        },
    }
}

/// Reads the declared-numeric field `key`, coercing leniently.
pub fn get_uint_field(v: &Json, key: &str) -> (r: Result<u64, Error>)
    ensures
        (match uint_field(*v, key@) {
            Ok(n) => r == Ok::<u64, Error>(n),
            Err(e) => r matches Err(err) && err@ == e,
        }),
{
    match field(v, key) {
        None => Err(Error::Malformed(key.to_owned(), String::new())),
        Some(j) => parse_lenient_uint(j, key),
    }
}

/// Reads the required string field `key`.
pub fn get_str_field(v: &Json, key: &str) -> (r: Result<String, Error>)
    ensures
        (match str_field(*v, key@) {
            Ok(s) => r matches Ok(out) && out@ == s,
            Err(e) => r matches Err(err) && err@ == e,
        }),
{
    match field(v, key) {
        None => Err(Error::Malformed(key.to_owned(), String::new())),
        Some(j) => match j {
            Json::Str(s) => Ok(s.clone()),
            _ => Err(Error::Malformed(key.to_owned(), raw_text_of(j))),
        },
    }
}

/// Reads the optional string field `key`.
pub fn get_opt_str_field(v: &Json, key: &str) -> (r: Result<Option<String>, Error>)
    ensures
        (match opt_str_field(*v, key@) {
            Ok(None) => r matches Ok(out) && out is None,
            Ok(Some(s)) => r matches Ok(out) && out matches Some(x) && x@ == s,
            Err(e) => r matches Err(err) && err@ == e,
        }),
{
    match field(v, key) {
        None => Ok(None),
        Some(j) => match j {
            Json::Str(s) => Ok(Some(s.clone())),
            Json::Null => Ok(None),
            _ => Err(Error::Malformed(key.to_owned(), raw_text_of(j))),
        },
    }
}

/// A number field and the equivalent numeric string coerce to the same
/// canonical integer: normalization cannot tell the two wire spellings apart.
pub proof fn lemma_lenient_uint_uniform(s: String, n: u64)
    requires
        str_to_u64_spec(s@) == Some(n),
    ensures
        lenient_uint(Json::Str(s)) == Some(n),
        lenient_uint(Json::Num(n)) == Some(n),
{
}

/// The same law at the entity boundary: two objects whose declared-numeric
/// field carries the decimal string and the native number respectively
/// normalize that field to the same canonical integer.
pub proof fn lemma_uint_field_uniform(v1: Json, v2: Json, key: Seq<char>, s: String, n: u64)
    requires
        str_to_u64_spec(s@) == Some(n),
        get_field(v1, key) == Some(Json::Str(s)),
        get_field(v2, key) == Some(Json::Num(n)),
    ensures
        uint_field(v1, key) == Ok::<u64, ErrorView>(n),
        uint_field(v1, key) == uint_field(v2, key),
{
}

#[verifier::external_type_specification]
#[verifier::external_body]
pub struct ExJsonValue(serde_json::Value);

/// What parsing a text as JSON yields, carried into the crate's own
/// structured value; the result depends on the text alone.
pub uninterp spec fn json_of(s: Seq<char>) -> Option<Json>;

/// Relies on `serde_json::Value`: one arm per variant of the parsed tree,
/// moving each part into the crate's own structured value.  A number that is
/// not a non-negative integer fitting `u64` keeps its decimal text.
#[verifier::external_body]
fn from_raw(v: serde_json::Value) -> Json {
    match v {
        serde_json::Value::Null => Json::Null,
        serde_json::Value::Bool(b) => Json::Bool(b),
        serde_json::Value::Number(n) => match n.as_u64() {
            Some(u) => Json::Num(u),
            None => Json::BadNum(n.to_string()),
        },
        serde_json::Value::String(s) => Json::Str(s),
        serde_json::Value::Array(a) => Json::Arr(a.into_iter().map(from_raw).collect()),
        serde_json::Value::Object(m) => Json::Obj(
            m.into_iter().map(|(k, x)| (k, from_raw(x))).collect(),
        ),
    }
}

/// Relies on `serde_json::from_str`: a deterministic parse of the given
/// text, `None` exactly when the text is not well-formed JSON.
#[verifier::external_body]
fn parse_json_raw(s: &str) -> (r: Option<Json>)
    ensures
        r == json_of(s@),
{
    match serde_json::from_str::<serde_json::Value>(s) {
        Ok(v) => Some(from_raw(v)),
        Err(_) => None,
    }
}

/// Parses a text as JSON into the crate's own structured value.
pub fn parse_json(s: &str) -> (r: Option<Json>)
    ensures
        r == json_of(s@),
{
    parse_json_raw(s)
}

} // verus!
