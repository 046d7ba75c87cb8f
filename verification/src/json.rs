//! A plain model of parsed JSON, the lookups the providers' response paths
//! need, and the trusted boundary to serde_json, which does the parsing.

use vstd::prelude::*;

verus! {

broadcast use vstd::seq_lib::group_seq_properties;

/// A parsed JSON value as plain data. Numbers keep their literal text,
/// objects keep their entries in order of appearance.
#[derive(Debug, PartialEq)]
pub enum Json {
    Null,
    Bool(bool),
    Num(String),
    Text(String),
    Arr(Vec<Json>),
    Obj(Vec<(String, Json)>),
}

/// The value under the first entry of `entries` whose key is `key`, if any.
pub open spec fn spec_key_lookup(entries: Seq<(String, Json)>, key: Seq<char>) -> Option<Json>
    decreases entries.len(),
{
    if entries.len() == 0 {
        None
    } else if entries[0].0@ == key {
        Some(entries[0].1)
    } else {
        spec_key_lookup(entries.drop_first(), key)
    }
}

/// The member of `j` under `key`: `None` unless `j` is an object with that key.
pub open spec fn spec_obj_get(j: Json, key: Seq<char>) -> Option<Json> {
    match j {
        Json::Obj(es) => spec_key_lookup(es@, key),
        _ => None,
    }
}

/// The element of `j` at `i`: `None` unless `j` is an array that is long enough.
pub open spec fn spec_arr_get(j: Json, i: int) -> Option<Json> {
    match j {
        Json::Arr(a) => if 0 <= i < a@.len() {
            Some(a@[i])
        } else {
            None
        },
        _ => None,
    }
}

/// The characters of `j`: `None` unless `j` is a string.
pub open spec fn spec_as_text(j: Json) -> Option<Seq<char>> {
    match j {
        Json::Text(s) => Some(s@),
        _ => None,
    }
}

/// Looks `key` up in `j`, exactly as `spec_obj_get` says.
pub fn obj_get<'a>(j: &'a Json, key: &str) -> (r: Option<&'a Json>)
    ensures
        match r {
            Some(v) => spec_obj_get(*j, key@) == Some(*v),
            None => spec_obj_get(*j, key@) is None,
        },
{
    match j {
        Json::Obj(es) => {
            let k: String = key.to_owned();
            let mut i: usize = 0;
            proof {
                assert(es@.skip(0) =~= es@);
            }
            while i < es.len()
                invariant
                    *j == Json::Obj(*es),
                    i <= es@.len(),
                    k@ == key@,
                    spec_key_lookup(es@, key@) == spec_key_lookup(es@.skip(i as int), key@),
                decreases es@.len() - i,
            {
                if es[i].0 == k {
                    proof {
                        assert(es@.skip(i as int)[0] == es@[i as int]);
                        assert(spec_key_lookup(es@.skip(i as int), key@) == Some(
                            es@[i as int].1,
                        ));
                    }
                    return Some(&es[i].1);
                }
                proof {
                    assert(es@.skip(i as int)[0] == es@[i as int]);
                    assert(es@.skip(i as int).drop_first() =~= es@.skip(i + 1));
                }
                i = i + 1;
            }
            proof {
                assert(es@.skip(es@.len() as int).len() == 0);
            }
            None
        },
        _ => None,
    }
}

/// Indexes into `j`, exactly as `spec_arr_get` says.
pub fn arr_get<'a>(j: &'a Json, i: usize) -> (r: Option<&'a Json>)
    ensures
        match r {
            Some(v) => spec_arr_get(*j, i as int) == Some(*v),
            None => spec_arr_get(*j, i as int) is None,
        },
{
    match j {
        Json::Arr(a) => if i < a.len() {
            Some(&a[i])
        } else {
            None
        },
        _ => None,
    }
}

/// Reads the string out of `j`, exactly as `spec_as_text` says.
pub fn as_text<'a>(j: &'a Json) -> (r: Option<&'a String>)
    ensures
        match r {
            Some(s) => spec_as_text(*j) == Some(s@),
            None => spec_as_text(*j) is None,
        },
{
    match j {
        Json::Text(s) => Some(s),
        _ => None,
    }
}

/// Declares serde_json::Value, the parser's self-describing value type,
/// so that the wrappers below can carry it; it stays opaque here.
#[verifier::external_type_specification]
#[verifier::external_body]
pub struct ExValue(serde_json::Value);

/// The `Json` that a given `serde_json::Value` stands for.
pub uninterp spec fn value_json(v: serde_json::Value) -> Json;

/// What serde_json's parser yields on a given text: `None` where the text is
/// not valid JSON, otherwise the parsed value as plain `Json`.
pub uninterp spec fn json_parse(s: Seq<char>) -> Option<Json>;

/// Relies on serde_json::from_str with the self-describing `Value` target:
/// it succeeds exactly on valid JSON text, deterministically in the text alone,
/// and returns the parser's message on failure.
#[verifier::external_body]
fn parse_value(s: &str) -> (r: Result<serde_json::Value, String>)
    ensures
        r is Ok <==> json_parse(s@) is Some,
        r matches Ok(v) ==> json_parse(s@) == Some(value_json(v)),
{
    match serde_json::from_str::<serde_json::Value>(s) {
        Ok(v) => Ok(v),
        Err(e) => Err(e.to_string()),
    }
}

/// Relies on serde_json::Value being the enum of the six JSON kinds:
/// each variant is converted arm by arm, fields moved one for one.
#[verifier::external_body]
fn value_to_json(v: &serde_json::Value) -> (r: Json)
    ensures
        r == value_json(*v),
{
    match v {
        serde_json::Value::Null => Json::Null,
        serde_json::Value::Bool(b) => Json::Bool(*b),
        serde_json::Value::Number(n) => Json::Num(n.to_string()),
        serde_json::Value::String(s) => Json::Text(s.clone()),
        serde_json::Value::Array(a) => Json::Arr(a.iter().map(value_to_json).collect()),
        serde_json::Value::Object(m) => Json::Obj(
            m.iter().map(|(k, x)| (k.clone(), value_to_json(x))).collect(),
        ),
    }
}

/// Parses `s` as JSON: the parsed value where `s` is valid JSON, otherwise
/// the parser's own message.
pub fn parse_json(s: &str) -> (r: Result<Json, String>)
    ensures
        r matches Ok(j) ==> json_parse(s@) == Some(j),
        r is Err <==> json_parse(s@) is None,
{
    match parse_value(s) {
        Ok(v) => Ok(value_to_json(&v)),
        Err(m) => Err(m),
    }
}

} // verus!
