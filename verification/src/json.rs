//! The library's own model of a JSON document, and the one place the client
//! parses text: everything the response decoders read is held here as plain
//! values, so the decoding rules themselves are verified.
use vstd::prelude::*;

verus! {

/// A JSON document as this client reads one. Numbers carry no payload
/// because no field the client consumes is numeric; an object keeps its
/// entries as an ordered list of key/value pairs.
pub enum Json {
    Null,
    Bool(bool),
    Num,
    Str(String),
    Arr(Vec<Json>),
    Obj(Vec<(String, Json)>),
}

/// What `serde_json` parses a given text to, if anything; the result is a
/// function of the characters alone.
pub uninterp spec fn json_of(s: Seq<char>) -> Option<Json>;

/// The value under `key` in an object's entry list: the first entry whose
/// key matches, as a lookup in a JSON object would find it.
pub open spec fn obj_get(entries: Seq<(String, Json)>, key: Seq<char>) -> Option<Json>
    decreases entries.len(),
{
    if entries.len() == 0 {
        None
    } else if entries[0].0@ == key {
        Some(entries[0].1)
    } else {
        obj_get(entries.drop_first(), key)
    }
}

proof fn lemma_obj_get_at(entries: Seq<(String, Json)>, key: Seq<char>, i: int)
    requires
        0 <= i < entries.len(),
        entries[i].0@ == key,
        forall|j: int| 0 <= j < i ==> entries[j].0@ != key,
    ensures
        obj_get(entries, key) == Some(entries[i].1),
    decreases i,
{
    if i > 0 {
        lemma_obj_get_at(entries.drop_first(), key, i - 1);
    }
}

proof fn lemma_obj_get_none(entries: Seq<(String, Json)>, key: Seq<char>)
    requires
        forall|j: int| 0 <= j < entries.len() ==> entries[j].0@ != key,
    ensures
        obj_get(entries, key) is None,
    decreases entries.len(),
{
    if entries.len() > 0 {
        lemma_obj_get_none(entries.drop_first(), key);
    }
}

/// Finds the first entry under `key`, exactly as `obj_get` describes it.
pub fn lookup<'a>(entries: &'a Vec<(String, Json)>, key: &str) -> (r: Option<&'a Json>)
    ensures
        match r {
            Some(j) => obj_get(entries@, key@) == Some(*j),
            None => obj_get(entries@, key@) is None,
        },
{
    let ks = String::from_str(key);
    let n = entries.len();
    let mut i: usize = 0;
    while i < n
        invariant
            n == entries@.len(),
            i <= n,
            ks@ == key@,
            forall|j: int| 0 <= j < i ==> entries@[j].0@ != key@,
        decreases n - i,
    {
        let e = &entries[i];
        if e.0 == ks {
            proof {
                lemma_obj_get_at(entries@, key@, i as int);
            }
            return Some(&e.1);
        }
        i = i + 1;
    }
    proof {
        lemma_obj_get_none(entries@, key@);
    }
    None
}

/// `serde_json::Value`, opaque here: a parsed document only passes through
/// it on the way into the library's own model.
#[verifier::external_type_specification]
#[verifier::external_body]
pub struct ExValue(serde_json::Value);

/// Mirrors a `serde_json::Value` tree in the library's model, variant for
/// variant; only `parse_json`'s body calls it.
#[verifier::external_body]
fn json_of_value(v: &serde_json::Value) -> Json {
    match v {
        serde_json::Value::Null => Json::Null,
        serde_json::Value::Bool(b) => Json::Bool(*b),
        serde_json::Value::Number(_) => Json::Num,
        serde_json::Value::String(s) => Json::Str(s.clone()),
        serde_json::Value::Array(a) => Json::Arr(a.iter().map(json_of_value).collect()),
        serde_json::Value::Object(o) => Json::Obj(
            o.iter().map(|(k, x)| (k.clone(), json_of_value(x))).collect(),
        ),
    }
}

/// Relies on `serde_json::from_str::<serde_json::Value>`: whether a text is
/// well-formed JSON, and which document it holds, depend on the text alone
/// (object entries arrive in the deterministic order serde_json's map keeps
/// them in).
#[verifier::external_body]
pub(crate) fn parse_json(s: &str) -> (r: Option<Json>)
    ensures
        r == json_of(s@),
{
    match serde_json::from_str::<serde_json::Value>(s) {
        Ok(v) => Some(json_of_value(&v)),
        Err(_) => None,
    }
}

} // verus!
