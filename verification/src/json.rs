//! The library's own JSON model. Wire bodies are built and read as
//! `JsonValue` trees; parsing response text into a tree is delegated to
//! an outside parser behind a trusted wrapper, and everything read out
//! of the tree afterwards is verified against the spec functions here.

use vstd::prelude::*;
use crate::strutil::str_eq;

verus! {

/// A JSON document. Object members keep the order in which the parser
/// or an encoder produced them; keys are unique in parsed documents.
#[derive(Debug, PartialEq, Eq)]
pub enum JsonValue {
    Null,
    Bool(bool),
    /// A number that fits a signed 64-bit integer.
    Int(i64),
    /// Any other number, kept as its literal text.
    Flt(String),
    Str(String),
    Arr(Vec<JsonValue>),
    Obj(Vec<(String, JsonValue)>),
}

/// A JSON number as it stood on the wire: either an integer or the
/// literal text of a non-integer number. Monetary amounts are carried
/// this way; the library never computes with them.
#[derive(Debug, Clone, PartialEq, Eq)]
pub enum WireNumber {
    Int(i64),
    Literal(String),
}

#[verifier::external_type_specification]
#[verifier::external_body]
pub struct ExSerdeValue(serde_json::Value);

/// What the outside parser returns on given text: `None` exactly when
/// the text is not valid JSON, otherwise the parsed tree.
pub uninterp spec fn spec_parse_json(s: Seq<char>) -> Option<JsonValue>;

/// Relies on serde_json::from_str::<serde_json::Value>: parses JSON text
/// into a tree; the result depends on the text alone, and is an error
/// exactly when the text is not a valid JSON document.
#[verifier::external_body]
pub(crate) fn parse_json(text: &str) -> (r: Option<JsonValue>)
    ensures
        r == spec_parse_json(text@),
{
    match serde_json::from_str::<serde_json::Value>(text) {
        Ok(v) => Some(json_from_value(&v)),
        Err(_) => None,
    }
}

/// Relies on serde_json::Value's variants and serde_json::Number's
/// accessors: converts the outside tree one node at a time into the
/// library's own model, moving each field. A number that fits i64
/// becomes `Int`; any other number keeps its literal text.
#[verifier::external_body]
fn json_from_value(v: &serde_json::Value) -> JsonValue {
    match v {
        serde_json::Value::Null => JsonValue::Null,
        serde_json::Value::Bool(b) => JsonValue::Bool(*b),
        serde_json::Value::Number(n) => match n.as_i64() {
            Some(i) => JsonValue::Int(i),
            None => JsonValue::Flt(n.to_string()),
        },
        serde_json::Value::String(s) => JsonValue::Str(s.clone()),
        serde_json::Value::Array(a) => JsonValue::Arr(a.iter().map(json_from_value).collect()),
        serde_json::Value::Object(m) => JsonValue::Obj(
            m.iter().map(|(k, x)| (k.clone(), json_from_value(x))).collect(),
        ),
    }
}


/// The shape of an encoded JSON value, with text by content: what an
/// encoder promises to have built, stated over views.
pub enum JsonModel {
    Null,
    Bool(bool),
    Int(i64),
    /// A non-integer number, by its literal text.
    Num(Seq<char>),
    Str(Seq<char>),
    Arr(Seq<JsonModel>),
    Obj(Seq<(Seq<char>, JsonModel)>),
}

/// Whether a built JSON value spells a model.
pub open spec fn spec_json_matches(v: JsonValue, g: JsonModel) -> bool
    decreases g,
{
    match g {
        JsonModel::Null => v is Null,
        JsonModel::Bool(b) => v == JsonValue::Bool(b),
        JsonModel::Int(i) => v == JsonValue::Int(i),
        JsonModel::Num(s) => v matches JsonValue::Flt(x) && x@ == s,
        JsonModel::Str(s) => v matches JsonValue::Str(x) && x@ == s,
        JsonModel::Arr(gs) => v matches JsonValue::Arr(xs) && xs@.len() == gs.len() && (forall|
            i: int,
        |
            0 <= i < gs.len() ==> spec_json_matches(#[trigger] xs@[i], gs[i])),
        JsonModel::Obj(ges) => v matches JsonValue::Obj(ps) && ps@.len() == ges.len() && (forall|
            i: int,
        |
            0 <= i < ges.len() ==> (#[trigger] ps@[i]).0@ == ges[i].0 && spec_json_matches(
                ps@[i].1,
                ges[i].1,
            )),
    }
}

/// The model a wire number spells when encoded back into JSON.
pub open spec fn spec_num_model(n: WireNumber) -> JsonModel {
    match n {
        WireNumber::Int(i) => JsonModel::Int(i),
        WireNumber::Literal(s) => JsonModel::Num(s@),
    }
}

/// Whether built object members spell a model's entries, pointwise.
pub open spec fn spec_entries_match(
    ps: Seq<(String, JsonValue)>,
    es: Seq<(Seq<char>, JsonModel)>,
) -> bool {
    &&& ps.len() == es.len()
    &&& forall|i: int|
        0 <= i < ps.len() ==> (#[trigger] ps[i]).0@ == es[i].0 && spec_json_matches(
            ps[i].1,
            es[i].1,
        )
}

pub proof fn lemma_entries_match_push(
    ps: Seq<(String, JsonValue)>,
    es: Seq<(Seq<char>, JsonModel)>,
    p: (String, JsonValue),
    e: (Seq<char>, JsonModel),
)
    requires
        spec_entries_match(ps, es),
        p.0@ == e.0,
        spec_json_matches(p.1, e.1),
    ensures
        spec_entries_match(ps.push(p), es.push(e)),
{
    let ps2 = ps.push(p);
    let es2 = es.push(e);
    assert forall|i: int| 0 <= i < ps2.len() implies (#[trigger] ps2[i]).0@ == es2[i].0
        && spec_json_matches(ps2[i].1, es2[i].1) by {
        if i < ps.len() {
            assert(ps2[i] == ps[i]);
            assert(es2[i] == es[i]);
        } else {
            assert(ps2[i] == p);
            assert(es2[i] == e);
        }
    }
}


/// Looks a key up in an object's member list: the first member whose
/// key matches, or `None` when no key matches.
pub open spec fn spec_lookup(pairs: Seq<(String, JsonValue)>, key: Seq<char>) -> Option<
    JsonValue,
>
    decreases pairs.len(),
{
    if pairs.len() == 0 {
        None
    } else if pairs[0].0@ == key {
        Some(pairs[0].1)
    } else {
        spec_lookup(pairs.drop_first(), key)
    }
}

/// The member of an object under a key; `None` when the value is not an
/// object or has no such member.
pub open spec fn spec_field(v: JsonValue, key: Seq<char>) -> Option<JsonValue> {
    match v {
        JsonValue::Obj(pairs) => spec_lookup(pairs@, key),
        _ => None,
    }
}

proof fn lemma_lookup_step(pairs: Seq<(String, JsonValue)>, key: Seq<char>, i: int)
    requires
        0 <= i <= pairs.len(),
        forall|j: int| 0 <= j < i ==> pairs[j].0@ != key,
    ensures
        spec_lookup(pairs, key) == spec_lookup(pairs.subrange(i, pairs.len() as int), key),
    decreases i,
{
    if i > 0 {
        assert(pairs.drop_first() =~= pairs.subrange(1, pairs.len() as int));
        lemma_lookup_step(pairs.subrange(1, pairs.len() as int), key, i - 1);
        assert(pairs.subrange(1, pairs.len() as int).subrange(i - 1, pairs.len() - 1) =~= pairs
            .subrange(i, pairs.len() as int));
    } else {
        assert(pairs.subrange(0, pairs.len() as int) =~= pairs);
    }
}

/// Finds a member of a JSON object by key.
pub fn field<'a>(v: &'a JsonValue, key: &str) -> (r: Option<&'a JsonValue>)
    ensures
        match r {
            Some(x) => spec_field(*v, key@) == Some(*x),
            None => spec_field(*v, key@) is None,
        },
{
    match v {
        JsonValue::Obj(pairs) => {
            assert(*v == JsonValue::Obj(*pairs));
            let n = pairs.len();
            let mut i: usize = 0;
            while i < n
                invariant
                    *v == JsonValue::Obj(*pairs),
                    n == pairs@.len(),
                    0 <= i <= n,
                    forall|j: int| 0 <= j < i ==> pairs@[j].0@ != key@,
                decreases n - i,
            {
                let p = &pairs[i];
                if str_eq(p.0.as_str(), key) {
                    proof {
                        lemma_lookup_step(pairs@, key@, i as int);
                        let sub = pairs@.subrange(i as int, pairs@.len() as int);
                        assert(sub[0] == pairs@[i as int]);
                        assert(sub[0].0@ == key@);
                        assert(spec_lookup(sub, key@) == Some(sub[0].1));
                        assert(spec_field(*v, key@) == spec_lookup(pairs@, key@));
                        assert(spec_lookup(pairs@, key@) == Some(pairs@[i as int].1));
                        assert(p.1 == pairs@[i as int].1);
                    }
                    return Some(&p.1);
                }
                i = i + 1;
            }
            proof {
                lemma_lookup_step(pairs@, key@, n as int);
            }
            None
        },
        _ => None,
    }
}

/// Removes and returns a member of a JSON object by key, handing the
/// member's value out by value.
pub fn extract_field(v: JsonValue, key: &str) -> (r: Option<JsonValue>)
    ensures
        r == spec_field(v, key@),
{
    match v {
        JsonValue::Obj(pairs) => {
            let ghost pairs0: Vec<(String, JsonValue)> = pairs;
            let mut work = pairs;
            let n = work.len();
            let mut i: usize = 0;
            while i < n
                invariant
                    v == JsonValue::Obj(pairs0),
                    work == pairs0,
                    n == pairs0@.len(),
                    0 <= i <= n,
                    forall|j: int| 0 <= j < i ==> pairs0@[j].0@ != key@,
                decreases n - i,
            {
                let hit = str_eq(work[i].0.as_str(), key);
                if hit {
                    proof {
                        lemma_lookup_step(pairs0@, key@, i as int);
                        let sub = pairs0@.subrange(i as int, pairs0@.len() as int);
                        assert(sub[0] == pairs0@[i as int]);
                        assert(spec_lookup(sub, key@) == Some(sub[0].1));
                    }
                    let p = work.remove(i);
                    proof {
                        assert(p == pairs0@[i as int]);
                        assert(spec_field(v, key@) == spec_lookup(pairs0@, key@));
                        assert(spec_lookup(pairs0@, key@) == Some(pairs0@[i as int].1));
                    }
                    return Some(p.1);
                }
                i = i + 1;
            }
            proof {
                lemma_lookup_step(pairs0@, key@, n as int);
            }
            None
        },
        _ => None,
    }
}

// --- Typed field readers. The `req_` readers stand for fields the wire
// contract requires: absent, null or wrongly-typed fields fail. The
// `opt_` readers stand for optional fields: absent or null is `Some(None)`,
// a wrongly-typed present value fails with `None`.

pub open spec fn spec_req_str(v: JsonValue, key: Seq<char>) -> Option<String> {
    match spec_field(v, key) {
        Some(JsonValue::Str(s)) => Some(s),
        _ => None,
    }
}

pub fn req_str(v: &JsonValue, key: &str) -> (r: Option<String>)
    ensures
        r == spec_req_str(*v, key@),
{
    match field(v, key) {
        Some(JsonValue::Str(s)) => Some(s.clone()),
        _ => None,
    }
}

pub open spec fn spec_opt_str(v: JsonValue, key: Seq<char>) -> Option<Option<String>> {
    match spec_field(v, key) {
        None => Some(None),
        Some(JsonValue::Null) => Some(None),
        Some(JsonValue::Str(s)) => Some(Some(s)),
        Some(_) => None,
    }
}

pub fn opt_str(v: &JsonValue, key: &str) -> (r: Option<Option<String>>)
    ensures
        r == spec_opt_str(*v, key@),
{
    match field(v, key) {
        None => Some(None),
        Some(JsonValue::Null) => Some(None),
        Some(JsonValue::Str(s)) => Some(Some(s.clone())),
        Some(_) => None,
    }
}

pub open spec fn spec_req_i64(v: JsonValue, key: Seq<char>) -> Option<i64> {
    match spec_field(v, key) {
        Some(JsonValue::Int(i)) => Some(i),
        _ => None,
    }
}

pub fn req_i64(v: &JsonValue, key: &str) -> (r: Option<i64>)
    ensures
        r == spec_req_i64(*v, key@),
{
    match field(v, key) {
        Some(JsonValue::Int(i)) => Some(*i),
        _ => None,
    }
}

pub open spec fn spec_opt_i64(v: JsonValue, key: Seq<char>) -> Option<Option<i64>> {
    match spec_field(v, key) {
        None => Some(None),
        Some(JsonValue::Null) => Some(None),
        Some(JsonValue::Int(i)) => Some(Some(i)),
        Some(_) => None,
    }
}

pub fn opt_i64(v: &JsonValue, key: &str) -> (r: Option<Option<i64>>)
    ensures
        r == spec_opt_i64(*v, key@),
{
    match field(v, key) {
        None => Some(None),
        Some(JsonValue::Null) => Some(None),
        Some(JsonValue::Int(i)) => Some(Some(*i)),
        Some(_) => None,
    }
}

pub open spec fn spec_opt_bool(v: JsonValue, key: Seq<char>) -> Option<Option<bool>> {
    match spec_field(v, key) {
        None => Some(None),
        Some(JsonValue::Null) => Some(None),
        Some(JsonValue::Bool(b)) => Some(Some(b)),
        Some(_) => None,
    }
}

pub fn opt_bool(v: &JsonValue, key: &str) -> (r: Option<Option<bool>>)
    ensures
        r == spec_opt_bool(*v, key@),
{
    match field(v, key) {
        None => Some(None),
        Some(JsonValue::Null) => Some(None),
        Some(JsonValue::Bool(b)) => Some(Some(*b)),
        Some(_) => None,
    }
}

pub open spec fn spec_num_of(v: JsonValue) -> Option<WireNumber> {
    match v {
        JsonValue::Int(i) => Some(WireNumber::Int(i)),
        JsonValue::Flt(s) => Some(WireNumber::Literal(s)),
        _ => None,
    }
}

pub open spec fn spec_req_num(v: JsonValue, key: Seq<char>) -> Option<WireNumber> {
    match spec_field(v, key) {
        Some(x) => spec_num_of(x),
        None => None,
    }
}

pub fn req_num(v: &JsonValue, key: &str) -> (r: Option<WireNumber>)
    ensures
        r == spec_req_num(*v, key@),
{
    match field(v, key) {
        Some(JsonValue::Int(i)) => Some(WireNumber::Int(*i)),
        Some(JsonValue::Flt(s)) => Some(WireNumber::Literal(s.clone())),
        _ => None,
    }
}

pub open spec fn spec_opt_num(v: JsonValue, key: Seq<char>) -> Option<Option<WireNumber>> {
    match spec_field(v, key) {
        None => Some(None),
        Some(JsonValue::Null) => Some(None),
        Some(JsonValue::Int(i)) => Some(Some(WireNumber::Int(i))),
        Some(JsonValue::Flt(s)) => Some(Some(WireNumber::Literal(s))),
        Some(_) => None,
    }
}

pub fn opt_num(v: &JsonValue, key: &str) -> (r: Option<Option<WireNumber>>)
    ensures
        r == spec_opt_num(*v, key@),
{
    match field(v, key) {
        None => Some(None),
        Some(JsonValue::Null) => Some(None),
        Some(JsonValue::Int(i)) => Some(Some(WireNumber::Int(*i))),
        Some(JsonValue::Flt(s)) => Some(Some(WireNumber::Literal(s.clone()))),
        Some(_) => None,
    }
}

/// Converts a wire number back into the JSON node it came from.
pub open spec fn spec_num_to_json(n: WireNumber) -> JsonValue {
    match n {
        WireNumber::Int(i) => JsonValue::Int(i),
        WireNumber::Literal(s) => JsonValue::Flt(s),
    }
}

pub fn num_to_json(n: &WireNumber) -> (r: JsonValue)
    ensures
        r == spec_num_to_json(*n),
{
    match n {
        WireNumber::Int(i) => JsonValue::Int(*i),
        WireNumber::Literal(s) => JsonValue::Flt(s.clone()),
    }
}

} // verus!
