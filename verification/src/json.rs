//! A parsed JSON document held as plain values.
//!
//! The runtime decides which trigger shape an inbound document has by
//! looking at its structure, so the document itself is modeled as a tree
//! of plain values that specifications can speak about directly.  Parsing
//! the raw bytes into that tree is delegated to serde_json behind a
//! trusted boundary; everything that reads the tree is verified.

use vstd::prelude::*;
use vstd::string::StringExecFns;

verus! {

broadcast use vstd::seq::axiom_seq_index_decreases, vstd::seq::axiom_seq_subrange_decreases;

/// Spec-level shape of a parsed JSON document.  A number is carried in
/// the text the parser renders it as; an object is an ordered sequence
/// of fields.
pub enum JsonView {
    Null,
    Bool(bool),
    Num(Seq<char>),
    Str(Seq<char>),
    Arr(Seq<JsonView>),
    Obj(Seq<(Seq<char>, JsonView)>),
}

/// A parsed JSON document.  Object fields keep the order in which the
/// parser handed them over; keys are unique after parsing.
pub enum Json {
    Null,
    Bool(bool),
    Num(String),
    Str(String),
    Arr(Vec<Json>),
    Obj(Vec<(String, Json)>),
}

/// The models of the elements of an array, in order.
pub open spec fn arr_view(s: Seq<Json>) -> Seq<JsonView>
    decreases s,
{
    if s.len() == 0 {
        Seq::empty()
    } else {
        seq![s[0]@] + arr_view(s.drop_first())
    }
}

/// The models of the fields of an object, in order.
pub open spec fn obj_view(s: Seq<(String, Json)>) -> Seq<(Seq<char>, JsonView)>
    decreases s,
{
    if s.len() == 0 {
        Seq::empty()
    } else {
        seq![(s[0].0@, s[0].1@)] + obj_view(s.drop_first())
    }
}

impl View for Json {
    type V = JsonView;

    open spec fn view(&self) -> JsonView
        decreases self,
    {
        match self {
            Json::Null => JsonView::Null,
            Json::Bool(b) => JsonView::Bool(*b),
            Json::Num(s) => JsonView::Num(s@),
            Json::Str(s) => JsonView::Str(s@),
            Json::Arr(v) => JsonView::Arr(arr_view(v@)),
            Json::Obj(v) => JsonView::Obj(obj_view(v@)),
        }
    }
}

/// An array's model has one element per array element, in order.
pub proof fn lemma_arr_view(s: Seq<Json>)
    ensures
        arr_view(s).len() == s.len(),
        forall|i: int| 0 <= i < s.len() ==> arr_view(s)[i] == s[i]@,
    decreases s.len(),
{
    if s.len() > 0 {
        lemma_arr_view(s.drop_first());
        assert(arr_view(s) == seq![s[0]@] + arr_view(s.drop_first()));
        assert forall|i: int| 0 <= i < s.len() implies arr_view(s)[i] == s[i]@ by {
            if i > 0 {
                assert(arr_view(s)[i] == arr_view(s.drop_first())[i - 1]);
                assert(s.drop_first()[i - 1] == s[i]);
            }
        }
    }
}

/// An object's model has one field per object field, in order.
pub proof fn lemma_obj_view(s: Seq<(String, Json)>)
    ensures
        obj_view(s).len() == s.len(),
        forall|i: int| 0 <= i < s.len() ==> obj_view(s)[i] == (s[i].0@, s[i].1@),
    decreases s.len(),
{
    if s.len() > 0 {
        lemma_obj_view(s.drop_first());
        assert(obj_view(s) == seq![(s[0].0@, s[0].1@)] + obj_view(s.drop_first()));
        assert forall|i: int| 0 <= i < s.len() implies obj_view(s)[i] == (s[i].0@, s[i].1@) by {
            if i > 0 {
                assert(obj_view(s)[i] == obj_view(s.drop_first())[i - 1]);
                assert(s.drop_first()[i - 1] == s[i]);
            }
        }
    }
}

/// The value under the first field named `k`, if any.
pub open spec fn spec_obj_get(o: Seq<(Seq<char>, JsonView)>, k: Seq<char>) -> Option<JsonView>
    decreases o.len(),
{
    if o.len() == 0 {
        None
    } else if o[0].0 == k {
        Some(o[0].1)
    } else {
        spec_obj_get(o.drop_first(), k)
    }
}

proof fn lemma_obj_get_at(o: Seq<(Seq<char>, JsonView)>, k: Seq<char>, i: int)
    requires
        0 <= i < o.len(),
        o[i].0 == k,
        forall|j: int| 0 <= j < i ==> o[j].0 != k,
    ensures
        spec_obj_get(o, k) == Some(o[i].1),
    decreases i,
{
    if i == 0 {
    } else {
        lemma_obj_get_at(o.drop_first(), k, i - 1);
    }
}

proof fn lemma_obj_get_none(o: Seq<(Seq<char>, JsonView)>, k: Seq<char>)
    requires
        forall|j: int| 0 <= j < o.len() ==> o[j].0 != k,
    ensures
        spec_obj_get(o, k) is None,
    decreases o.len(),
{
    if o.len() == 0 {
    } else {
        lemma_obj_get_none(o.drop_first(), k);
    }
}

/// Look a field up in the field list of a parsed object.
pub fn obj_get<'a>(fields: &'a Vec<(String, Json)>, k: &str) -> (r: Option<&'a Json>)
    ensures
        match r {
            Some(j) => spec_obj_get(obj_view(fields@), k@) == Some(j@),
            None => spec_obj_get(obj_view(fields@), k@) is None,
        },
{
    let k_owned = k.to_owned();
    let ghost o = obj_view(fields@);
    proof {
        lemma_obj_view(fields@);
    }
    let mut i: usize = 0;
    while i < fields.len()
        invariant
            i <= fields@.len(),
            k_owned@ == k@,
            o == obj_view(fields@),
            o.len() == fields@.len(),
            forall|j: int| 0 <= j < fields@.len() ==> o[j] == (fields@[j].0@, fields@[j].1@),
            forall|j: int| 0 <= j < i ==> o[j].0 != k@,
        decreases fields@.len() - i,
    {
        if fields[i].0 == k_owned {
            proof {
                lemma_obj_get_at(o, k@, i as int);
            }
            return Some(&fields[i].1);
        }
        i += 1;
    }
    proof {
        lemma_obj_get_none(o, k@);
    }
    None
}

/// What serde_json parses out of the given bytes: the document's model on
/// success, the rendered parse error otherwise.  Parsing is a function of
/// the bytes alone.
pub uninterp spec fn json_of(bytes: Seq<u8>) -> Result<JsonView, Seq<char>>;

/// The model of one parsed serde_json value.
pub uninterp spec fn value_model(v: serde_json::Value) -> JsonView;

#[verifier::external_type_specification]
#[verifier::external_body]
pub struct ExJsonValue(serde_json::Value);

/// Relies on serde_json::Value: each node is moved across one-for-one,
/// a number in the text serde_json renders it as.
#[verifier::external_body]
fn value_to_json(v: serde_json::Value) -> (r: Json)
    ensures
        r@ == value_model(v),
{
    match v {
        serde_json::Value::Null => Json::Null,
        serde_json::Value::Bool(b) => Json::Bool(b),
        serde_json::Value::Number(n) => Json::Num(n.to_string()),
        serde_json::Value::String(s) => Json::Str(s),
        serde_json::Value::Array(a) => Json::Arr(a.into_iter().map(value_to_json).collect()),
        serde_json::Value::Object(m) => Json::Obj(
            m.into_iter().map(|p: (String, serde_json::Value)| (p.0, value_to_json(p.1))).collect(),
        ),
    }
}

/// Relies on serde_json::from_slice: parses exactly one JSON document
/// from the bytes; the `Err` case carries the rendered parse error.
#[verifier::external_body]
pub(crate) fn parse_json(bytes: &[u8]) -> (r: Result<Json, String>)
    ensures
        r is Ok <==> json_of(bytes@) is Ok,
        (r matches Ok(j) ==> json_of(bytes@) matches Ok(jv) && j@ == jv),
        (r matches Err(e) ==> json_of(bytes@) matches Err(ev) && e@ == ev),
{
    match serde_json::from_slice::<serde_json::Value>(bytes) {
        Ok(v) => Ok(value_to_json(v)),
        Err(e) => Err(e.to_string()),
    }
}

} // verus!
