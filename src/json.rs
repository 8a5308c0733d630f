use vstd::prelude::*;
use crate::number::Number;

verus! {

/// A JSON document as a tree: the shape in which the wire codec reads and
/// writes the service's messages. The members of an object are kept in the
/// order in which they are written.
#[derive(Debug)]
pub enum Json {
    Null,
    Bool(bool),
    Number(Number),
    String(String),
    Array(Vec<Json>),
    Object(Vec<(String, Json)>),
}

/// The mathematical model of a [`Json`] tree.
pub enum JsonV {
    Null,
    Bool(bool),
    Number(Number),
    String(Seq<char>),
    Array(Seq<JsonV>),
    Object(Seq<(Seq<char>, JsonV)>),
}

/// The model of a sequence of JSON members.
pub open spec fn json_entries_view(e: &Vec<(String, Json)>) -> Seq<(Seq<char>, JsonV)>
    decreases e, 0nat,
{
    Seq::new(
        e.len() as nat,
        |i: int|
            if 0 <= i < e.len() {
                (e[i].0@, json_view(&e[i].1))
            } else {
                (Seq::empty(), JsonV::Null)
            },
    )
}

/// The model of a JSON tree.
pub open spec fn json_view(j: &Json) -> JsonV
    decreases j, 1nat,
{
    match j {
        Json::Null => JsonV::Null,
        Json::Bool(b) => JsonV::Bool(*b),
        Json::Number(n) => JsonV::Number(*n),
        Json::String(s) => JsonV::String(s@),
        Json::Array(a) => JsonV::Array(
            Seq::new(a.len() as nat, |i: int| if 0 <= i < a.len() { json_view(&a[i]) } else { JsonV::Null }),
        ),
        Json::Object(m) => JsonV::Object(json_entries_view(m)),
    }
}

impl View for Json {
    type V = JsonV;

    open spec fn view(&self) -> JsonV {
        json_view(self)
    }
}

} // verus!
