use vstd::prelude::*;
use crate::codec::{decode, decode_spec, find_member, member_position};
use crate::error::{Error, FaunaError, FaunaErrors};
use crate::json::{json_view, Json, JsonV};
use crate::value::{value_view, Value, ValueV};

verus! {

/// The successful answer to a query.
#[derive(Debug)]
pub struct Response {
    pub resource: Value,
}

/// The model of one reported error: position, code and description.
pub type FaunaErrorV = (Seq<ValueV>, Seq<char>, Seq<char>);

impl FaunaError {
    pub open spec fn view(&self) -> FaunaErrorV {
        (
            Seq::new(self.position.len() as nat, |i: int| value_view(&self.position[i])),
            self.code@,
            self.description@,
        )
    }
}

impl FaunaErrors {
    pub open spec fn view(&self) -> Seq<FaunaErrorV> {
        Seq::new(self.errors.len() as nat, |i: int| self.errors[i].view())
    }
}

/// The member named `k` of an object: the first one, if there is one.
pub open spec fn member(j: JsonV, k: Seq<char>) -> Option<JsonV> {
    match j {
        JsonV::Object(e) => match member_position(e, k, 0) {
            Some(i) => if 0 <= i < e.len() { Some(e[i].1) } else { None },
            None => None,
        },
        _ => None,
    }
}

/// The text of a member that is a string.
pub open spec fn string_member(j: JsonV, k: Seq<char>) -> Option<Seq<char>> {
    match member(j, k) {
        Some(JsonV::String(s)) => Some(s),
        _ => None,
    }
}

/// The resource of a successful response body `{"resource": ...}`.
pub open spec fn response_spec(j: JsonV) -> Option<ValueV> {
    match member(j, "resource"@) {
        Some(r) => Some(decode_spec(r)),
        None => None,
    }
}

/// One error `{"position": [...], "code": "...", "description": "..."}`.
pub open spec fn error_spec(j: JsonV) -> Option<FaunaErrorV> {
    match (member(j, "position"@), string_member(j, "code"@), string_member(j, "description"@)) {
        (Some(JsonV::Array(p)), Some(code), Some(description)) => Some(
            (Seq::new(p.len(), |i: int| decode_spec(p[i])), code, description),
        ),
        _ => None,
    }
}

/// The errors of a failure body `{"errors": [...]}`, if every one of them
/// has the shape of an error.
pub open spec fn errors_spec(j: JsonV) -> Option<Seq<FaunaErrorV>> {
    match member(j, "errors"@) {
        Some(JsonV::Array(a)) => if forall|i: int| 0 <= i < a.len() ==> (#[trigger] error_spec(a[i])) is Some {
            Some(Seq::new(a.len(), |i: int| error_spec(a[i])->0))
        } else {
            None
        },
        _ => None,
    }
}

/// The member named `key` of an object.
fn get_member<'a>(j: &'a Json, key: &str) -> (r: Option<&'a Json>)
    ensures
        match member(j@, key@) {
            Some(m) => r matches Some(x) && x@ == m,
            None => r is None,
        },
{
    match j {
        Json::Object(e) => match find_member(e, key) {
            Some(i) => Some(&e[i].1),
            None => None,
        },
        _ => None,
    }
}

/// The text of a member that is a string.
fn get_string(j: &Json, key: &str) -> (r: Option<String>)
    ensures
        match string_member(j@, key@) {
            Some(s) => r matches Some(x) && x@ == s,
            None => r is None,
        },
{
    match get_member(j, key) {
        Some(Json::String(s)) => Some(s.clone()),
        _ => None,
    }
}

/// Reads the body of a successful response.
pub fn response_from_json(j: &Json) -> (r: Option<Response>)
    ensures
        match response_spec(j@) {
            Some(v) => r matches Some(x) && x.resource@ == v,
            None => r is None,
        },
{
    match get_member(j, "resource") {
        Some(resource) => Some(Response { resource: decode(resource) }),
        None => None,
    }
}

/// Reads one reported error.
fn error_from_json(j: &Json) -> (r: Option<FaunaError>)
    ensures
        match error_spec(j@) {
            Some(e) => r matches Some(x) && x.view() == e,
            None => r is None,
        },
{
    let p = match get_member(j, "position") {
        Some(Json::Array(p)) => p,
        _ => return None,
    };
    let code = match get_string(j, "code") {
        Some(c) => c,
        None => return None,
    };
    let description = match get_string(j, "description") {
        Some(d) => d,
        None => return None,
    };
    let n = p.len();
    let mut position: Vec<Value> = Vec::new();
    let mut i: usize = 0;
    while i < n
        invariant
            n == p.len(),
            i <= n,
            position.len() == i,
            forall|k: int| 0 <= k < i ==> #[trigger] value_view(&position[k]) == decode_spec(json_view(&p[k])),
        decreases n - i,
    {
        let ghost prev = position;
        position.push(decode(&p[i]));
        assert forall|k: int| 0 <= k <= i implies #[trigger] value_view(&position[k]) == decode_spec(json_view(&p[k])) by {
            if k < i {
                assert(position@[k] == prev@[k]);
            }
        }
        i = i + 1;
    }
    let r = FaunaError { position, code, description };
    assert(r.view().0 =~= (error_spec(j@)->0).0);
    Some(r)
}

/// Reads the body of a rejected query.
pub fn errors_from_json(j: &Json) -> (r: Option<FaunaErrors>)
    ensures
        match errors_spec(j@) {
            Some(es) => r matches Some(x) && x.view() == es,
            None => r is None,
        },
{
    let a = match get_member(j, "errors") {
        Some(Json::Array(a)) => a,
        _ => return None,
    };
    let ghost av = member(j@, "errors"@)->0->Array_0;
    assert(av.len() == a.len());
    let n = a.len();
    let mut errors: Vec<FaunaError> = Vec::new();
    let mut i: usize = 0;
    while i < n
        invariant
            n == a.len(),
            av.len() == n,
            forall|k: int| 0 <= k < n ==> #[trigger] av[k] == json_view(&a[k]),
            member(j@, "errors"@) == Some(JsonV::Array(av)),
            i <= n,
            errors.len() == i,
            forall|k: int| 0 <= k < i ==> (#[trigger] error_spec(av[k])) is Some,
            forall|k: int| 0 <= k < i ==> #[trigger] errors[k].view() == error_spec(av[k])->0,
        decreases n - i,
    {
        match error_from_json(&a[i]) {
            Some(e) => {
                let ghost prev = errors;
                errors.push(e);
                assert forall|k: int| 0 <= k <= i implies #[trigger] errors[k].view() == error_spec(av[k])->0 by {
                    if k < i {
                        assert(errors@[k] == prev@[k]);
                    }
                }
            },
            None => {
                assert(error_spec(av[i as int]) is None);
                assert(member(j@, "errors"@) == Some(JsonV::Array(av)));
                assert(!(forall|k: int| 0 <= k < av.len() ==> (#[trigger] error_spec(av[k])) is Some));
                return None;
            },
        }
        i = i + 1;
    }
    let r = FaunaErrors { errors };
    assert(r.view() =~= errors_spec(j@)->0);
    Some(r)
}

} // verus!
