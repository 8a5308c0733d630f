use vstd::prelude::*;
use crate::base64_bytes::{base64_decoded, base64_of};
use crate::date::{date_parsed, date_text_of, timestamp_parsed, timestamp_text_of, LocalTime, Timestamp};
use crate::json::{json_entries_view, json_view, Json, JsonV};
use crate::number::Number;
use crate::reference::{LocationKind, Ref, RefLocation, RefV};
use crate::ts_microseconds::{micros_count, micros_nanos, micros_representable, micros_secs};
use crate::date::{in_four_digit_years, rfc3339_text, is_iso_date, iso_date_injective, iso_date_text, is_valid_date, Date};
use crate::text::str_eq;
use crate::value::{entries_view, value_view, var_key, Object, Query, Value, ValueV};

verus! {

/// The key under which a nested reference names its parent: `index` for an
/// index, `class` for the other kinds.
pub open spec fn location_key(kind: LocationKind) -> Seq<char> {
    match kind {
        LocationKind::Index => "index"@,
        _ => "class"@,
    }
}

/// The wire form of the inside of a reference: its id, then the key of its
/// parent's kind with the parent as a `@ref` object.
pub open spec fn ref_json(r: RefV) -> JsonV
    decreases r,
{
    match r {
        RefV::Root(id) => JsonV::Object(seq![("id"@, JsonV::String(id))]),
        RefV::Nested(id, kind, parent) => JsonV::Object(
            seq![
                ("id"@, JsonV::String(id)),
                (location_key(kind), JsonV::Object(seq![("@ref"@, ref_json(*parent))])),
            ],
        ),
    }
}

/// A one-member object: the form of every annotated value.
pub open spec fn tagged(tag: Seq<char>, payload: JsonV) -> JsonV {
    JsonV::Object(seq![(tag, payload)])
}

/// The wire form of a value. Primitives and arrays are written as
/// themselves; annotated values as a one-member object under their tag; a
/// data object under `object`; a plain object and a query node as plain
/// objects.
pub open spec fn encode_spec(v: ValueV) -> JsonV
    decreases v,
{
    match v {
        ValueV::Null => JsonV::Null,
        ValueV::Boolean(b) => JsonV::Bool(b),
        ValueV::String(s) => JsonV::String(s),
        ValueV::Number(n) => JsonV::Number(n),
        ValueV::Array(a) => JsonV::Array(
            Seq::new(a.len(), |i: int| if 0 <= i < a.len() { encode_spec(a[i]) } else { JsonV::Null }),
        ),
        ValueV::Object(e) => tagged(
            "object"@,
            JsonV::Object(
                Seq::new(
                    e.len(),
                    |i: int|
                        if 0 <= i < e.len() {
                            (e[i].0, encode_spec(e[i].1))
                        } else {
                            (Seq::empty(), JsonV::Null)
                        },
                ),
            ),
        ),
        ValueV::PlainObject(e) => JsonV::Object(
            Seq::new(
                e.len(),
                |i: int|
                    if 0 <= i < e.len() {
                        (e[i].0, encode_spec(e[i].1))
                    } else {
                        (Seq::empty(), JsonV::Null)
                    },
            ),
        ),
        ValueV::Query(e) => JsonV::Object(
            Seq::new(
                e.len(),
                |i: int|
                    if 0 <= i < e.len() {
                        (e[i].0, encode_spec(e[i].1))
                    } else {
                        (Seq::empty(), JsonV::Null)
                    },
            ),
        ),
        ValueV::Ref(r) => tagged("@ref"@, ref_json(r)),
        ValueV::Bytes(b) => tagged("@bytes"@, JsonV::String(base64_of(b))),
        ValueV::Date(y, m, d) => tagged(
            "@date"@,
            JsonV::String(
                if 0 <= y <= 9999 {
                    iso_date_text(y as nat, m as nat, d as nat)
                } else {
                    date_text_of(y, m, d)
                },
            ),
        ),
        ValueV::Timestamp(s, n) => tagged(
            "@ts"@,
            JsonV::String(
                if in_four_digit_years(s, n) {
                    rfc3339_text(s as int, n as nat)
                } else {
                    timestamp_text_of(s, n)
                },
            ),
        ),
        ValueV::SavedSet(x) => tagged("@set"@, encode_spec(*x)),
        ValueV::Quote(x) => tagged("@query"@, encode_spec(*x)),
    }
}

/// The wire form of a sequence of named values.
pub open spec fn encode_entries_spec(e: Seq<(Seq<char>, ValueV)>) -> Seq<(Seq<char>, JsonV)> {
    Seq::new(
        e.len(),
        |i: int| if 0 <= i < e.len() { (e[i].0, encode_spec(e[i].1)) } else { (Seq::empty(), JsonV::Null) },
    )
}

/// A one-member object.
fn tag(key: &str, payload: Json) -> (r: Json)
    ensures
        r@ == tagged(key@, payload@),
{
    let ghost p = payload@;
    let mut m: Vec<(String, Json)> = Vec::new();
    m.push((key.to_owned(), payload));
    assert(json_entries_view(&m) =~= seq![(key@, p)]);
    Json::Object(m)
}

/// The wire form of the inside of a reference.
fn encode_ref(r: &Ref) -> (j: Json)
    ensures
        j@ == ref_json(r@),
    decreases r,
{
    let mut m: Vec<(String, Json)> = Vec::new();
    m.push(("id".to_owned(), Json::String(r.id.clone())));
    let ghost m0 = m;
    match &r.location {
        None => {
            let j = Json::Object(m);
            assert(r@ == RefV::Root(r.id@));
            assert(json_entries_view(&m)[0] == ("id"@, JsonV::String(r.id@)));
            assert(j@->Object_0 =~= ref_json(r@)->Object_0);
            j
        },
        Some(loc) => {
            let key: &str = match loc {
                RefLocation::Index { .. } => "index",
                _ => "class",
            };
            let inner = match loc {
                RefLocation::Class { location } => encode_ref(location),
                RefLocation::Database { location } => encode_ref(location),
                RefLocation::Index { location } => encode_ref(location),
                RefLocation::Function { location } => encode_ref(location),
            };
            assert(key@ == location_key(loc.kind()));
            assert(inner@ == ref_json(loc.parent()@));
            assert(r@ == RefV::Nested(r.id@, loc.kind(), Box::new(loc.parent()@)));
            m.push((key.to_owned(), tag("@ref", inner)));
            let j = Json::Object(m);
            assert(m@[0] == m0@[0]);
            assert(json_entries_view(&m)[0] == ("id"@, JsonV::String(r.id@)));
            assert(json_entries_view(&m)[1] == (location_key(loc.kind()), tagged("@ref"@, ref_json(loc.parent()@))));
            assert(j@->Object_0 =~= ref_json(r@)->Object_0);
            j
        },
    }
}

/// The wire form of a sequence of named values.
fn encode_entries(e: &Vec<(String, Value)>) -> (r: Vec<(String, Json)>)
    ensures
        json_entries_view(&r) == encode_entries_spec(entries_view(e)),
    decreases e, 0nat,
{
    let n = e.len();
    let mut out: Vec<(String, Json)> = Vec::new();
    let mut i: usize = 0;
    while i < n
        invariant
            n == e.len(),
            i <= n,
            out.len() == i,
            forall|j: int| 0 <= j < i ==> #[trigger] json_entries_view(&out)[j] == encode_entries_spec(entries_view(e))[j],
        decreases n - i,
    {
        let ghost prev = out;
        let item = encode(&e[i].1);
        out.push((e[i].0.clone(), item));
        assert forall|j: int| 0 <= j <= i implies #[trigger] json_entries_view(&out)[j] == encode_entries_spec(entries_view(e))[j] by {
            if j < i {
                assert(out@[j] == prev@[j]);
                assert(json_entries_view(&prev)[j] == encode_entries_spec(entries_view(e))[j]);
            }
        }
        i = i + 1;
    }
    assert(json_entries_view(&out) =~= encode_entries_spec(entries_view(e)));
    out
}

/// Writes a value in the service's JSON dialect.
pub fn encode(v: &Value) -> (j: Json)
    ensures
        j@ == encode_spec(v@),
    decreases v, 1nat,
{
    match v {
        Value::Null => Json::Null,
        Value::Boolean(b) => Json::Bool(*b),
        Value::String(s) => Json::String(s.clone()),
        Value::Number(n) => Json::Number(*n),
        Value::Array(a) => {
            let n = a.len();
            let mut out: Vec<Json> = Vec::new();
            let mut i: usize = 0;
            while i < n
                invariant
                    n == a.len(),
                    *v == Value::Array(*a),
                    i <= n,
                    out.len() == i,
                    forall|j: int| 0 <= j < i ==> #[trigger] json_view(&out[j]) == encode_spec(value_view(&a[j])),
                decreases n - i,
            {
                assert(decreases_to!(*v => a[i as int])) by {
                    assert(decreases_to!(*v => (*v)->Array_0));
                    assert(decreases_to!((*v)->Array_0 => (*v)->Array_0[i as int]));
                }
                let ghost prev = out;
                out.push(encode(&a[i]));
                assert forall|j: int| 0 <= j <= i implies #[trigger] json_view(&out[j]) == encode_spec(value_view(&a[j])) by {
                    if j < i {
                        assert(out@[j] == prev@[j]);
                    }
                }
                i = i + 1;
            }
            let j = Json::Array(out);
            assert(j@->Array_0 =~= encode_spec(v@)->Array_0) by {
                assert forall|k: int| 0 <= k < n implies #[trigger] j@->Array_0[k] == encode_spec(v@)->Array_0[k] by {
                    assert(v@->Array_0[k] == value_view(&a[k]));
                    assert(j@->Array_0[k] == json_view(&out[k]));
                }
            }
            j
        },
        Value::Object(o) => {
            let inner = Json::Object(encode_entries(&o.entries));
            assert(inner@ == JsonV::Object(encode_entries_spec(o@)));
            let j = tag("object", inner);
            assert(j@ =~= encode_spec(v@)) by {
                assert(encode_entries_spec(o@) =~= encode_spec(v@)->Object_0[0].1->Object_0);
            }
            j
        },
        Value::PlainObject(o) => {
            let j = Json::Object(encode_entries(&o.entries));
            assert(j@->Object_0 =~= encode_spec(v@)->Object_0);
            j
        },
        Value::Query(q) => match &**q {
            Query::Var(x) => {
                let j = tag("var", Json::String(x.var.clone()));
                proof {
                    reveal_strlit("var");
                    assert("var"@ =~= seq!['v', 'a', 'r']);
                    let e = v@->Query_0;
                    assert(e == seq![(var_key(), ValueV::String(x.var@))]);
                    assert(encode_spec(v@)->Object_0[0] == (e[0].0, encode_spec(e[0].1)));
                    assert(j@->Object_0 =~= encode_spec(v@)->Object_0);
                }
                j
            },
            Query::Call(args) => {
                let j = Json::Object(encode_entries(args));
                assert(j@->Object_0 =~= encode_spec(v@)->Object_0);
                j
            },
        },
        Value::Ref(r) => tag("@ref", encode_ref(r)),
        Value::Bytes(b) => tag("@bytes", Json::String(crate::base64_bytes::serialize(b))),
        Value::Date(d) => tag("@date", Json::String(d.to_text())),
        Value::Timestamp(t) => tag("@ts", Json::String(t.to_text())),
        Value::SavedSet(x) => tag("@set", encode(x)),
        Value::Quote(x) => tag("@query", encode(x)),
    }
}

/// The first position from `i` on of a member named `k`.
pub open spec fn member_position(e: Seq<(Seq<char>, JsonV)>, k: Seq<char>, i: int) -> Option<int>
    decreases e.len() - i,
{
    if i < 0 || i >= e.len() {
        None
    } else if e[i].0 == k {
        Some(i)
    } else {
        member_position(e, k, i + 1)
    }
}

/// The kind of parent that a member key names.
pub open spec fn parent_kind(k: Seq<char>) -> LocationKind {
    if k == "index"@ {
        LocationKind::Index
    } else {
        LocationKind::Class
    }
}

/// Reads the inside of a reference: a string `id`, and a parent under
/// `class` (or else under `index`) written as a `@ref` object. `None` when
/// the shape does not match.
pub open spec fn ref_from_json(p: JsonV) -> Option<RefV>
    decreases p,
{
    match p {
        JsonV::Object(e) => match member_position(e, "id"@, 0) {
            Some(i) => if 0 <= i < e.len() && e[i].1 is String {
                let id = e[i].1->String_0;
                let loc = match member_position(e, "class"@, 0) {
                    Some(c) => Some(c),
                    None => member_position(e, "index"@, 0),
                };
                match loc {
                    None => Some(RefV::Root(id)),
                    Some(c) => if 0 <= c < e.len() && e[c].1 is Object && e[c].1->Object_0.len() == 1
                        && e[c].1->Object_0[0].0 == "@ref"@ {
                        match ref_from_json(e[c].1->Object_0[0].1) {
                            Some(parent) => Some(RefV::Nested(id, parent_kind(e[c].0), Box::new(parent))),
                            None => None,
                        }
                    } else {
                        None
                    },
                }
            } else {
                None
            },
            None => None,
        },
        _ => None,
    }
}

/// The instant of a microsecond count, if there is one.
pub open spec fn micros_instant(n: Number) -> Option<ValueV> {
    if micros_representable(n) {
        Some(ValueV::Timestamp(micros_secs(micros_count(n)) as i64, micros_nanos(micros_count(n))))
    } else {
        None
    }
}

/// Reads a value from the service's JSON dialect. An object with one member
/// whose key is a reserved tag (`@ref`, `@bytes`, `@date`, `@ts`, `@set`,
/// `@query`, `object`) and whose payload has that tag's shape is the
/// annotated value; every other object is a plain object. Never fails.
pub open spec fn decode_spec(j: JsonV) -> ValueV
    decreases j,
{
    match j {
        JsonV::Null => ValueV::Null,
        JsonV::Bool(b) => ValueV::Boolean(b),
        JsonV::Number(n) => ValueV::Number(n),
        JsonV::String(s) => ValueV::String(s),
        JsonV::Array(a) => ValueV::Array(
            Seq::new(a.len(), |i: int| if 0 <= i < a.len() { decode_spec(a[i]) } else { ValueV::Null }),
        ),
        JsonV::Object(e) => {
            let plain = ValueV::PlainObject(
                Seq::new(
                    e.len(),
                    |i: int|
                        if 0 <= i < e.len() {
                            (e[i].0, decode_spec(e[i].1))
                        } else {
                            (Seq::empty(), ValueV::Null)
                        },
                ),
            );
            if e.len() != 1 {
                plain
            } else {
                let k = e[0].0;
                let p = e[0].1;
                if k == "@ref"@ {
                    match ref_from_json(p) {
                        Some(r) => ValueV::Ref(r),
                        None => plain,
                    }
                } else if k == "@bytes"@ {
                    match p {
                        JsonV::String(s) => if exists|b: Seq<u8>| base64_of(b) == s {
                            ValueV::Bytes(choose|b: Seq<u8>| base64_of(b) == s)
                        } else {
                            match base64_decoded(s) {
                                Some(b) => ValueV::Bytes(b),
                                None => plain,
                            }
                        },
                        _ => plain,
                    }
                } else if k == "@date"@ {
                    match p {
                        JsonV::String(s) => if exists|t: (i32, u32, u32)| is_iso_date(t, s) {
                            let t = choose|t: (i32, u32, u32)| is_iso_date(t, s);
                            ValueV::Date(t.0, t.1, t.2)
                        } else {
                            match date_parsed(s) {
                                Some(t) => ValueV::Date(t.0, t.1, t.2),
                                None => plain,
                            }
                        },
                        _ => plain,
                    }
                } else if k == "@ts"@ {
                    match p {
                        JsonV::String(s) => match timestamp_parsed(s) {
                            Some(t) => ValueV::Timestamp(t.0, t.1),
                            None => plain,
                        },
                        JsonV::Number(n) => match micros_instant(n) {
                            Some(v) => v,
                            None => plain,
                        },
                        _ => plain,
                    }
                } else if k == "@set"@ {
                    ValueV::SavedSet(Box::new(decode_spec(p)))
                } else if k == "@query"@ {
                    ValueV::Quote(Box::new(decode_spec(p)))
                } else if k == "object"@ {
                    match p {
                        JsonV::Object(e2) => ValueV::Object(
                            Seq::new(
                                e2.len(),
                                |i: int|
                                    if 0 <= i < e2.len() {
                                        (e2[i].0, decode_spec(e2[i].1))
                                    } else {
                                        (Seq::empty(), ValueV::Null)
                                    },
                            ),
                        ),
                        _ => plain,
                    }
                } else {
                    plain
                }
            }
        },
    }
}

/// The values of a sequence of members, read one by one.
pub open spec fn decode_entries_spec(e: Seq<(Seq<char>, JsonV)>) -> Seq<(Seq<char>, ValueV)> {
    Seq::new(
        e.len(),
        |i: int| if 0 <= i < e.len() { (e[i].0, decode_spec(e[i].1)) } else { (Seq::empty(), ValueV::Null) },
    )
}

/// The position of the first member named `key`.
pub(crate) fn find_member(e: &Vec<(String, Json)>, key: &str) -> (r: Option<usize>)
    ensures
        match member_position(json_entries_view(e), key@, 0) {
            Some(i) => r == Some(i as usize) && 0 <= i < e.len(),
            None => r is None,
        },
{
    let n = e.len();
    let mut i: usize = 0;
    while i < n
        invariant
            n == e.len(),
            i <= n,
            member_position(json_entries_view(e), key@, 0) == member_position(json_entries_view(e), key@, i as int),
        decreases n - i,
    {
        if str_eq(e[i].0.as_str(), key) {
            return Some(i);
        }
        i = i + 1;
    }
    None
}

/// Reads the inside of a reference.
fn decode_ref(p: &Json) -> (r: Option<Ref>)
    ensures
        match ref_from_json(p@) {
            Some(x) => r matches Some(y) && y@ == x,
            None => r is None,
        },
    decreases p,
{
    match p {
        Json::Object(e) => {
            let ghost ev = json_entries_view(e);
            assert(p@ == JsonV::Object(ev));
            let i = match find_member(e, "id") {
                Some(i) => i,
                None => return None,
            };
            let id = match &e[i].1 {
                Json::String(s) => s.clone(),
                _ => return None,
            };
            assert(ev[i as int].1 == JsonV::String(id@));
            let c = match find_member(e, "class") {
                Some(c) => Some(c),
                None => find_member(e, "index"),
            };
            match c {
                None => Some(Ref { id, location: None }),
                Some(c) => match &e[c].1 {
                    Json::Object(e2) => {
                        assert(ev[c as int].1 == JsonV::Object(json_entries_view(e2)));
                        if e2.len() == 1 && str_eq(e2[0].0.as_str(), "@ref") {
                            assert(decreases_to!(*p => e2[0].1)) by {
                                assert(decreases_to!(*p => (*p)->Object_0));
                                assert(decreases_to!((*p)->Object_0 => (*p)->Object_0[c as int]));
                                assert(decreases_to!((*p)->Object_0[c as int] => (*p)->Object_0[c as int].1));
                                assert(decreases_to!((*p)->Object_0[c as int].1 => (*p)->Object_0[c as int].1->Object_0));
                                assert(decreases_to!((*p)->Object_0[c as int].1->Object_0 => (*p)->Object_0[c as int].1->Object_0[0]));
                            }
                            match decode_ref(&e2[0].1) {
                                Some(parent) => {
                                    let kind = if str_eq(e[c].0.as_str(), "index") {
                                        LocationKind::Index
                                    } else {
                                        LocationKind::Class
                                    };
                                    Some(Ref { id, location: Some(RefLocation::new(kind, parent)) })
                                },
                                None => None,
                            }
                        } else {
                            None
                        }
                    },
                    _ => None,
                },
            }
        },
        _ => None,
    }
}

/// Reads the values of a sequence of members.
fn decode_entries(e: &Vec<(String, Json)>) -> (r: Vec<(String, Value)>)
    ensures
        entries_view(&r) == decode_entries_spec(json_entries_view(e)),
    decreases e, 0nat,
{
    let n = e.len();
    let mut out: Vec<(String, Value)> = Vec::new();
    let mut i: usize = 0;
    while i < n
        invariant
            n == e.len(),
            i <= n,
            out.len() == i,
            forall|j: int| 0 <= j < i ==> #[trigger] entries_view(&out)[j] == decode_entries_spec(json_entries_view(e))[j],
        decreases n - i,
    {
        let ghost prev = out;
        let item = decode(&e[i].1);
        out.push((e[i].0.clone(), item));
        assert forall|j: int| 0 <= j <= i implies #[trigger] entries_view(&out)[j] == decode_entries_spec(json_entries_view(e))[j] by {
            if j < i {
                assert(out@[j] == prev@[j]);
                assert(entries_view(&prev)[j] == decode_entries_spec(json_entries_view(e))[j]);
            }
        }
        i = i + 1;
    }
    assert(entries_view(&out) =~= decode_entries_spec(json_entries_view(e)));
    out
}

/// Reads a value written in the service's JSON dialect.
pub fn decode(j: &Json) -> (v: Value)
    ensures
        v@ == decode_spec(j@),
    decreases j, 1nat,
{
    match j {
        Json::Null => Value::Null,
        Json::Bool(b) => Value::Boolean(*b),
        Json::Number(n) => Value::Number(*n),
        Json::String(s) => Value::String(s.clone()),
        Json::Array(a) => {
            let n = a.len();
            let mut out: Vec<Value> = Vec::new();
            let mut i: usize = 0;
            while i < n
                invariant
                    n == a.len(),
                    *j == Json::Array(*a),
                    i <= n,
                    out.len() == i,
                    forall|k: int| 0 <= k < i ==> #[trigger] value_view(&out[k]) == decode_spec(json_view(&a[k])),
                decreases n - i,
            {
                assert(decreases_to!(*j => a[i as int])) by {
                    assert(decreases_to!(*j => (*j)->Array_0));
                    assert(decreases_to!((*j)->Array_0 => (*j)->Array_0[i as int]));
                }
                let ghost prev = out;
                out.push(decode(&a[i]));
                assert forall|k: int| 0 <= k <= i implies #[trigger] value_view(&out[k]) == decode_spec(json_view(&a[k])) by {
                    if k < i {
                        assert(out@[k] == prev@[k]);
                    }
                }
                i = i + 1;
            }
            let v = Value::Array(out);
            assert(v@->Array_0 =~= decode_spec(j@)->Array_0) by {
                assert forall|k: int| 0 <= k < n implies #[trigger] v@->Array_0[k] == decode_spec(j@)->Array_0[k] by {
                    assert(j@->Array_0[k] == json_view(&a[k]));
                    assert(v@->Array_0[k] == value_view(&out[k]));
                }
            }
            v
        },
        Json::Object(e) => {
            let ghost ev = json_entries_view(e);
            assert(j@ == JsonV::Object(ev));
            if e.len() == 1 {
                let k = e[0].0.as_str();
                let p = &e[0].1;
                assert(ev[0] == (k@, p@));
                assert(decreases_to!(*j => *p)) by {
                    assert(decreases_to!(*j => (*j)->Object_0));
                    assert(decreases_to!((*j)->Object_0 => (*j)->Object_0[0]));
                }
                if str_eq(k, "@ref") {
                    match decode_ref(p) {
                        Some(r) => return Value::Ref(r),
                        None => {},
                    }
                } else if str_eq(k, "@bytes") {
                    match p {
                        Json::String(s) => {
                            let r = crate::base64_bytes::deserialize(s.as_str());
                            proof {
                                if exists|b: Seq<u8>| base64_of(b) == s@ {
                                    let w = choose|b: Seq<u8>| base64_of(b) == s@;
                                    assert(base64_of(w) == s@);
                                }
                            }
                            match r {
                                Ok(b) => return Value::Bytes(b),
                                Err(_) => {},
                            }
                        },
                        _ => {},
                    }
                } else if str_eq(k, "@date") {
                    match p {
                        Json::String(s) => {
                            let r = Date::parse(s.as_str());
                            proof {
                                if exists|t: (i32, u32, u32)| is_iso_date(t, s@) {
                                    let t = choose|t: (i32, u32, u32)| is_iso_date(t, s@);
                                    assert(iso_date_text(t.0 as nat, t.1 as nat, t.2 as nat) == s@);
                                }
                            }
                            match r {
                                Some(d) => return Value::Date(d),
                                None => {},
                            }
                        },
                        _ => {},
                    }
                } else if str_eq(k, "@ts") {
                    match p {
                        Json::String(s) => match Timestamp::parse(s.as_str()) {
                            Some(t) => return Value::Timestamp(t),
                            None => {},
                        },
                        Json::Number(n) => match crate::ts_microseconds::deserialize(*n) {
                            Ok(t) => return Value::Timestamp(t),
                            Err(_) => {},
                        },
                        _ => {},
                    }
                } else if str_eq(k, "@set") {
                    return Value::SavedSet(Box::new(decode(p)));
                } else if str_eq(k, "@query") {
                    return Value::Quote(Box::new(decode(p)));
                } else if str_eq(k, "object") {
                    match p {
                        Json::Object(e2) => {
                            assert(decreases_to!(*j => *e2)) by {
                                assert(decreases_to!(*p => (*p)->Object_0));
                            }
                            let v = Value::Object(Object { entries: decode_entries(e2) });
                            assert(v@->Object_0 =~= decode_spec(j@)->Object_0);
                            return v;
                        },
                        _ => {},
                    }
                }
            }
            let v = Value::PlainObject(Object { entries: decode_entries(e) });
            assert(v@->PlainObject_0 =~= decode_entries_spec(ev));
            assert(decode_spec(j@) is PlainObject);
            assert(v@->PlainObject_0 =~= decode_spec(j@)->PlainObject_0);
            v
        },
    }
}

/// Whether a value is built from host values alone: null, booleans,
/// strings, numbers, byte sequences, dates of the years 0 to 9999, and
/// arrays and objects of such values.
pub open spec fn from_host(v: ValueV) -> bool
    decreases v,
{
    match v {
        ValueV::Null => true,
        ValueV::Boolean(_) => true,
        ValueV::String(_) => true,
        ValueV::Number(_) => true,
        ValueV::Bytes(_) => true,
        ValueV::Date(y, m, d) => 0 <= y <= 9999 && is_valid_date(y as int, m as int, d as int),
        ValueV::Array(a) => forall|i: int| 0 <= i < a.len() ==> from_host(#[trigger] a[i]),
        ValueV::Object(e) => forall|i: int| 0 <= i < e.len() ==> from_host(#[trigger] e[i].1),
        _ => false,
    }
}

/// Decoding the encoding of a value built from host values gives the value
/// back.
pub proof fn round_trip(v: ValueV)
    requires
        from_host(v),
    ensures
        decode_spec(encode_spec(v)) == v,
    decreases v,
{
    match v {
        ValueV::Array(a) => {
            assert forall|i: int| 0 <= i < a.len() implies decode_spec(encode_spec(#[trigger] a[i])) == a[i] by {
                round_trip(a[i]);
            }
            assert(decode_spec(encode_spec(v))->Array_0 =~= a);
        },
        ValueV::Object(e) => {
            assert forall|i: int| 0 <= i < e.len() implies decode_spec(encode_spec(#[trigger] e[i].1)) == e[i].1 by {
                round_trip(e[i].1);
            }
            reveal_strlit("object");
            reveal_strlit("@ref");
            reveal_strlit("@bytes");
            reveal_strlit("@date");
            reveal_strlit("@ts");
            reveal_strlit("@set");
            reveal_strlit("@query");
            let tag = "object"@;
            assert(tag != "@ref"@ && tag != "@bytes"@ && tag != "@date"@ && tag != "@ts"@) by {
                assert(tag[0] != "@ref"@[0]);
            }
            assert(tag != "@set"@ && tag != "@query"@) by {
                assert(tag[0] != "@set"@[0]);
            }
            assert(decode_spec(encode_spec(v))->Object_0 =~= e);
        },
        ValueV::Bytes(b) => bytes_round_trip(b),
        ValueV::Date(y, m, d) => date_round_trip(y, m, d),
        _ => {},
    }
}

/// Decoding the encoding of a byte sequence gives the bytes back.
pub proof fn bytes_round_trip(b: Seq<u8>)
    ensures
        decode_spec(encode_spec(ValueV::Bytes(b))) == ValueV::Bytes(b),
{
    reveal_strlit("@ref");
    reveal_strlit("@bytes");
    assert("@bytes"@ != "@ref"@) by {
        assert("@bytes"@[1] != "@ref"@[1]);
    }
    let s = base64_of(b);
    assert(base64_of(b) == s);
    let w = choose|c: Seq<u8>| base64_of(c) == s;
    crate::base64_bytes::base64_injective(w, b);
}

/// Decoding the encoding of a date of the years 0 to 9999 gives the date
/// back.
pub proof fn date_round_trip(y: i32, m: u32, d: u32)
    requires
        0 <= y <= 9999,
        is_valid_date(y as int, m as int, d as int),
    ensures
        decode_spec(encode_spec(ValueV::Date(y, m, d))) == ValueV::Date(y, m, d),
{
    reveal_strlit("@ref");
    reveal_strlit("@bytes");
    reveal_strlit("@date");
    assert("@date"@ != "@ref"@ && "@date"@ != "@bytes"@) by {
        assert("@date"@[1] != "@ref"@[1] && "@date"@[1] != "@bytes"@[1]);
    }
    let s = iso_date_text(y as nat, m as nat, d as nat);
    assert(is_iso_date((y, m, d), s));
    let w = choose|t: (i32, u32, u32)| is_iso_date(t, s);
    iso_date_injective(w, (y, m, d), s);
}

} // verus!
