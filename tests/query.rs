use faunadb::query::{
    And, Append, At, Call, Classes, Delete, Do, Drop, Equals, Filter, Foreach, Get, Gt, Gte, If, IsEmpty,
    IsNonEmpty, Lambda, Let, Lt, Lte, MapOver, Not, Or, Prepend, Take,
};
use faunadb::{encode, Json, LocalTime, Number, Query, Ref, Timestamp, Value, Var};

fn to_serde(j: &Json) -> serde_json::Value {
    match j {
        Json::Null => serde_json::Value::Null,
        Json::Bool(b) => serde_json::Value::Bool(*b),
        Json::Number(Number::UInt(u)) => serde_json::Value::from(*u),
        Json::Number(Number::Int(i)) => serde_json::Value::from(*i),
        Json::Number(Number::Double(b)) => serde_json::Value::from(f64::from_bits(*b)),
        Json::Number(Number::Float(b)) => serde_json::Value::from(f32::from_bits(*b) as f64),
        Json::String(s) => serde_json::Value::String(s.clone()),
        Json::Array(a) => serde_json::Value::Array(a.iter().map(to_serde).collect()),
        Json::Object(m) => {
            let mut map = serde_json::Map::new();
            for (k, v) in m {
                map.insert(k.clone(), to_serde(v));
            }
            serde_json::Value::Object(map)
        }
    }
}

fn serialized(v: &Value) -> serde_json::Value {
    to_serde(&encode(v))
}

fn expected(text: &str) -> serde_json::Value {
    serde_json::from_str(text).unwrap()
}

fn var(name: &str) -> Value {
    Value::from_query(Query::Var(Var::new(name)))
}

#[test]
fn test_at() {
    let ts = match Timestamp::from_unix(60, 0) {
        LocalTime::Single(t) => t,
        _ => panic!("no instant"),
    };
    let query = At::new(ts, Classes::all());
    let expected = expected(r#"{"at": {"@ts": "1970-01-01T00:01:00Z"}, "expr": {"classes": null}}"#);
    assert_eq!(expected, serialized(&query));
}

#[test]
fn test_do() {
    let mut do_many = Do::new(Get::instance(Ref::instance("musti")).into_value());
    do_many.push(Delete::new(Ref::instance("musti")));

    let query = do_many.into_value();
    let expected = expected(
        r#"{"do": [{"get": {"@ref": {"id": "musti"}}}, {"delete": {"@ref": {"id": "musti"}}}]}"#,
    );
    assert_eq!(expected, serialized(&query));
}

#[test]
fn test_if() {
    let query = If::cond(Value::from_bool(true), Value::from_str("is true"), Value::from_str("is false"));
    let expected = expected(r#"{"if": true, "then": "is true", "else": "is false"}"#);
    assert_eq!(expected, serialized(&query));
}

#[test]
fn test_let_var() {
    let let_var = Let::bindings(
        vec![(
            "cat".to_string(),
            If::cond(Value::from_bool(true), Value::from_str("Musti"), Value::from_str("Naukio")),
        )],
        var("cat"),
    );
    let expected = expected(
        r#"{"let": {"cat": {"if": true, "then": "Musti", "else": "Naukio"}}, "in": {"var": "cat"}}"#,
    );
    assert_eq!(expected, serialized(&let_var));
}

#[test]
fn test_lambda() {
    let lambda = Lambda::new(Value::from_str("cat"), var("cat"));
    let expected = expected(r#"{"lambda": "cat", "expr": {"var": "cat"}}"#);
    assert_eq!(expected, serialized(&lambda));
}

#[test]
fn test_call() {
    let fun = Call::new(Ref::function("double"), Value::from_i64(5));
    let expected = expected(
        r#"{"call": {"@ref": {"class": {"@ref": {"id": "functions"}}, "id": "double"}}, "arguments": 5}"#,
    );
    assert_eq!(expected, serialized(&fun));
}

#[test]
fn test_delete() {
    let delete = Delete::new(Ref::instance("musti"));
    let expected = expected(r#"{"delete": {"@ref": {"id": "musti"}}}"#);
    assert_eq!(expected, serialized(&delete));
}

#[test]
fn test_classes_all() {
    let expected = expected(r#"{"classes": null}"#);
    assert_eq!(expected, serialized(&Classes::all()));
}

#[test]
fn let_bindings_keep_the_last_of_a_name() {
    let v = Let::bindings(
        vec![
            ("b".to_string(), Value::from_i64(1)),
            ("a".to_string(), Value::from_i64(2)),
            ("b".to_string(), Value::from_i64(3)),
        ],
        Value::null(),
    );
    let expected = expected(r#"{"let": {"a": 2, "b": 3}, "in": null}"#);
    assert_eq!(expected, serialized(&v));
}

fn strings(items: &[&str]) -> Value {
    Value::from_vec(items.iter().map(|s| Value::from_str(s)).collect())
}

fn ints(items: &[i64]) -> Value {
    Value::from_vec(items.iter().map(|i| Value::from_i64(*i)).collect())
}

fn bools(items: &[bool]) -> Vec<Value> {
    items.iter().map(|b| Value::from_bool(*b)).collect()
}

#[test]
fn test_map() {
    let map = MapOver::new(strings(&["Musti", "Naukio"]), Lambda::new(Value::from_str("cat"), var("cat")));
    let expected = expected(r#"{"collection": ["Musti", "Naukio"], "map": {"lambda": "cat", "expr": {"var": "cat"}}}"#);
    assert_eq!(expected, serialized(&map));
}

#[test]
fn test_append() {
    let fun = Append::new(strings(&["Musti", "Naukio"]), strings(&["Musmus", "Naunau"]));
    let expected = expected(r#"{"append": ["Musti", "Naukio"], "collection": ["Musmus", "Naunau"]}"#);
    assert_eq!(expected, serialized(&fun));
}

#[test]
fn test_prepend() {
    let fun = Prepend::new(strings(&["Musti", "Naukio"]), strings(&["Musmus", "Naunau"]));
    let expected = expected(r#"{"prepend": ["Musti", "Naukio"], "collection": ["Musmus", "Naunau"]}"#);
    assert_eq!(expected, serialized(&fun));
}

#[test]
fn test_drop() {
    let fun = Drop::new(Value::from_i64(2), ints(&[1, 2, 3]));
    let expected = expected(r#"{"drop": 2, "collection": [1, 2, 3]}"#);
    assert_eq!(expected, serialized(&fun));
}

#[test]
fn test_take() {
    let fun = Take::new(Value::from_i64(2), ints(&[1, 2, 3]));
    let expected = expected(r#"{"take": 2, "collection": [1, 2, 3]}"#);
    assert_eq!(expected, serialized(&fun));
}

#[test]
fn test_filter() {
    let fun = Filter::new(
        Lambda::new(Value::from_str("x"), Gt::new(vec![var("x"), Value::from_i64(2)])),
        ints(&[1, 2, 3]),
    );
    let expected = expected(
        r#"{"filter": {"lambda": "x", "expr": {"gt": [{"var": "x"}, 2]}}, "collection": [1, 2, 3]}"#,
    );
    assert_eq!(expected, serialized(&fun));
}

#[test]
fn test_foreach() {
    let fun = Foreach::new(
        ints(&[1, 2, 3]),
        Lambda::new(Value::from_str("_"), Gt::new(vec![Value::from_i64(1), Value::from_i64(2)])),
    );
    let expected = expected(r#"{"foreach": {"lambda": "_", "expr": {"gt": [1, 2]}}, "collection": [1, 2, 3]}"#);
    assert_eq!(expected, serialized(&fun));
}

#[test]
fn test_is_empty() {
    let fun = IsEmpty::new(ints(&[1, 2, 3]));
    assert_eq!(expected(r#"{"is_empty": [1, 2, 3]}"#), serialized(&fun));
}

#[test]
fn test_is_nonempty() {
    let fun = IsNonEmpty::new(ints(&[1, 2, 3]));
    assert_eq!(expected(r#"{"is_nonempty": [1, 2, 3]}"#), serialized(&fun));
}

#[test]
fn test_and() {
    let aaaand = And::new(bools(&[true, true, false]));
    assert_eq!(expected(r#"{"and": [true, true, false]}"#), serialized(&aaaand));
}

#[test]
fn test_or() {
    let oooor = Or::new(bools(&[true, true, false]));
    assert_eq!(expected(r#"{"or": [true, true, false]}"#), serialized(&oooor));
}

#[test]
fn test_not() {
    let noooot = Not::new(Value::from_bool(false));
    assert_eq!(expected(r#"{"not": false}"#), serialized(&noooot));
}

#[test]
fn test_equals() {
    let equals = Equals::new(vec![Value::from_str("musti"), Value::from_str("naukio")]);
    assert_eq!(expected(r#"{"equals": ["musti", "naukio"]}"#), serialized(&equals));
}

#[test]
fn test_lt() {
    let lt = Lt::new(vec![Value::from_i64(1), Value::from_i64(2), Value::from_i64(3)]);
    assert_eq!(expected(r#"{"lt": [1, 2, 3]}"#), serialized(&lt));
}

#[test]
fn test_lte() {
    let lte = Lte::new(vec![Value::from_i64(1), Value::from_i64(2), Value::from_i64(3)]);
    assert_eq!(expected(r#"{"lte": [1, 2, 3]}"#), serialized(&lte));
}

#[test]
fn test_gt() {
    let gt = Gt::new(vec![Value::from_i64(1), Value::from_i64(2), Value::from_i64(3)]);
    assert_eq!(expected(r#"{"gt": [1, 2, 3]}"#), serialized(&gt));
}

#[test]
fn test_gte() {
    let gte = Gte::new(vec![Value::from_i64(1), Value::from_i64(2), Value::from_i64(3)]);
    assert_eq!(expected(r#"{"gte": [1, 2, 3]}"#), serialized(&gte));
}
