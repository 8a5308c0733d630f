use faunadb::{
    classify, decode, encode, expects_json, Bytes, Client, Date, Error, Json, Number, Object,
    QueryEvent, QueryState, Ref, Response, Timestamp, Value,
};
use faunadb::{Action, EpochUnit, IndexBinding, IndexField, Normalizer, Role, SimpleLevel};
use std::time::Duration;

fn from_serde(v: &serde_json::Value) -> Json {
    match v {
        serde_json::Value::Null => Json::Null,
        serde_json::Value::Bool(b) => Json::Bool(*b),
        serde_json::Value::Number(n) => {
            if let Some(u) = n.as_u64() {
                Json::Number(Number::UInt(u))
            } else if let Some(i) = n.as_i64() {
                Json::Number(Number::Int(i))
            } else {
                Json::Number(Number::Double(n.as_f64().unwrap().to_bits()))
            }
        }
        serde_json::Value::String(s) => Json::String(s.clone()),
        serde_json::Value::Array(a) => Json::Array(a.iter().map(from_serde).collect()),
        serde_json::Value::Object(m) => {
            Json::Object(m.iter().map(|(k, v)| (k.clone(), from_serde(v))).collect())
        }
    }
}

fn parse(text: &str) -> Json {
    from_serde(&serde_json::from_str(text).unwrap())
}

fn text_of(j: &Json) -> String {
    match j {
        Json::String(s) => s.clone(),
        other => panic!("{:?} is not a string", other),
    }
}

/// The payload of a one-member object.
fn payload(j: &Json, tag: &str) -> Json {
    match j {
        Json::Object(m) if m.len() == 1 && m[0].0 == tag => match &m[0].1 {
            Json::String(s) => Json::String(s.clone()),
            other => panic!("unexpected payload {:?}", other),
        },
        other => panic!("{:?} is not tagged {}", other, tag),
    }
}

#[test]
fn path_of_class_ref() {
    assert_eq!("classes/Cats", Ref::class("Cats").path());
}

#[test]
fn path_of_instance_in_class() {
    let mut r = Ref::instance("123");
    r.set_class("Cats");
    assert_eq!("classes/Cats/123", r.path());
}

#[test]
fn paths_of_roots() {
    assert_eq!("indexes/all", Ref::index("all").path());
    assert_eq!("databases/prod", Ref::database("prod").path());
    assert_eq!("functions/double", Ref::function("double").path());
    assert_eq!("single", Ref::instance("single").path());
    let mut r = Ref::instance("7");
    r.set_index("by_name");
    assert_eq!("indexes/by_name/7", r.path());
}

#[test]
fn ref_display() {
    let mut r = Ref::instance("foo");
    r.set_class("test");
    assert_eq!("Ref(id=foo,class=classes/test)", r.to_display());
    assert_eq!("Ref(id=db,database=databases)", Ref::database("db").to_display());
    assert_eq!("Ref(id=x)", Ref::instance("x").to_display());
}

#[test]
fn bytes_round_trip() {
    let v = Value::from_bytes(Bytes::from_vec(vec![0x01, 0x02, 0x03, 0x04]));
    let j = encode(&v);
    assert_eq!("AQIDBA==", text_of(&payload(&j, "@bytes")));
    match decode(&j) {
        Value::Bytes(b) => assert_eq!(vec![0x01, 0x02, 0x03, 0x04], b.0),
        other => panic!("{:?}", other),
    }
}

#[test]
fn bytes_reject_bad_base64() {
    assert!(matches!(
        faunadb::base64_bytes::deserialize("not base64!"),
        Err(Error::ResponseDataFailure(_))
    ));
    assert_eq!(vec![0xffu8], faunadb::base64_bytes::deserialize("/w==").unwrap().0);
    // A malformed payload is not an annotated value: the object stays plain.
    let v = decode(&parse(r#"{"@bytes": "***"}"#));
    assert!(matches!(v, Value::PlainObject(_)));
}

#[test]
fn date_encoding() {
    let d = Date::from_ymd(2001, 5, 31).unwrap();
    let j = encode(&Value::from_date(d));
    assert_eq!("2001-05-31", text_of(&payload(&j, "@date")));
    match decode(&j) {
        Value::Date(back) => assert_eq!((2001, 5, 31), (back.year(), back.month(), back.day())),
        other => panic!("{:?}", other),
    }
}

#[test]
fn date_validity() {
    assert!(Date::from_ymd(2001, 2, 29).is_none());
    assert!(Date::from_ymd(2000, 2, 29).is_some());
    assert!(Date::from_ymd(2001, 13, 1).is_none());
    assert!(Date::from_ymd(2001, 4, 31).is_none());
    assert!(Date::parse("2001-02-30").is_none());
}

#[test]
fn timestamp_encoding() {
    let t = match Timestamp::from_unix(60, 0) {
        faunadb::LocalTime::Single(t) => t,
        _ => panic!("no instant"),
    };
    let j = encode(&Value::from_timestamp(t));
    assert_eq!("1970-01-01T00:01:00Z", text_of(&payload(&j, "@ts")));
    match decode(&j) {
        Value::Timestamp(back) => assert_eq!((60, 0), (back.secs(), back.nanos())),
        other => panic!("{:?}", other),
    }
}

#[test]
fn timestamp_from_microseconds() {
    match decode(&parse(r#"{"@ts": 60000000}"#)) {
        Value::Timestamp(t) => {
            assert_eq!((60, 0), (t.secs(), t.nanos()));
            assert_eq!("1970-01-01T00:01:00Z", t.to_text());
        }
        other => panic!("{:?}", other),
    }
    let t = faunadb::ts_microseconds::visit_u64(1_500_000).unwrap();
    assert_eq!((1, 500_000_000), (t.secs(), t.nanos()));
    let t = faunadb::ts_microseconds::visit_i64(-2_000_000).unwrap();
    assert_eq!((-2, 0), (t.secs(), t.nanos()));
}

#[test]
fn timestamp_from_negative_microseconds() {
    let t = faunadb::ts_microseconds::visit_i64(-1).unwrap();
    assert_eq!((-1, 999_999_000), (t.secs(), t.nanos()));
    assert_eq!("1969-12-31T23:59:59.999999Z", t.to_text());
    let t = faunadb::ts_microseconds::visit_i64(-1_500_000).unwrap();
    assert_eq!((-2, 500_000_000), (t.secs(), t.nanos()));
    match decode(&parse(r#"{"@ts": -1}"#)) {
        Value::Timestamp(t) => assert_eq!((-1, 999_999_000), (t.secs(), t.nanos())),
        other => panic!("{:?}", other),
    }
}

#[test]
fn timestamp_from_microseconds_rejected() {
    match faunadb::ts_microseconds::visit_i64(i64::MAX) {
        Err(Error::ResponseDataFailure(m)) => {
            assert_eq!("value is not a legal timestamp: 9223372036854775807", m)
        }
        other => panic!("{:?}", other),
    }
    assert!(faunadb::ts_microseconds::visit_i64(i64::MIN).is_err());
    assert!(faunadb::ts_microseconds::visit_u64(u64::MAX).is_err());
    assert!(faunadb::ts_microseconds::deserialize(Number::Double(1.0f64.to_bits())).is_err());
}

#[test]
fn round_trip_of_host_values() {
    let mut inner = Object::new();
    inner.insert("b", Value::from_i64(-5));
    inner.insert("a", Value::from_number(Number::Float(1.5f32.to_bits())));
    let v = Value::from_vec(vec![
        Value::null(),
        Value::from_bool(false),
        Value::from_str("x"),
        Value::from_u64(u64::MAX),
        Value::from_i64(i64::MIN),
        Value::from_number(Number::Double(2.5f64.to_bits())),
        Value::from_object(inner),
        Value::from_vec(vec![]),
    ]);
    let back = decode(&encode(&v));
    assert_eq!(format!("{:?}", v), format!("{:?}", back));
}

#[test]
fn object_keys_are_sorted_and_unique() {
    let mut o = Object::new();
    o.insert("zeta", Value::from_i64(1));
    o.insert("alpha", Value::from_i64(2));
    o.insert("mid", Value::from_i64(3));
    o.insert("alpha", Value::from_i64(4));
    let keys: Vec<&str> = o.entries.iter().map(|(k, _)| k.as_str()).collect();
    assert_eq!(vec!["alpha", "mid", "zeta"], keys);
    assert_eq!(3, o.len());
    assert_eq!(Some(4), o.get("alpha").and_then(|v| v.as_i64()));
    assert!(o.get("beta").is_none());
    assert!(Object::new().is_empty());
}

#[test]
fn reuse_annotates_objects() {
    let v = decode(&parse(r#"[{"a": {"b": 1}}, "s"]"#));
    assert!(matches!(&v, Value::Array(items) if matches!(items[0], Value::PlainObject(_))));
    let reused = v.reuse();
    let j = encode(&reused);
    let text = format!("{:?}", j);
    assert!(text.contains("\"object\""));
    match reused {
        Value::Array(items) => match &items[0] {
            Value::Object(o) => assert!(matches!(o.get("a"), Some(Value::Object(_)))),
            other => panic!("{:?}", other),
        },
        other => panic!("{:?}", other),
    }
}

#[test]
fn quoting() {
    let q = Value::from_i64(1).as_quoted();
    assert!(q.is_query());
    let j = encode(&q);
    assert!(matches!(&j, Json::Object(m) if m[0].0 == "@query"));
    let back = q.as_unquoted();
    assert_eq!(Some(1), back.as_i64());
    assert_eq!(Some(2), Value::from_i64(2).as_unquoted().as_i64());
}

#[test]
fn accessors() {
    let v = Value::from_str("s");
    assert_eq!(Some("s"), v.as_str());
    assert!(v.is_string() && !v.is_number());
    assert_eq!(None, v.as_u64());
    let n = Value::from_u64(3);
    assert!(n.is_u64() && !n.is_i64() && n.is_number());
    assert_eq!(Some(3), n.as_u64());
    let a = Value::from_vec(vec![Value::from_bool(true)]);
    assert_eq!(Some(true), a.get_index(0).and_then(|x| x.as_bool()));
    assert!(a.get_index(1).is_none());
    let obj = decode(&parse(r#"{"ref": {"@ref": {"id": "1", "class": {"@ref": {"id": "classes"}}}}, "n": 1}"#));
    assert_eq!("classes/1", obj.get_reference().unwrap().path());
    assert!(Value::null().is_null());
}

#[test]
fn decoding_refs() {
    let v = decode(&parse(r#"{"@ref": {"id": "123", "class": {"@ref": {"id": "Cats", "class": {"@ref": {"id": "classes"}}}}}}"#));
    assert_eq!("classes/Cats/123", v.as_reference().unwrap().path());
    let v = decode(&parse(r#"{"@ref": {"id": "by_age", "index": {"@ref": {"id": "indexes"}}}}"#));
    assert_eq!("indexes/by_age", v.as_reference().unwrap().path());
    let v = decode(&parse(r#"{"@set": {"match": 1}}"#));
    assert!(v.is_set());
}

#[test]
fn status_bad_request() {
    let body = r#"{"errors":[{"position":[],"code":"invalid argument","description":"bad"}]}"#;
    assert!(expects_json(400));
    let r = classify(400, Some(body.to_string()), Some(parse(body)));
    match r {
        Err(Error::BadRequest(e)) => {
            assert_eq!(1, e.errors.len());
            assert_eq!("invalid argument", e.errors[0].code);
            assert_eq!("bad", e.errors[0].description);
            assert!(e.errors[0].position.is_empty());
        }
        other => panic!("{:?}", other),
    }
}

#[test]
fn status_unauthorized() {
    assert!(!expects_json(401));
    assert!(matches!(classify(401, Some("anything".to_string()), None), Err(Error::Unauthorized)));
    assert!(matches!(classify(401, None, Some(parse("{}"))), Err(Error::Unauthorized)));
}

#[test]
fn status_success() {
    let body = r#"{"resource":{"object":{"test_field":"test_value"}}}"#;
    match classify(200, Some(body.to_string()), Some(parse(body))) {
        Ok(Response { resource }) => {
            assert!(resource.is_object());
            assert_eq!(Some("test_value"), resource.get_key("test_field").and_then(|v| v.as_str()));
        }
        other => panic!("{:?}", other),
    }
}

#[test]
fn status_not_found_and_others() {
    let body = r#"{"errors":[{"position":["data", 0],"code":"instance not found","description":"gone"}]}"#;
    match classify(404, Some(body.to_string()), Some(parse(body))) {
        Err(Error::NotFound(e)) => {
            assert_eq!(2, e.errors[0].position.len());
            assert_eq!(Some("data"), e.errors[0].position[0].as_str());
        }
        other => panic!("{:?}", other),
    }
    match classify(503, Some("down".to_string()), None) {
        Err(Error::DatabaseError(t)) => assert_eq!("down", t),
        other => panic!("{:?}", other),
    }
    assert!(matches!(classify(500, None, None), Err(Error::EmptyResponse)));
    assert!(matches!(classify(200, None, None), Err(Error::EmptyResponse)));
    assert!(matches!(classify(200, Some(String::new()), None), Err(Error::EmptyResponse)));
    assert!(matches!(classify(200, Some("{".to_string()), None), Err(Error::ResponseDataFailure(_))));
    assert!(matches!(classify(200, Some("{}".to_string()), Some(parse("{}"))), Err(Error::ResponseDataFailure(_))));
    assert!(matches!(classify(400, Some("{}".to_string()), Some(parse("{}"))), Err(Error::ResponseDataFailure(_))));
}

#[test]
fn timeout_beats_late_response() {
    let state = QueryState::Built.step(QueryEvent::Send);
    let state = state.step(QueryEvent::TimerExpired);
    let late = Ok(Response { resource: Value::null() });
    let state = state.step(QueryEvent::Responded(late));
    assert!(matches!(state.into_result(), Err(Error::TimeoutError)));
}

#[test]
fn response_before_timeout() {
    let state = QueryState::Built.step(QueryEvent::Send);
    let state = state.step(QueryEvent::Responded(Err(Error::Unauthorized)));
    let state = state.step(QueryEvent::TimerExpired);
    assert!(matches!(state.into_result(), Err(Error::Unauthorized)));
}

#[test]
fn concurrent_queries_are_independent() {
    let ok_body = r#"{"resource": 1}"#;
    let bad_body = r#"{"errors":[{"position":[],"code":"c","description":"d"}]}"#;
    let mut a = QueryState::Built.step(QueryEvent::Send);
    let mut b = QueryState::Built.step(QueryEvent::Send);
    b = b.step(QueryEvent::Responded(classify(400, Some(bad_body.to_string()), Some(parse(bad_body)))));
    a = a.step(QueryEvent::Responded(classify(200, Some(ok_body.to_string()), Some(parse(ok_body)))));
    let alone = classify(200, Some(ok_body.to_string()), Some(parse(ok_body)));
    assert_eq!(format!("{:?}", alone), format!("{:?}", a.into_result()));
    assert!(matches!(b.into_result(), Err(Error::BadRequest(_))));
}

#[test]
fn builder_defaults_and_headers() {
    let mut builder = Client::builder("secret");
    assert_eq!("https://db.fauna.com", builder.uri);
    assert_eq!(Duration::from_secs(60), builder.timeout);
    builder.uri("http://localhost:8443").timeout(Duration::from_secs(5));
    let client = builder.build().unwrap();
    assert_eq!("Basic c2VjcmV0Og==", client.authorization);
    assert_eq!(Duration::from_secs(5), client.timeout);
    assert_eq!("http://localhost:8443/", client.uri.to_string());
    let headers = client.request_headers("{\"a\":\"é\"}");
    let expected = vec![
        ("Content-Length", "10"),
        ("Content-Type", "application/json"),
        ("Authorization", "Basic c2VjcmV0Og=="),
        ("X-FaunaDB-API-Version", "2.1"),
    ];
    let got: Vec<(&str, &str)> = headers.iter().map(|(k, v)| (k.as_str(), v.as_str())).collect();
    assert_eq!(expected, got);
}

#[test]
fn builder_rejects_bad_uri() {
    let mut builder = Client::builder("secret");
    builder.uri("not a uri");
    assert!(matches!(builder.build(), Err(Error::ConfigurationError(_))));
}

#[test]
fn catalog_names() {
    assert_eq!(Some("public"), SimpleLevel::Public.to_value().as_str());
    assert_eq!(Some("millisecond"), EpochUnit::Millisecond.to_value().as_str());
    assert_eq!(Some("NFKCCaseFold"), Normalizer::NFKCCaseFold.to_value().as_str());
    assert_eq!(Some("update"), Action::Update.to_value().as_str());
    assert_eq!(Some("server-readonly"), Role::ServerReadOnly.to_value().as_str());
    assert_eq!(Some("by"), IndexBinding("by".to_string()).to_value().as_str());
    let f = IndexField(vec!["data".to_string(), "name".to_string()]).to_value();
    assert_eq!(Some("name"), f.get_index(1).and_then(|x| x.as_str()));
}

#[test]
fn var_encoding() {
    let v = Value::from_query(faunadb::Query::Var(faunadb::Var::new("x")));
    match encode(&v) {
        Json::Object(m) => {
            assert_eq!("var", m[0].0);
            assert_eq!("x", text_of(&m[0].1));
        }
        other => panic!("{:?}", other),
    }
}

#[test]
fn mutable_accessors() {
    let mut v = decode(&parse(r#"{"cat": "purr"}"#));
    v.as_object_mut().unwrap().insert("cat", Value::from_str("meow"));
    assert_eq!(Some("meow"), v.get_key("cat").and_then(|x| x.as_str()));
    assert!(v.as_array_mut().is_none());
    let mut a = Value::from_vec(vec![Value::from_str("meow")]);
    a.as_array_mut().unwrap()[0] = Value::from_str("purr");
    assert_eq!(Some("purr"), a.get_index(0).and_then(|x| x.as_str()));
}

#[test]
fn bytes_read_back_their_rendering() {
    for bytes in [vec![], vec![0u8], vec![0xff, 0xfe], vec![1, 2, 3], (0u8..=255).collect::<Vec<u8>>()] {
        let text = faunadb::base64_bytes::serialize(&Bytes::from_vec(bytes.clone()));
        assert_eq!(bytes, faunadb::base64_bytes::deserialize(&text).unwrap().0);
    }
}

#[test]
fn insert_never_duplicates_a_key() {
    let mut o = Object { entries: vec![("b".to_string(), Value::from_i64(1)), ("a".to_string(), Value::from_i64(2))] };
    o.insert("a", Value::from_i64(3));
    assert_eq!(2, o.len());
    assert_eq!(Some(3), o.get("a").and_then(|v| v.as_i64()));
}

#[test]
fn get_mut_by_index_and_key() {
    let mut obj = decode(&parse(r#"{"cat": "purr"}"#));
    *obj.get_key_mut("cat").unwrap() = Value::from_str("meow");
    assert_eq!(Some("meow"), obj.get_key("cat").and_then(|x| x.as_str()));
    assert!(obj.get_key_mut("dog").is_none());
    let mut ary = Value::from_vec(vec![Value::from_str("meow")]);
    *ary.get_index_mut(0).unwrap() = Value::from_str("purr");
    assert_eq!(Some("purr"), ary.get_index(0).and_then(|x| x.as_str()));
    assert!(ary.get_index_mut(1).is_none());
}
