use faunadb::{decode, encode, Bytes, Date, Json, Number, Object, Ref, Timestamp, Value};

fn to_text(j: &Json) -> String {
    match j {
        Json::Null => "null".to_string(),
        Json::Bool(b) => b.to_string(),
        Json::Number(Number::UInt(u)) => u.to_string(),
        Json::Number(Number::Int(i)) => i.to_string(),
        Json::Number(Number::Double(b)) => serde_json::to_string(&f64::from_bits(*b)).unwrap(),
        Json::Number(Number::Float(b)) => serde_json::to_string(&f32::from_bits(*b)).unwrap(),
        Json::String(s) => serde_json::to_string(s).unwrap(),
        Json::Array(a) => {
            let items: Vec<String> = a.iter().map(to_text).collect();
            format!("[{}]", items.join(","))
        }
        Json::Object(m) => {
            let items: Vec<String> = m
                .iter()
                .map(|(k, v)| format!("{}:{}", serde_json::to_string(k).unwrap(), to_text(v)))
                .collect();
            format!("{{{}}}", items.join(","))
        }
    }
}

fn from_serde(v: &serde_json::Value) -> Json {
    match v {
        serde_json::Value::Null => Json::Null,
        serde_json::Value::Bool(b) => Json::Bool(*b),
        serde_json::Value::Number(n) => {
            if let Some(u) = n.as_u64() {
                Json::Number(Number::UInt(u))
            } else if let Some(i) = n.as_i64() {
                Json::Number(Number::Int(i))
            } else {
                Json::Number(Number::Double(n.as_f64().unwrap().to_bits()))
            }
        }
        serde_json::Value::String(s) => Json::String(s.clone()),
        serde_json::Value::Array(a) => Json::Array(a.iter().map(from_serde).collect()),
        serde_json::Value::Object(m) => {
            Json::Object(m.iter().map(|(k, v)| (k.clone(), from_serde(v))).collect())
        }
    }
}

fn serialized(v: &Value) -> String {
    to_text(&encode(v))
}

fn as_serde(v: &Value) -> serde_json::Value {
    serde_json::from_str(&serialized(v)).unwrap()
}

#[test]
fn test_string_expr() {
    let expr = Value::from_str("cat");
    assert_eq!("\"cat\"", serialized(&expr));
}

#[test]
fn test_f64_expr() {
    let expr = Value::from_number(Number::Double(4.12f64.to_bits()));
    assert_eq!("4.12", serialized(&expr));
}

#[test]
fn test_f32_expr() {
    let expr = Value::from_number(Number::Float(4.12f32.to_bits()));
    assert_eq!("4.12", serialized(&expr));
}

#[test]
fn test_i8_expr() {
    let expr = Value::from_i64(4i8 as i64);
    assert_eq!("4", serialized(&expr));
}

#[test]
fn test_i16_expr() {
    let expr = Value::from_i64(4i16 as i64);
    assert_eq!("4", serialized(&expr));
}

#[test]
fn test_i32_expr() {
    let expr = Value::from_i64(4i32 as i64);
    assert_eq!("4", serialized(&expr));
}

#[test]
fn test_i64_expr() {
    let expr = Value::from_i64(4i64);
    assert_eq!("4", serialized(&expr));
}

#[test]
fn test_u8_expr() {
    let expr = Value::from_u64(4u8 as u64);
    assert_eq!("4", serialized(&expr));
}

#[test]
fn test_u16_expr() {
    let expr = Value::from_u64(4u16 as u64);
    assert_eq!("4", serialized(&expr));
}

#[test]
fn test_u32_expr() {
    let expr = Value::from_u64(4u32 as u64);
    assert_eq!("4", serialized(&expr));
}

#[test]
fn test_u64_expr() {
    let expr = Value::from_u64(4u64);
    assert_eq!("4", serialized(&expr));
}

#[test]
fn test_bytes_expr() {
    let expr = Value::from_bytes(Bytes::from_vec(vec![0x1, 0x2, 0x3, 0x4]));
    assert_eq!("{\"@bytes\":\"AQIDBA==\"}", serialized(&expr))
}

#[test]
fn test_bytes_deserialize() {
    let json: serde_json::Value = serde_json::from_str("{\"@bytes\":\"AQIDBA==\"}").unwrap();
    match decode(&from_serde(&json)) {
        Value::Bytes(bytes) => assert_eq!(Bytes::from_vec(vec![0x1, 0x2, 0x3, 0x4]), bytes),
        expr => panic!("{:?} was not bytes", expr),
    }
}

#[test]
fn test_date_expr() {
    let expr = Value::from_date(Date::from_ymd(2001, 5, 31).unwrap());
    assert_eq!("{\"@date\":\"2001-05-31\"}", serialized(&expr))
}

#[test]
fn test_ref_with_class_expr() {
    let mut refer = Ref::instance("foo");
    refer.set_class("test");

    let expr = Value::from_ref(refer);
    let expected: serde_json::Value = serde_json::from_str(
        r#"{"@ref": {"class": {"@ref": {"class": {"@ref": {"id": "classes"}}, "id": "test"}}, "id": "foo"}}"#,
    )
    .unwrap();

    assert_eq!(expected, as_serde(&expr))
}

#[test]
fn test_bool_expr() {
    let expr = Value::from_bool(true);
    assert_eq!("true", serialized(&expr))
}

#[test]
fn test_null_expr() {
    let expr = Value::null();
    assert_eq!("null", serialized(&expr))
}

#[test]
fn test_simple_array_expr() {
    let expr = Value::from_vec(vec![Value::from_i64(1), Value::from_str("test")]);
    assert_eq!("[1,\"test\"]", serialized(&expr))
}

#[test]
fn test_complex_array_expr() {
    let mut object = Object::new();
    object.insert("foo", Value::from_str("bar"));
    object.insert("lol", Value::from_bool(false));

    let expr = Value::from_vec(vec![Value::from_i64(1), Value::from_object(object)]);
    assert_eq!("[1,{\"object\":{\"foo\":\"bar\",\"lol\":false}}]", serialized(&expr))
}

#[test]
fn test_object_expr() {
    let mut object = Object::new();
    object.insert("foo", Value::from_str("bar"));
    object.insert("lol", Value::from_bool(false));

    let expr = Value::from_object(object);
    assert_eq!("{\"object\":{\"foo\":\"bar\",\"lol\":false}}", serialized(&expr))
}

#[test]
fn test_set_expr() {
    let expr = Value::matching(Ref::index("cats_age"), Value::from_i64(8));
    let expected: serde_json::Value = serde_json::from_str(
        r#"{"@set": {"match": {"@ref": {"index": {"@ref": {"id": "indexes"}}, "id": "cats_age"}}, "terms": 8}}"#,
    )
    .unwrap();

    assert_eq!(expected, as_serde(&expr));
}

#[test]
fn test_set_timestamp_expr() {
    let dt_str = "2019-05-26T16:20:00Z";
    let dt = Timestamp::parse(dt_str).unwrap();

    let expr = Value::from_timestamp(dt);
    let expected: serde_json::Value = serde_json::from_str(r#"{"@ts": "2019-05-26T16:20:00Z"}"#).unwrap();

    assert_eq!(expected, as_serde(&expr));
}
