use faunadb::query::{
    Abort, Abs, Acos, Add, Asin, Atan, BitAnd, BitNot, BitOr, BitXor, Ceil, Class, Cos, Cosh, Database,
    Databases, Degrees, Divide, Exp, Floor, Function, Functions, HasIdentity, Hypot, Identify, Identity,
    Index, Indexes, Ln, Log, Login, Logout, Max, Min, Modulo, Multiply, NewId, Pow, Radians, Round, Sign,
    Sin, Sinh, Sqrt, Subtract, Tan, Tanh, ToDate, ToNumber, ToString, Trunc,
};
use faunadb::{encode, Json, Number, Ref, Value};

fn to_serde(j: &Json) -> serde_json::Value {
    match j {
        Json::Null => serde_json::Value::Null,
        Json::Bool(b) => serde_json::Value::Bool(*b),
        Json::Number(Number::UInt(u)) => serde_json::Value::from(*u),
        Json::Number(Number::Int(i)) => serde_json::Value::from(*i),
        Json::Number(Number::Double(b)) => serde_json::Value::from(f64::from_bits(*b)),
        Json::Number(Number::Float(b)) => serde_json::Value::from(f32::from_bits(*b) as f64),
        Json::String(s) => serde_json::Value::String(s.clone()),
        Json::Array(a) => serde_json::Value::Array(a.iter().map(to_serde).collect()),
        Json::Object(m) => {
            let mut map = serde_json::Map::new();
            for (k, v) in m {
                map.insert(k.clone(), to_serde(v));
            }
            serde_json::Value::Object(map)
        }
    }
}

fn serialized(v: &Value) -> serde_json::Value {
    to_serde(&encode(v))
}

fn expected(text: &str) -> serde_json::Value {
    serde_json::from_str(text).unwrap()
}

fn integer(i: i64) -> Value {
    Value::from_i64(i)
}

fn float(f: f64) -> Value {
    Value::from_number(Number::Double(f.to_bits()))
}

fn ints(items: &[i64]) -> Value {
    Value::from_vec(items.iter().map(|i| Value::from_i64(*i)).collect())
}

fn user() -> Ref {
    let mut user_ref = Ref::instance("1234");
    user_ref.set_class("characters");
    user_ref
}

#[test]
fn test_abs() {
    let fun = Abs::new(integer(-1));
    assert_eq!(expected(r#"{"abs": -1}"#), serialized(&fun));
}

#[test]
fn test_acos() {
    let fun = Acos::new(float(0.63123));
    assert_eq!(expected(r#"{"acos": 0.63123}"#), serialized(&fun));
}

#[test]
fn test_asin() {
    let fun = Asin::new(float(0.63123));
    assert_eq!(expected(r#"{"asin": 0.63123}"#), serialized(&fun));
}

#[test]
fn test_atan() {
    let fun = Atan::new(float(0.63123));
    assert_eq!(expected(r#"{"atan": 0.63123}"#), serialized(&fun));
}

#[test]
fn test_tan() {
    let fun = Tan::new(float(0.63123));
    assert_eq!(expected(r#"{"tan": 0.63123}"#), serialized(&fun));
}

#[test]
fn test_tanh() {
    let fun = Tanh::new(float(0.63123));
    assert_eq!(expected(r#"{"tanh": 0.63123}"#), serialized(&fun));
}

#[test]
fn test_cos() {
    let fun = Cos::new(float(0.63123));
    assert_eq!(expected(r#"{"cos": 0.63123}"#), serialized(&fun));
}

#[test]
fn test_sin() {
    let fun = Sin::new(float(0.63123));
    assert_eq!(expected(r#"{"sin": 0.63123}"#), serialized(&fun));
}

#[test]
fn test_sinh() {
    let fun = Sinh::new(float(0.63123));
    assert_eq!(expected(r#"{"sinh": 0.63123}"#), serialized(&fun));
}

#[test]
fn test_cosh() {
    let fun = Cosh::new(float(0.63123));
    assert_eq!(expected(r#"{"cosh": 0.63123}"#), serialized(&fun));
}

#[test]
fn test_degrees() {
    let fun = Degrees::new(float(0.63123));
    assert_eq!(expected(r#"{"degrees": 0.63123}"#), serialized(&fun));
}

#[test]
fn test_add() {
    let fun = Add::new(ints(&[1, 2, 3]));
    assert_eq!(expected(r#"{"add": [1, 2, 3]}"#), serialized(&fun));
}

#[test]
fn test_bitand() {
    let fun = BitAnd::new(ints(&[1, 1, 0]));
    assert_eq!(expected(r#"{"bitand": [1, 1, 0]}"#), serialized(&fun));
}

#[test]
fn test_bitor() {
    let fun = BitOr::new(ints(&[1, 1, 0]));
    assert_eq!(expected(r#"{"bitor": [1, 1, 0]}"#), serialized(&fun));
}

#[test]
fn test_bitxor() {
    let fun = BitXor::new(ints(&[1, 1, 0]));
    assert_eq!(expected(r#"{"bitxor": [1, 1, 0]}"#), serialized(&fun));
}

#[test]
fn test_divide() {
    let fun = Divide::new(ints(&[2, 4, 1]));
    assert_eq!(expected(r#"{"divide": [2, 4, 1]}"#), serialized(&fun));
}

#[test]
fn test_bitnot() {
    let fun = BitNot::new(integer(2));
    assert_eq!(expected(r#"{"bitnot": 2}"#), serialized(&fun));
}

#[test]
fn test_ceil() {
    let fun = Ceil::new(float(4.20));
    assert_eq!(expected(r#"{"ceil": 4.2}"#), serialized(&fun));
}

#[test]
fn test_floor() {
    let fun = Floor::new(float(4.20));
    assert_eq!(expected(r#"{"floor": 4.2}"#), serialized(&fun));
}

#[test]
fn test_exp() {
    let fun = Exp::new(integer(2));
    assert_eq!(expected(r#"{"exp": 2}"#), serialized(&fun));
}

#[test]
fn test_hypot() {
    let fun = Hypot::new(integer(3), integer(2));
    assert_eq!(expected(r#"{"hypot": 3, "b": 2}"#), serialized(&fun));
}

#[test]
fn test_hypot_isosceles() {
    let fun = Hypot::isosceles(integer(3));
    assert_eq!(expected(r#"{"hypot": 3}"#), serialized(&fun));
}

#[test]
fn test_ln() {
    let fun = Ln::new(float(4.20));
    assert_eq!(expected(r#"{"ln": 4.2}"#), serialized(&fun));
}

#[test]
fn test_log() {
    let fun = Log::new(float(4.20));
    assert_eq!(expected(r#"{"log": 4.2}"#), serialized(&fun));
}

#[test]
fn test_max() {
    let fun = Max::new(ints(&[1, 2]));
    assert_eq!(expected(r#"{"max": [1, 2]}"#), serialized(&fun));
}

#[test]
fn test_min() {
    let fun = Min::new(ints(&[1, 2]));
    assert_eq!(expected(r#"{"min": [1, 2]}"#), serialized(&fun));
}

#[test]
fn test_modulo() {
    let fun = Modulo::new(ints(&[1, 2]));
    assert_eq!(expected(r#"{"modulo": [1, 2]}"#), serialized(&fun));
}

#[test]
fn test_multiply() {
    let fun = Multiply::new(ints(&[1, 2]));
    assert_eq!(expected(r#"{"multiply": [1, 2]}"#), serialized(&fun));
}

#[test]
fn test_subtract() {
    let fun = Subtract::new(ints(&[1, 2]));
    assert_eq!(expected(r#"{"subtract": [1, 2]}"#), serialized(&fun));
}

#[test]
fn test_pow() {
    let fun = Pow::new(integer(2), integer(16));
    assert_eq!(expected(r#"{"pow": 2, "exp": 16}"#), serialized(&fun));
}

#[test]
fn test_radians() {
    let fun = Radians::new(float(90.90));
    assert_eq!(expected(r#"{"radians": 90.90}"#), serialized(&fun));
}

#[test]
fn test_round() {
    let fun = Round::new(float(4.20)).into_value();
    assert_eq!(expected(r#"{"round": 4.2}"#), serialized(&fun));
}

#[test]
fn test_trunc() {
    let fun = Trunc::new(float(4.20)).into_value();
    assert_eq!(expected(r#"{"trunc": 4.2}"#), serialized(&fun));
}

#[test]
fn test_sign() {
    let fun = Sign::new(integer(-232));
    assert_eq!(expected(r#"{"sign": -232}"#), serialized(&fun));
}

#[test]
fn test_sqrt() {
    let fun = Sqrt::new(integer(4));
    assert_eq!(expected(r#"{ "sqrt": 4 }"#), serialized(&fun));
}

#[test]
fn test_abort() {
    let fun = Abort::new(Value::from_str("BOOM"));
    assert_eq!(expected(r#"{ "abort": "BOOM" }"#), serialized(&fun));
}

#[test]
fn test_class() {
    let fun = Class::find("housecats");
    assert_eq!(expected(r#"{ "class": "housecats" }"#), serialized(&fun));
}

#[test]
fn test_classes_database() {
    let fun = faunadb::query::Classes::from_database(Ref::database("cats"));
    assert_eq!(expected(r#"{ "classes": { "@ref": { "class": { "@ref": { "id": "databases" } }, "id": "cats" } } }"#), serialized(&fun));
}

#[test]
fn test_database() {
    let fun = Database::find("cats");
    assert_eq!(expected(r#"{ "database": "cats" }"#), serialized(&fun));
}

#[test]
fn test_databases_all() {
    let fun = Databases::all();
    assert_eq!(expected(r#"{ "databases": null }"#), serialized(&fun));
}

#[test]
fn test_databases_atabase() {
    let fun = Databases::from_database(Ref::database("cats"));
    assert_eq!(expected(r#"{ "databases": { "@ref": { "class": { "@ref": { "id": "databases" } }, "id": "cats" } } }"#), serialized(&fun));
}

#[test]
fn test_function() {
    let fun = Function::find("meow");
    assert_eq!(expected(r#"{ "function": "meow" }"#), serialized(&fun));
}

#[test]
fn test_functions_all() {
    let fun = Functions::all();
    assert_eq!(expected(r#"{ "functions": null }"#), serialized(&fun));
}

#[test]
fn test_functions_database() {
    let fun = Functions::from_database(Ref::database("cats"));
    assert_eq!(expected(r#"{ "functions": { "@ref": { "class": { "@ref": { "id": "databases" } }, "id": "cats" } } }"#), serialized(&fun));
}

#[test]
fn test_index() {
    let fun = Index::find("scratches");
    assert_eq!(expected(r#"{ "index": "scratches" }"#), serialized(&fun));
}

#[test]
fn test_indexes_all() {
    let fun = Indexes::all();
    assert_eq!(expected(r#"{ "indexes": null }"#), serialized(&fun));
}

#[test]
fn test_indexes_database() {
    let fun = Indexes::from_database(Ref::database("cats"));
    assert_eq!(expected(r#"{ "indexes": { "@ref": { "class": { "@ref": { "id": "databases" } }, "id": "cats" } } }"#), serialized(&fun));
}

#[test]
fn test_new_id() {
    let fun = NewId::new();
    assert_eq!(expected(r#"{ "new_id": null }"#), serialized(&fun));
}

#[test]
fn test_to_date() {
    let fun = ToDate::new(Value::from_str("2019-06-06"));
    assert_eq!(expected(r#"{ "to_date": "2019-06-06" }"#), serialized(&fun));
}

#[test]
fn test_to_number() {
    let fun = ToNumber::new(Value::from_str("2"));
    assert_eq!(expected(r#"{ "to_number": "2" }"#), serialized(&fun));
}

#[test]
fn test_to_string() {
    let fun = ToString::new(Value::from_bool(false));
    assert_eq!(expected(r#"{ "to_string": false }"#), serialized(&fun));
}

#[test]
fn test_to_time() {
    let fun = ToString::new(Value::from_str("2015-02-20T06:30:00Z"));
    assert_eq!(expected(r#"{ "to_string": "2015-02-20T06:30:00Z" }"#), serialized(&fun));
}

#[test]
fn test_has_identity() {
    let fun = HasIdentity::new();
    assert_eq!(expected(r#"{ "has_identity": null }"#), serialized(&fun));
}

#[test]
fn test_identity() {
    let fun = Identity::new();
    assert_eq!(expected(r#"{ "identity": null }"#), serialized(&fun));
}

#[test]
fn test_identify() {
    let fun = Identify::new(user(), Value::from_str("Hunter2"));
    assert_eq!(expected(r#"{ "identify": { "@ref": { "class": { "@ref": { "class": { "@ref": { "id": "classes" } }, "id": "characters" } }, "id": "1234" } }, "password": "Hunter2" }"#), serialized(&fun));
}

#[test]
fn test_login() {
    let fun = Login::new(user(), Value::from_str("Hunter2"));
    assert_eq!(expected(r#"{ "login": { "@ref": { "class": { "@ref": { "class": { "@ref": { "id": "classes" } }, "id": "characters" } }, "id": "1234" } }, "params": { "object": { "password": "Hunter2" } } }"#), serialized(&fun));
}

#[test]
fn test_logout() {
    let fun = Logout::new(Value::from_bool(false));
    assert_eq!(expected(r#"{ "logout": false }"#), serialized(&fun));
}

#[test]
fn test_round_with_precision() {
    let mut fun = Round::new(float(4.20));
    fun.precision(integer(4));
    assert_eq!(expected(r#"{"round": 4.2, "precision": 4}"#), serialized(&fun.into_value()));
}

#[test]
fn test_trunc_with_precision() {
    let mut fun = Trunc::new(float(4.20));
    fun.precision(integer(4));
    assert_eq!(expected(r#"{"trunc": 4.2, "precision": 4}"#), serialized(&fun.into_value()));
}
