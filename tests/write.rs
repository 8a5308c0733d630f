use faunadb::permission::{ClassPermission, FunctionPermission, IndexPermission, InstancePermission, Level};
use faunadb::query::{Add, Lambda};
use faunadb::write::{
    ClassParams, Create, CreateClass, CreateDatabase, CreateFunction, CreateIndex, CreateKey, DatabaseParams,
    FunctionParams, IndexParams, IndexValue, Insert, InsertParams, KeyParams, Term, Update, UpdateParams,
};
use faunadb::{encode, Action, Error, Json, LocalTime, Number, Object, Query, Ref, Role, Timestamp, Value, Var};

fn to_serde(j: &Json) -> serde_json::Value {
    match j {
        Json::Null => serde_json::Value::Null,
        Json::Bool(b) => serde_json::Value::Bool(*b),
        Json::Number(Number::UInt(u)) => serde_json::Value::from(*u),
        Json::Number(Number::Int(i)) => serde_json::Value::from(*i),
        Json::Number(Number::Double(b)) => serde_json::Value::from(f64::from_bits(*b)),
        Json::Number(Number::Float(b)) => serde_json::Value::from(f32::from_bits(*b) as f64),
        Json::String(s) => serde_json::Value::String(s.clone()),
        Json::Array(a) => serde_json::Value::Array(a.iter().map(to_serde).collect()),
        Json::Object(m) => {
            let mut map = serde_json::Map::new();
            for (k, v) in m {
                map.insert(k.clone(), to_serde(v));
            }
            serde_json::Value::Object(map)
        }
    }
}

fn serialized(v: &Value) -> serde_json::Value {
    to_serde(&encode(v))
}

fn expected(text: &str) -> serde_json::Value {
    serde_json::from_str(text).unwrap()
}

fn object(pairs: &[(&str, &str)]) -> Object {
    let mut o = Object::new();
    for (k, v) in pairs {
        o.insert(k, Value::from_str(v));
    }
    o
}

fn var(name: &str) -> Value {
    Value::from_query(Query::Var(Var::new(name)))
}

fn strings(items: &[&str]) -> Vec<String> {
    items.iter().map(|s| s.to_string()).collect()
}

fn musti_in_housecats() -> Ref {
    let mut instance_ref = Ref::instance("musti");
    instance_ref.set_class("HouseCats");
    instance_ref
}

const MUSTI: &str = r#"{ "@ref": { "class": { "@ref": { "class": { "@ref": { "id": "classes" } }, "id": "HouseCats" } }, "id": "musti" } }"#;
const HOUSECATS: &str = r#"{ "@ref": { "class": { "@ref": { "id": "classes" } }, "id": "HouseCats" } }"#;

#[test]
fn test_create_expr() {
    let obj = object(&[("test_field", "test_value")]);
    let query = Create::new(Value::from_ref(Ref::class("test")), Value::from_object(obj));
    let expected = expected(
        r#"{ "params": { "object": { "data": { "object": { "test_field": "test_value" } } } }, "create": { "@ref": { "class": { "@ref": { "id": "classes" } }, "id": "test" } } }"#,
    );
    assert_eq!(expected, serialized(&query));
}

#[test]
fn test_create_class_expr() {
    let mut permission = ClassPermission::default();
    permission.read(Level::public());
    let mut params = ClassParams::new("test");
    params.history_days(10);
    params.permissions(permission);
    let query = CreateClass::new(params);
    let expected = expected(
        r#"{ "create_class": { "object": { "history_days": 10, "name": "test", "permissions": { "object": { "read": "public" } } } } }"#,
    );
    assert_eq!(expected, serialized(&query));
}

#[test]
fn test_create_database_expr() {
    let mut params = DatabaseParams::new("test");
    params.priority(10).unwrap();
    let query = CreateDatabase::new(params);
    let expected = expected(r#"{ "create_database": { "object": { "name": "test", "api_version": "2.0", "priority": 10 } } }"#);
    assert_eq!(expected, serialized(&query));
}

#[test]
fn database_priority_out_of_range() {
    let mut params = DatabaseParams::new("test");
    match params.priority(0) {
        Err(Error::RequestDataFailure(m)) => assert_eq!("Priority should be a number between 1 and 500", m),
        other => panic!("{:?}", other.is_ok()),
    }
    assert!(params.priority(501).is_err());
    assert!(params.priority(500).is_ok());
    assert_eq!(Some(500), params.priority);
}

#[test]
fn test_create_function() {
    let params = FunctionParams::new(
        "double",
        Lambda::new(Value::from_str("x"), Add::new(Value::from_vec(vec![var("x"), var("x")]))),
    );
    let query = CreateFunction::new(params);
    let expected = expected(
        r#"{ "create_function": { "object": { "body": { "@query": { "expr": { "add": [{"var": "x"}, {"var": "x"}] }, "lambda": "x" } }, "name": "double" } } }"#,
    );
    assert_eq!(expected, serialized(&query));
}

#[test]
fn create_index_test_create_index() {
    let mut permission = IndexPermission::default();
    permission.read(Level::public());
    let mut params = IndexParams::new("meows", Ref::class("cats"));
    params.permissions(permission);
    let age_term = Term::field(strings(&["data", "age"]));
    let name_term = Term::binding("cats_name");
    params.terms(vec![age_term, name_term]);
    let name_value = IndexValue::field(strings(&["data", "name"]));
    let mut age_value = IndexValue::binding("cats_age");
    age_value.reverse();
    params.values(vec![age_value, name_value]);
    let query = CreateIndex::new(params);
    let expected = expected(
        r#"{ "create_index": { "object": { "active": false, "name": "meows", "permissions": { "object": { "read": "public" } }, "serialized": false, "source": { "@ref": { "class": { "@ref": { "id": "classes" } }, "id": "cats" } }, "terms": [ { "object": { "field": ["data", "age"] } }, { "object": { "binding": "cats_name" } } ], "unique": false, "values": [ { "object": { "binding": "cats_age", "reverse": true } }, { "object": { "field": ["data", "name"], "reverse": false } } ] } } }"#,
    );
    assert_eq!(expected, serialized(&query));
}

#[test]
fn create_key_test_create_index() {
    let data = object(&[("foo", "bar")]);
    let mut params = KeyParams::new(Ref::database("cats"), Role::Admin);
    params.priority(420);
    params.data(data);
    let query = CreateKey::new(params);
    let expected = expected(
        r#"{ "create_key": { "object": { "database": { "@ref": { "class": { "@ref": { "id": "databases" } }, "id": "cats" } }, "role": "admin", "priority": 420, "data": { "object": { "foo": "bar" } } } } }"#,
    );
    assert_eq!(expected, serialized(&query));
}

#[test]
fn insert_test_insert() {
    let data = object(&[("scratch", "moar")]);
    let credentials = object(&[("push", "meowmeow")]);
    let delegates = object(&[("pawpaw", "meow")]);
    let params = InsertParams::new(
        Value::from_object(data),
        Value::from_object(credentials),
        Value::from_object(delegates),
    );
    let ts = match Timestamp::from_unix(60, 0) {
        LocalTime::Single(t) => t,
        _ => panic!("no instant"),
    };
    let fun = Insert::new(Ref::instance("musti"), ts, Action::Update, params);
    let expected = expected(
        r#"{ "params": { "object": { "data": { "object": { "scratch": "moar" } }, "credentials": { "object": { "push": "meowmeow" } }, "delegates": { "object": { "pawpaw": "meow" } } } }, "ts": {"@ts": "1970-01-01T00:01:00Z"}, "action": "update", "insert": { "@ref": { "id": "musti" } } }"#,
    );
    assert_eq!(expected, serialized(&fun));
}

#[test]
fn update_test_insert() {
    let mut params = UpdateParams::new();
    params.data(Value::from_object(object(&[("scratch", "moar")])));
    params.credentials(Value::from_object(object(&[("push", "meowmeow")])));
    params.delegates(Value::from_object(object(&[("pawpaw", "meow")])));
    let fun = Update::new(Value::from_ref(Ref::instance("musti")), params);
    let expected = expected(
        r#"{ "params": { "object": { "data": { "object": { "scratch": "moar" } }, "credentials": { "object": { "push": "meowmeow" } }, "delegates": { "object": { "pawpaw": "meow" } } } }, "update": { "@ref": { "id": "musti" } } }"#,
    );
    assert_eq!(expected, serialized(&fun));
}

#[test]
fn test_class_permission() {
    let mut perm = ClassPermission::default();
    perm.create(Level::public());
    perm.read(Level::reference(musti_in_housecats()));
    perm.write(Level::reference(Ref::class("HouseCats")));
    let expected = expected(&format!(
        r#"{{ "object": {{ "create": "public", "read": {}, "write": {} }} }}"#,
        MUSTI, HOUSECATS
    ));
    assert_eq!(expected, serialized(&perm.into_value()))
}

#[test]
fn test_instance_permission() {
    let mut perm = InstancePermission::default();
    perm.read(Level::reference(musti_in_housecats()));
    perm.write(Level::reference(Ref::class("HouseCats")));
    let expected = expected(&format!(r#"{{ "object": {{ "read": {}, "write": {} }} }}"#, MUSTI, HOUSECATS));
    assert_eq!(expected, serialized(&perm.into_value()))
}

#[test]
fn test_function_permission() {
    let mut perm = FunctionPermission::default();
    perm.call(Level::public());
    assert_eq!(expected(r#"{ "object": {"call": "public"} }"#), serialized(&perm.into_value()));
}

#[test]
fn test_index_permission() {
    let mut perm = IndexPermission::default();
    perm.read(Level::reference(Ref::class("HouseCats")));
    let expected = expected(&format!(r#"{{ "object": {{ "read": {} }} }}"#, HOUSECATS));
    assert_eq!(expected, serialized(&perm.into_value()))
}
