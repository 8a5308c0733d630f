use faunadb::query::{
    CaseFold, Classes, Concat, Date, Difference, Distinct, Epoch, FindStr, FindStrRegex, Get, Index,
    Intersection, Join, KeyFromSecret, LTrim, Length, LowerCase, Match, Paginate, RTrim, Remove, Repeat,
    Replace, ReplaceStr, ReplaceStrRegex, Select, SelectAll, Space, SubString, Time, TitleCase, Trim, Union,
    UpperCase,
};
use faunadb::{encode, Action, EpochUnit, Json, LocalTime, Normalizer, Number, Object, Ref, Timestamp, Value};

fn to_serde(j: &Json) -> serde_json::Value {
    match j {
        Json::Null => serde_json::Value::Null,
        Json::Bool(b) => serde_json::Value::Bool(*b),
        Json::Number(Number::UInt(u)) => serde_json::Value::from(*u),
        Json::Number(Number::Int(i)) => serde_json::Value::from(*i),
        Json::Number(Number::Double(b)) => serde_json::Value::from(f64::from_bits(*b)),
        Json::Number(Number::Float(b)) => serde_json::Value::from(f32::from_bits(*b) as f64),
        Json::String(s) => serde_json::Value::String(s.clone()),
        Json::Array(a) => serde_json::Value::Array(a.iter().map(to_serde).collect()),
        Json::Object(m) => {
            let mut map = serde_json::Map::new();
            for (k, v) in m {
                map.insert(k.clone(), to_serde(v));
            }
            serde_json::Value::Object(map)
        }
    }
}

fn serialized(v: &Value) -> serde_json::Value {
    to_serde(&encode(v))
}

fn expected(text: &str) -> serde_json::Value {
    serde_json::from_str(text).unwrap()
}

fn text(s: &str) -> Value {
    Value::from_str(s)
}

fn integer(i: i64) -> Value {
    Value::from_i64(i)
}

fn at(secs: i64) -> Timestamp {
    match Timestamp::from_unix(secs, 0) {
        LocalTime::Single(t) => t,
        _ => panic!("no instant"),
    }
}

fn spells(element: &str) -> Value {
    Match::new(Index::find("spells_by_element"), text(element))
}

fn path() -> Vec<Value> {
    vec![text("favorites"), text("foods"), integer(1)]
}

#[test]
fn test_ltrim() {
    let fun = LTrim::new(text("     haha"));
    assert_eq!(expected(r#"{ "ltrim": "     haha" }"#), serialized(&fun));
}

#[test]
fn test_length() {
    let fun = Length::new(text("I'm long"));
    assert_eq!(expected(r#"{ "length": "I'm long" }"#), serialized(&fun));
}

#[test]
fn test_lowercase() {
    let fun = LowerCase::new(text("I SCREAM AND I YELL AND YOU CAN'T STOP ME"));
    assert_eq!(expected(r#"{ "lowercase": "I SCREAM AND I YELL AND YOU CAN'T STOP ME" }"#), serialized(&fun));
}

#[test]
fn test_rtrim() {
    let fun = RTrim::new(text("haha      "));
    assert_eq!(expected(r#"{ "rtrim": "haha      " }"#), serialized(&fun));
}

#[test]
fn test_repeat() {
    let fun = Repeat::new(text("All work and no play makes Jack a dull boy."), integer(100000));
    assert_eq!(expected(r#"{ "repeat": "All work and no play makes Jack a dull boy.", "number": 100000 }"#), serialized(&fun));
}

#[test]
fn test_replace_str() {
    let fun = ReplaceStr::new(text("fire and fireman"), text("fire"), text("meow"));
    assert_eq!(expected(r#"{ "replacestr": "fire and fireman", "find": "fire", "replace": "meow" }"#), serialized(&fun));
}

#[test]
fn test_replace_str_regex() {
    let fun = ReplaceStrRegex::new(text("fire and fireman"), text("[a-z][A-Z]"), text("meow"), false);
    assert_eq!(expected(r#"{ "replacestrregex": "fire and fireman", "pattern": "[a-z][A-Z]", "replace": "meow", "first": false }"#), serialized(&fun));
}

#[test]
fn test_space() {
    let fun = Space::new(integer(4));
    assert_eq!(expected(r#"{ "space": 4 }"#), serialized(&fun));
}

#[test]
fn test_title_case() {
    let fun = TitleCase::new(text("this is a lousy title"));
    assert_eq!(expected(r#"{ "titlecase": "this is a lousy title" }"#), serialized(&fun));
}

#[test]
fn test_trim() {
    let fun = Trim::new(text("  cut cut trim it out    "));
    assert_eq!(expected(r#"{ "trim": "  cut cut trim it out    " }"#), serialized(&fun));
}

#[test]
fn test_uppercase() {
    let fun = UpperCase::new(text("i have a tiny voice, can you help me?"));
    assert_eq!(expected(r#"{ "uppercase": "i have a tiny voice, can you help me?" }"#), serialized(&fun));
}

#[test]
fn test_concat() {
    let fun = Concat::new(Value::from_vec(vec![text("Hen"), text("Wen")]), text(","));
    assert_eq!(expected(r#"{ "concat": ["Hen", "Wen"], "separator": "," }"#), serialized(&fun));
}

#[test]
fn test_difference() {
    let fun = Difference::new(spells("fire"), spells("water")).into_value();
    assert_eq!(expected(r#"{ "difference": [ {"match": {"index": "spells_by_element"}, "terms": "fire"}, {"match": {"index": "spells_by_element"}, "terms": "water"} ] }"#), serialized(&fun));
}

#[test]
fn test_distinct() {
    let fun = Distinct::new(Match::new(Index::find("spells_by_element"), Value::null()));
    assert_eq!(expected(r#"{ "distinct": {"match": {"index": "spells_by_element"}, "terms": null} }"#), serialized(&fun));
}

#[test]
fn test_intersection() {
    let fun = Intersection::new(spells("fire"), spells("water")).into_value();
    assert_eq!(expected(r#"{ "intersection": [ {"match": {"index": "spells_by_element"}, "terms": "fire"}, {"match": {"index": "spells_by_element"}, "terms": "water"} ] }"#), serialized(&fun));
}

#[test]
fn test_match() {
    let fun = spells("fire");
    assert_eq!(expected(r#"{ "match": {"index": "spells_by_element"}, "terms": "fire" }"#), serialized(&fun));
}

#[test]
fn test_union() {
    let fun = Union::new(spells("fire"), spells("water")).into_value();
    assert_eq!(expected(r#"{ "union": [ {"match": {"index": "spells_by_element"}, "terms": "fire"}, {"match": {"index": "spells_by_element"}, "terms": "water"} ] }"#), serialized(&fun));
}

#[test]
fn test_key_from_secret() {
    let fun = KeyFromSecret::new(text("Hunter2"));
    assert_eq!(expected(r#"{ "key_from_secret": "Hunter2" }"#), serialized(&fun));
}

#[test]
fn test_select_all() {
    let fun = SelectAll::new(path(), Get::instance(Ref::instance("naukio")).into_value());
    assert_eq!(expected(r#"{ "select_all": ["favorites", "foods", 1], "from": { "get": { "@ref": { "id": "naukio" } } } }"#), serialized(&fun));
}

#[test]
fn test_date() {
    let fun = Date::new(text("1970-01-01"));
    assert_eq!(expected(r#"{ "date": "1970-01-01" }"#), serialized(&fun));
}

#[test]
fn test_epoch() {
    let fun = Epoch::new(integer(5), EpochUnit::Second);
    assert_eq!(expected(r#"{ "epoch": 5, "unit": "second" }"#), serialized(&fun));
}

#[test]
fn test_time() {
    let fun = Time::new(text("1970-01-01T00:00:00+00:00"));
    assert_eq!(expected(r#"{ "time": "1970-01-01T00:00:00+00:00" }"#), serialized(&fun));
}

#[test]
fn test_remove() {
    let fun = Remove::new(Ref::instance("naukio"), at(60), Action::Create);
    assert_eq!(expected(r#"{ "remove": { "@ref": { "id": "naukio" } }, "ts": { "@ts": "1970-01-01T00:01:00Z" }, "action": "create" }"#), serialized(&fun));
}

#[test]
fn test_case_fold() {
    let mut fun = CaseFold::new(text("Hen Wen"));
    fun.normalizer(Normalizer::NFD);
    let expected = expected(r#"{ "casefold": "Hen Wen", "normalizer": "NFD" }"#);
    assert_eq!(expected, serialized(&fun.into_value()));
}

#[test]
fn test_find_str() {
    let mut fun = FindStr::new(text("fire and fireman"), text("fire"));
    fun.start(integer(0));
    let expected = expected(r#"{ "findstr": "fire and fireman", "find": "fire", "start": 0 }"#);
    assert_eq!(expected, serialized(&fun.into_value()));
}

#[test]
fn test_find_str_regex() {
    let mut fun = FindStrRegex::new(text("fire and fireman"), text("[a-z][A-Z]"));
    fun.start(integer(0));
    fun.num_results(integer(4));
    let expected = expected(
        r#"{ "findstrregex": "fire and fireman", "pattern": "[a-z][A-Z]", "start": 0, "num_results": 4 }"#,
    );
    assert_eq!(expected, serialized(&fun.into_value()));
}

#[test]
fn test_substring() {
    let mut fun = SubString::new(text("meowmeowcat"), integer(4));
    fun.length(integer(2));
    let expected = expected(r#"{ "substring": "meowmeowcat", "start": 4, "length": 2 }"#);
    assert_eq!(expected, serialized(&fun.into_value()));
}

#[test]
fn test_join() {
    let mut owner = Ref::instance("wizard");
    owner.set_class("characters");
    let fun = Join::new(
        Match::new(Index::find("spellbooks_by_owner"), Value::from_ref(owner)),
        Index::find("spells_by_spellbook"),
    );
    let expected = expected(
        r#"{ "join": { "match": {"index": "spellbooks_by_owner"}, "terms": { "@ref": { "class": { "@ref": { "class": { "@ref": { "id": "classes" } }, "id": "characters" } }, "id": "wizard" } } }, "with": {"index": "spells_by_spellbook"} }"#,
    );
    assert_eq!(expected, serialized(&fun));
}

#[test]
fn test_get() {
    let mut get = Get::instance(Ref::instance("musti"));
    get.timestamp(at(60));
    let expected = expected(r#"{ "get": { "@ref": { "id": "musti" } }, "ts": { "@ts": "1970-01-01T00:01:00Z" } }"#);
    assert_eq!(expected, serialized(&get.into_value()));
}

#[test]
fn test_paginate() {
    let mut fun = Paginate::new(Classes::all());
    fun.before(Value::from_timestamp(at(100)));
    fun.after(Value::from_timestamp(at(60)));
    let expected = expected(
        r#"{ "paginate": { "classes": null }, "after": { "@ts": "1970-01-01T00:01:00Z" }, "before": { "@ts": "1970-01-01T00:01:40Z" }, "size": 64, "sources": false, "events": false }"#,
    );
    assert_eq!(expected, serialized(&fun.into_value()));
}

#[test]
fn test_select() {
    let mut fun = Select::new(path(), Get::instance(Ref::instance("musti")).into_value());
    fun.default(text("Chicken hearts"));
    let expected = expected(
        r#"{ "select": ["favorites", "foods", 1], "from": { "get": { "@ref": { "id": "musti" } } }, "default": "Chicken hearts" }"#,
    );
    assert_eq!(expected, serialized(&fun.into_value()));
}

#[test]
fn test_replace() {
    let mut data = Object::new();
    data.insert("pawpaw", text("meowmeow"));
    let fun = Replace::new(Ref::instance("musti"), data);
    let expected = expected(r#"{ "replace": { "@ref": { "id": "musti" } }, "params": { "object": { "pawpaw": "meowmeow" } } }"#);
    assert_eq!(expected, serialized(&fun));
}

#[test]
fn find_str_without_start_is_null() {
    let fun = FindStr::new(text("a"), text("b"));
    let expected = expected(r#"{ "findstr": "a", "find": "b", "start": null }"#);
    assert_eq!(expected, serialized(&fun.into_value()));
}
