//! The JSON text encoder, the lazily carried conversion failures, and the
//! response parsing.

use serde_json::Value;
use unreql::json::Json;
use unreql::session::{parse_server_info, parse_server_info_response};
use unreql::tools::bytes_to_string;
use unreql::options::{Durability, Replicas, TableCreateOptions};
use unreql::datetime::parse_datetime;
use unreql::{r, Command, DateTime, Datum, Error};

fn json_of(dt: DateTime) -> Json {
    match dt.to_datum() {
        Datum::Value(j) => j,
        _ => panic!("a time serializes as a carried JSON value"),
    }
}

fn jstr(s: &str) -> Json {
    Json::Str(s.to_string())
}

#[test]
fn encodes_scalars() {
    assert_eq!(Json::Null.to_text(), "null");
    assert_eq!(Json::Bool(true).to_text(), "true");
    assert_eq!(Json::Bool(false).to_text(), "false");
    assert_eq!(Json::Int(0).to_text(), "0");
    assert_eq!(Json::Int(42).to_text(), "42");
    assert_eq!(Json::Int(-7).to_text(), "-7");
    assert_eq!(Json::Int(i64::MAX).to_text(), "9223372036854775807");
    assert_eq!(Json::Int(i64::MIN).to_text(), "-9223372036854775808");
}

#[test]
fn encodes_strings_with_escapes() {
    assert_eq!(jstr("hello").to_text(), r#""hello""#);
    assert_eq!(jstr("say \"hi\"").to_text(), r#""say \"hi\"""#);
    assert_eq!(jstr("a\\b").to_text(), r#""a\\b""#);
    assert_eq!(jstr("line\nbreak\ttab\r").to_text(), r#""line\nbreak\ttab\r""#);
    assert_eq!(jstr("\u{8}\u{c}").to_text(), r#""\b\f""#);
    assert_eq!(jstr("\u{1}\u{1f}").to_text(), r#""\u0001\u001f""#);
    assert_eq!(jstr("héllo").to_text(), "\"héllo\"");
}

#[test]
fn encodes_containers() {
    let arr = Json::Arr(vec![Json::Int(1), Json::Null, jstr("x")]);
    assert_eq!(arr.to_text(), r#"[1,null,"x"]"#);
    let obj = Json::Obj(vec![
        ("a".to_string(), Json::Int(1)),
        ("b".to_string(), Json::Arr(vec![])),
    ]);
    assert_eq!(obj.to_text(), r#"{"a":1,"b":[]}"#);
    assert_eq!(Json::Obj(vec![]).to_text(), "{}");
}

#[test]
fn json_escape_hatch_is_serialized_verbatim() {
    // A generic JSON array carried as a value gets no make-array prefix,
    // unlike a datum array.
    let as_value = r.expr(Json::Arr(vec![Json::Int(1), Json::Int(2)]));
    assert_eq!(as_value.to_wire_string().unwrap(), "[1,2]");
    let as_datum = r.expr(Datum::Array(vec![Datum::Number(1), Datum::Number(2)]));
    assert_eq!(as_datum.to_wire_string().unwrap(), "[2,[1,2]]");
}

#[test]
fn conversion_failure_is_carried_until_serialization() {
    let poisoned = Command::from_result(Err(Error::Conversion(
        "value not representable".to_string(),
    )));
    // Construction goes on: the failure does not abort chaining.
    let query = r.table("t").insert(poisoned);
    match query.to_wire_string() {
        Err(Error::Conversion(msg)) => {
            assert_eq!(msg, "value not representable");
        }
        _ => panic!("serialization must surface the carried failure"),
    }
}

#[test]
fn first_failure_in_argument_order_wins() {
    let bad1 = Command::from_result(Err(Error::Conversion("first".to_string())));
    let bad2 = Command::from_result(Err(Error::Conversion("second".to_string())));
    let query = r.expr(1).add(bad1).add(bad2);
    // Children are [[1, first], second]; the deepest-left failure surfaces.
    match query.to_wire_string() {
        Err(Error::Conversion(msg)) => assert_eq!(msg, "first"),
        _ => panic!("serialization must fail"),
    }
}

#[test]
fn error_message_text() {
    let e = Error::Driver(unreql::Driver::ConnectionBroken);
    assert_eq!(e.message(), "connection broken");
    let e = Error::Conversion("bad leaf".to_string());
    assert_eq!(e.message(), "bad leaf");
    let e = Error::Driver(unreql::Driver::NotFound);
    assert_eq!(e.message(), "not found");
}

#[test]
fn parses_server_info() {
    let info_obj = Json::Obj(vec![
        ("id".to_string(), jstr("a4")),
        ("proxy".to_string(), Json::Bool(false)),
        ("name".to_string(), jstr("tycho")),
    ]);
    let info = parse_server_info(&info_obj).unwrap();
    assert_eq!(info.id, "a4");
    assert!(!info.proxy);
    assert_eq!(info.name.as_deref(), Some("tycho"));

    let anonymous = Json::Obj(vec![
        ("proxy".to_string(), Json::Bool(true)),
        ("id".to_string(), jstr("b7")),
        ("name".to_string(), Json::Null),
    ]);
    let info = parse_server_info(&anonymous).unwrap();
    assert_eq!(info.id, "b7");
    assert!(info.proxy);
    assert!(info.name.is_none());

    assert!(parse_server_info(&Json::Obj(vec![("id".to_string(), jstr("x"))])).is_err());
    assert!(parse_server_info(&Json::Int(3)).is_err());
}

#[test]
fn parses_server_info_response_array() {
    let info_obj = Json::Obj(vec![
        ("id".to_string(), jstr("a4")),
        ("proxy".to_string(), Json::Bool(false)),
    ]);
    let resp = Json::Arr(vec![info_obj]);
    let info = parse_server_info_response(&resp).unwrap();
    assert_eq!(info.id, "a4");
    assert!(info.name.is_none());

    match parse_server_info_response(&Json::Arr(vec![])) {
        Err(e) => assert_eq!(e.message(), "server info is empty"),
        Ok(_) => panic!("an empty response must fail"),
    }
}

#[test]
fn table_create_options_spread_replicas() {
    let opts = TableCreateOptions::new()
        .primary_key("id".to_string())
        .durability(Durability::Soft)
        .replicas(Replicas::PerTag {
            replicas: vec![("us".to_string(), 2)],
            primary_replica_tag: "us".to_string(),
        });
    let query = r.table_create(r.with_opt("heroes", opts));
    assert_eq!(
        query.to_wire_string().unwrap(),
        r#"[60,["heroes"],{"primary_key":"id","durability":"soft","replicas":{"us":2},"primary_replica_tag":"us"}]"#
    );
}

#[test]
fn bytes_render_as_text_or_listing() {
    assert_eq!(bytes_to_string(b"hello"), "hello");
    assert_eq!(bytes_to_string(b""), "");
    // 0xff never occurs in UTF-8, so the bytes are listed instead.
    assert_eq!(bytes_to_string(&[0xff, 0, 37]), "[255, 0, 37]");
    assert_eq!(bytes_to_string(&[0x80]), "[128]");
}

#[test]
fn with_milliseconds() {
    let dt = DateTime { seconds: 2298126227, milliseconds: 60, offset_minutes: 90 };
    let wire = r.expr(dt.to_datum()).to_wire_string().unwrap();
    assert_eq!(
        wire,
        r#"{"$reql_type$":"TIME","epoch_time":2298126227.060,"timezone":"+01:30"}"#
    );
    let parsed = parse_datetime(&json_of(dt)).unwrap();
    assert_eq!(dt, parsed);
}

#[test]
fn with_seconds() {
    let dt = DateTime { seconds: 2298126227, milliseconds: 0, offset_minutes: 90 };
    let parsed = parse_datetime(&json_of(dt)).unwrap();
    assert_eq!(dt, parsed);
}

#[test]
fn with_minutes() {
    let dt = DateTime { seconds: 2298126180, milliseconds: 0, offset_minutes: 90 };
    let parsed = parse_datetime(&json_of(dt)).unwrap();
    assert_eq!(dt, parsed);
}

#[test]
fn time_with_negative_offset_and_bad_inputs() {
    let dt = DateTime { seconds: -5, milliseconds: 100, offset_minutes: -390 };
    let wire = r.expr(dt.to_datum()).to_wire_string().unwrap();
    assert_eq!(
        wire,
        r#"{"$reql_type$":"TIME","epoch_time":-5.100,"timezone":"-06:30"}"#
    );
    assert_eq!(parse_datetime(&json_of(dt)).unwrap(), dt);
    assert!(parse_datetime(&Json::Int(3)).is_err());
    let untagged = Json::Obj(vec![
        ("epoch_time".to_string(), Json::Int(0)),
        ("timezone".to_string(), jstr("+00:00")),
    ]);
    assert!(parse_datetime(&untagged).is_err());
    let bad_tz = Json::Obj(vec![
        ("$reql_type$".to_string(), jstr("TIME")),
        ("epoch_time".to_string(), Json::Int(0)),
        ("timezone".to_string(), jstr("+99:00")),
    ]);
    assert!(parse_datetime(&bad_tz).is_err());
}

#[test]
fn encoder_agrees_with_the_reference_encoder() {
    // The same document in both models must print the same text.
    let mine = Json::Obj(vec![
        ("id".to_string(), Json::Int(-42)),
        ("name".to_string(), jstr("a \"quoted\" name\n")),
        (
            "tags".to_string(),
            Json::Arr(vec![Json::Null, Json::Bool(true), Json::Int(7)]),
        ),
    ]);
    let mut obj = serde_json::Map::new();
    obj.insert("id".to_string(), Value::from(-42i64));
    obj.insert("name".to_string(), Value::from("a \"quoted\" name\n"));
    obj.insert(
        "tags".to_string(),
        Value::Array(vec![Value::Null, Value::from(true), Value::from(7i64)]),
    );
    let reference = serde_json::to_string(&Value::Object(obj)).unwrap();
    assert_eq!(mine.to_text(), reference);
}
