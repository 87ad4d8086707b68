use a3c_soc_auth0_events::encode::EncodeOutcome;
use a3c_soc_auth0_events::json::is_json_array;
use a3c_soc_auth0_events::log4rs::{alert_of, payload_of, record_for, write_out};
use a3c_soc_auth0_events::{
    Alert, Encode, EncodeError, EncoderType, EncodersSettings, Log4rsEncoder,
    Log4rsEncoderSettings, Payload,
};
use serde_json::Value;

fn encoder(name: &str) -> Log4rsEncoder {
    Log4rsEncoder::new(Log4rsEncoderSettings { enable: Some(true), logger_name: name.to_string() })
}

fn ok(s: &str) -> Result<String, String> {
    Ok(s.to_string())
}

fn parse(s: &str) -> Value {
    serde_json::from_str(s).unwrap()
}

/// The record that serde_json writes for `{"auth0alert": v, "event": "auth0"}`.
fn reference_record(v: &Value) -> String {
    let mut m = serde_json::Map::new();
    m.insert("auth0alert".to_string(), v.clone());
    m.insert("event".to_string(), Value::String("auth0".to_string()));
    serde_json::to_string(&Value::Object(m)).unwrap()
}

fn records(out: &EncodeOutcome) -> Vec<String> {
    out.records.clone()
}

#[test]
fn encode_error_keeps_message() {
    let e = EncodeError::new("boom");
    assert_eq!(e.msg(), "boom");
    assert_eq!(e.to_display_string(), "Error in encoder: boom");
}

#[test]
fn encoder_keeps_settings_and_name() {
    let e = encoder("data_encoder");
    assert_eq!(e.settings.logger_name, "data_encoder");
    assert_eq!(e.settings.enable, Some(true));
    assert_eq!(e.name(), "log4rs-encode");
}

#[test]
fn record_frames_text() {
    assert_eq!(record_for("{\"a\":1}"), "{\"auth0alert\":{\"a\":1},\"event\":\"auth0\"}");
    assert_eq!(record_for(""), "{\"auth0alert\":,\"event\":\"auth0\"}");
}

#[test]
fn record_matches_serde_json_object() {
    for text in ["{\"b\":[1,2],\"a\":null}", "\"x\\\"y\"", "12.5", "[]", "true"] {
        let v = parse(text);
        let written = serde_json::to_string(&v).unwrap();
        assert_eq!(record_for(&written), reference_record(&v));
    }
}

#[test]
fn payload_not_array_is_refused() {
    let out = encoder("t").encode_payload(&Payload::NotArray);
    assert_eq!(out.target, "t");
    assert!(out.records.is_empty());
    assert_eq!(
        out.result.as_ref().unwrap_err().msg(),
        "data is not a JSON array. Make sure to configure Auth0 log stream to JSON Array"
    );
}

#[test]
fn payload_empty_array_succeeds() {
    let out = encoder("t").encode_payload(&Payload::Array(vec![]));
    assert!(out.records.is_empty());
    assert!(out.result.is_ok());
}

#[test]
fn payload_batches_are_flattened() {
    let p = Payload::Array(vec![
        Alert::Single(ok("1")),
        Alert::Batch(vec![ok("2"), ok("\"x\"")]),
        Alert::Batch(vec![]),
        Alert::Single(ok("{}")),
    ]);
    let out = encoder("t").encode_payload(&p);
    assert!(out.result.is_ok());
    assert_eq!(
        records(&out),
        vec![
            "{\"auth0alert\":1,\"event\":\"auth0\"}",
            "{\"auth0alert\":2,\"event\":\"auth0\"}",
            "{\"auth0alert\":\"x\",\"event\":\"auth0\"}",
            "{\"auth0alert\":{},\"event\":\"auth0\"}",
        ]
    );
}

#[test]
fn payload_stops_at_first_failure() {
    let p = Payload::Array(vec![
        Alert::Single(ok("1")),
        Alert::Batch(vec![ok("2"), Err("bad value".to_string()), ok("3")]),
        Alert::Single(Err("later".to_string())),
    ]);
    let out = encoder("t").encode_payload(&p);
    assert_eq!(out.result.as_ref().unwrap_err().msg(), "bad value");
    assert_eq!(
        records(&out),
        vec!["{\"auth0alert\":1,\"event\":\"auth0\"}", "{\"auth0alert\":2,\"event\":\"auth0\"}"]
    );
}

#[test]
fn batch_alert_same_as_its_elements() {
    let nested = Payload::Array(vec![Alert::Single(ok("0")), Alert::Batch(vec![ok("1"), ok("2")])]);
    let spread = Payload::Array(vec![
        Alert::Single(ok("0")),
        Alert::Single(ok("1")),
        Alert::Single(ok("2")),
    ]);
    let a = encoder("t").encode_payload(&nested);
    let b = encoder("t").encode_payload(&spread);
    assert_eq!(a.records, b.records);
    assert!(a.result.is_ok() && b.result.is_ok());
}

#[test]
fn batches_concatenate() {
    let first = vec![Alert::Single(ok("1"))];
    let second = vec![Alert::Batch(vec![ok("2"), ok("3")])];
    let both = vec![Alert::Single(ok("1")), Alert::Batch(vec![ok("2"), ok("3")])];
    let e = encoder("t");
    let o1 = e.encode_payload(&Payload::Array(first));
    let o2 = e.encode_payload(&Payload::Array(second));
    let o = e.encode_payload(&Payload::Array(both));
    let mut joined = o1.records.clone();
    joined.extend(o2.records.clone());
    assert_eq!(o.records, joined);
    assert!(o.result.is_ok());
}

#[test]
fn encode_value_array_of_alerts() {
    let data = parse("[{\"type\":\"s\",\"n\":1},[2,\"x\"],null]");
    let out = encoder("data_encoder").encode(&data);
    assert_eq!(out.target, "data_encoder");
    assert!(out.result.is_ok());
    let leaves = [parse("{\"type\":\"s\",\"n\":1}"), parse("2"), parse("\"x\""), Value::Null];
    let expected: Vec<String> = leaves.iter().map(reference_record).collect();
    assert_eq!(out.records, expected);
}

#[test]
fn encode_value_not_array() {
    let out = encoder("t").encode(&parse("{\"a\":[1]}"));
    assert!(out.records.is_empty());
    assert_eq!(
        out.result.as_ref().unwrap_err().msg(),
        "data is not a JSON array. Make sure to configure Auth0 log stream to JSON Array"
    );
}

#[test]
fn json_wrappers() {
    assert!(is_json_array(&parse("[1]")));
    assert!(!is_json_array(&parse("\"[1]\"")));
    assert_eq!(write_out(&parse("{ \"a\" : [ 1 , 2 ] }")), ok("{\"a\":[1,2]}"));
    assert_eq!(write_out(&parse("[true, null]")), Ok("[true,null]".to_string()));
}

#[test]
fn written_out_forms() {
    match alert_of(&parse("[1, {\"k\": \"v\"}]")) {
        Alert::Batch(ws) => assert_eq!(ws, vec![ok("1"), ok("{\"k\":\"v\"}")]),
        Alert::Single(_) => panic!("expected a batch"),
    }
    match alert_of(&parse("\"s\"")) {
        Alert::Single(w) => assert_eq!(w, ok("\"s\"")),
        Alert::Batch(_) => panic!("expected a single value"),
    }
    assert!(matches!(payload_of(&parse("3")), Payload::NotArray));
    match payload_of(&parse("[[], 4]")) {
        Payload::Array(a) => {
            assert_eq!(a.len(), 2);
            assert!(matches!(&a[0], Alert::Batch(ws) if ws.is_empty()));
            assert!(matches!(&a[1], Alert::Single(Ok(t)) if t == "4"));
        }
        Payload::NotArray => panic!("expected an array"),
    }
}

#[test]
fn encoder_settings_clone() {
    let s = EncodersSettings {
        encoders: vec![EncoderType::Log4rs(Log4rsEncoderSettings {
            enable: None,
            logger_name: "n".to_string(),
        })],
    };
    let c = s.encoders[0].clone();
    let EncoderType::Log4rs(l) = c;
    assert_eq!(l.logger_name, "n");
    assert_eq!(l.enable, None);
}

#[test]
fn failed_first_batch_hides_second() {
    let e = encoder("t");
    let first = vec![Alert::Single(ok("1")), Alert::Single(Err("broken".to_string()))];
    let both = vec![
        Alert::Single(ok("1")),
        Alert::Single(Err("broken".to_string())),
        Alert::Single(ok("2")),
    ];
    let o1 = e.encode_payload(&Payload::Array(first));
    let o = e.encode_payload(&Payload::Array(both));
    assert_eq!(o.records, o1.records);
    assert_eq!(o.result.as_ref().unwrap_err().msg(), o1.result.as_ref().unwrap_err().msg());
    assert_eq!(o.records, vec!["{\"auth0alert\":1,\"event\":\"auth0\"}"]);
}

#[test]
fn encode_fails_only_when_not_array() {
    for text in ["{}", "1", "\"a\"", "null", "true"] {
        let out = encoder("t").encode(&parse(text));
        assert!(out.result.is_err());
        assert!(out.records.is_empty());
    }
    for text in ["[]", "[[]]", "[1, [null, {\"a\": \"b\"}]]"] {
        assert!(encoder("t").encode(&parse(text)).result.is_ok());
    }
}

#[test]
fn json_arrays_concatenate() {
    let e = encoder("t");
    let a = e.encode(&parse("[1, [2, 3]]"));
    let b = e.encode(&parse("[{\"x\": 4}]"));
    let c = e.encode(&parse("[1, [2, 3], {\"x\": 4}]"));
    let empty = e.encode(&parse("[]"));
    assert!(empty.records.is_empty());
    let mut joined = a.records.clone();
    joined.extend(b.records.clone());
    assert!(c.result.is_ok());
    assert_eq!(c.records, joined);
    assert_eq!(c.records.len(), 4);
}
