use janus_proxy::helper::u64_to_string;
use janus_proxy::ice::JanusIceTrickle;
use janus_proxy::json::{is_zero, obj_get, JsonValue};
use janus_proxy::request::IncomingRequestParameters;
use janus_proxy::response::{JanusResponse, PluginResultWrapper};
use janus_proxy::error::JanusError;

fn obj(pairs: Vec<(&str, JsonValue)>) -> JsonValue {
    let mut out: Vec<(String, JsonValue)> = Vec::new();
    for (k, v) in pairs {
        out.push((k.to_string(), v));
    }
    JsonValue::Obj(out)
}

fn s(text: &str) -> JsonValue {
    JsonValue::Str(text.to_string())
}

#[test]
fn decimal_rendering_exact() {
    assert_eq!(u64_to_string(0).as_str(), "0");
    assert_eq!(u64_to_string(7).as_str(), "7");
    assert_eq!(u64_to_string(12345).as_str(), "12345");
    assert_eq!(u64_to_string(18446744073709551615).as_str(), "18446744073709551615");
}

#[test]
fn is_zero_checks_the_reserved_value() {
    assert!(is_zero(&0));
    assert!(!is_zero(&7));
}

#[test]
fn envelope_round_trip_plain() {
    let e = IncomingRequestParameters {
        transaction: "t1".to_string(),
        janus: "ping".to_string(),
        id: 0,
        session_id: 0,
        handle_id: 0,
        body: None,
        jsep: None,
        rest: Vec::new(),
    };
    let v = e.to_json();
    let p = IncomingRequestParameters::from_json(v).unwrap();
    assert_eq!(p.transaction.as_str(), "t1");
    assert_eq!(p.janus.as_str(), "ping");
    assert_eq!(p.id, 0);
    assert_eq!(p.session_id, 0);
    assert_eq!(p.handle_id, 0);
    assert_eq!(p.body, None);
    assert_eq!(p.jsep, None);
    assert_eq!(p.rest.len(), 0);
}

#[test]
fn envelope_round_trip_full() {
    let mut rest: Vec<(String, JsonValue)> = Vec::new();
    rest.push(("plugin".to_string(), s("janus.plugin.videoroom")));
    let e = IncomingRequestParameters {
        transaction: "t3".to_string(),
        janus: "attach".to_string(),
        id: 0,
        session_id: 77,
        handle_id: 5,
        body: Some(obj(vec![("request", s("list"))])),
        jsep: None,
        rest,
    };
    let v = e.to_json();
    let p = IncomingRequestParameters::from_json(v).unwrap();
    assert_eq!(p.transaction.as_str(), "t3");
    assert_eq!(p.janus.as_str(), "attach");
    assert_eq!(p.session_id, 77);
    assert_eq!(p.handle_id, 5);
    assert_eq!(p.body, Some(obj(vec![("request", s("list"))])));
    assert_eq!(p.rest.len(), 1);
    assert_eq!(p.rest[0].0.as_str(), "plugin");
    assert_eq!(p.rest[0].1, s("janus.plugin.videoroom"));
}

#[test]
fn envelope_serialize_elides_zero_ids() {
    let e = IncomingRequestParameters {
        transaction: "t2".to_string(),
        janus: "create".to_string(),
        id: 0,
        session_id: 0,
        handle_id: 0,
        body: None,
        jsep: None,
        rest: Vec::new(),
    };
    let v = e.to_json();
    match &v {
        JsonValue::Obj(pairs) => {
            assert_eq!(pairs.len(), 2);
            assert!(obj_get(pairs, "session_id").is_none());
            assert!(obj_get(pairs, "handle_id").is_none());
            assert!(obj_get(pairs, "id").is_none());
        },
        _ => panic!("expected an object"),
    }
}

#[test]
fn envelope_requires_transaction_and_janus() {
    let v = obj(vec![("janus", s("ping"))]);
    let r = IncomingRequestParameters::from_json(v);
    assert!(r.is_err());
    assert_eq!(r.unwrap_err().code, 456);

    let v = obj(vec![("transaction", s("t")), ("janus", JsonValue::UInt(3))]);
    let r = IncomingRequestParameters::from_json(v);
    assert!(r.is_err());

    let r = IncomingRequestParameters::from_json(JsonValue::UInt(4));
    assert!(r.is_err());
}

#[test]
fn envelope_rejects_mistyped_ids() {
    let v = obj(vec![
        ("transaction", s("t")),
        ("janus", s("ping")),
        ("session_id", s("nope")),
    ]);
    let r = IncomingRequestParameters::from_json(v);
    assert!(r.is_err());
    assert_eq!(r.unwrap_err().code, 456);
}

#[test]
fn response_serialization_elides_and_nests() {
    let resp = JanusResponse::new("pong", 0, "t1".to_string());
    match resp.to_json() {
        JsonValue::Obj(pairs) => {
            assert_eq!(pairs.len(), 2);
            assert_eq!(pairs[0].0.as_str(), "janus");
            assert_eq!(pairs[0].1, s("pong"));
            assert_eq!(pairs[1].0.as_str(), "transaction");
            assert_eq!(pairs[1].1, s("t1"));
        },
        _ => panic!("expected an object"),
    }

    let resp = JanusResponse::new("error", 9, "t9".to_string()).with_err(JanusError::new(
        457,
        "Unhandled request 'x' at this path".to_string(),
    ));
    match resp.to_json() {
        JsonValue::Obj(pairs) => {
            assert_eq!(pairs.len(), 4);
            assert_eq!(pairs[1].0.as_str(), "transaction");
            assert_eq!(pairs[2].0.as_str(), "error");
            match &pairs[2].1 {
                JsonValue::Obj(e) => {
                    assert_eq!(e[0].0.as_str(), "code");
                    assert_eq!(e[0].1, JsonValue::UInt(457));
                    assert_eq!(e[1].0.as_str(), "reason");
                },
                _ => panic!("expected a nested error object"),
            }
            assert_eq!(pairs[3].0.as_str(), "session_id");
            assert_eq!(pairs[3].1, JsonValue::UInt(9));
        },
        _ => panic!("expected an object"),
    }
}

#[test]
fn response_decode_reads_the_gateway_answer() {
    let v = obj(vec![
        ("janus", s("success")),
        ("transaction", s("77")),
        ("session_id", JsonValue::UInt(123)),
        ("data", obj(vec![("id", JsonValue::UInt(55))])),
    ]);
    let r = JanusResponse::from_json(v).unwrap();
    assert_eq!(r.janus.as_str(), "success");
    assert_eq!(r.transaction.as_str(), "77");
    assert_eq!(r.session_id, 123);
    assert_eq!(r.sender, 0);
    assert_eq!(r.data, Some(obj(vec![("id", JsonValue::UInt(55))])));
    assert_eq!(r.error, None);
}

#[test]
fn response_decode_round_trips_an_encoding() {
    let resp = JanusResponse::new("event", 3, "tx".to_string()).with_plugindata(
        4,
        "janus.plugin.videoroom".to_string(),
        obj(vec![("videoroom", s("event"))]),
        None,
    );
    let back = JanusResponse::from_json(resp.to_json()).unwrap();
    assert_eq!(back.janus.as_str(), "event");
    assert_eq!(back.transaction.as_str(), "tx");
    assert_eq!(back.session_id, 3);
    assert_eq!(back.sender, 4);
    let pd = back.plugindata.unwrap();
    assert_eq!(pd.plugin.as_str(), "janus.plugin.videoroom");
    assert_eq!(pd.data, obj(vec![("videoroom", s("event"))]));
}

#[test]
fn response_rewrite_substitutes_nonzero_ids() {
    let resp = JanusResponse::new("event", 1111, "".to_string());
    let out = resp.rewrite_ids(22, 33);
    assert_eq!(out.session_id, 22);
    assert_eq!(out.sender, 0);
}

#[test]
fn trickle_validation_rules() {
    let done = JanusIceTrickle {
        sdp_mid: None,
        sdp_mline_index: None,
        candidate: None,
        completed: Some(true),
    };
    assert!(done.validate().is_ok());

    let missing_stream = JanusIceTrickle {
        sdp_mid: None,
        sdp_mline_index: None,
        candidate: Some("candidate:1".to_string()),
        completed: None,
    };
    let e = missing_stream.validate().unwrap_err();
    assert_eq!(e.code, 456);

    let missing_line = JanusIceTrickle {
        sdp_mid: Some("0".to_string()),
        sdp_mline_index: None,
        candidate: None,
        completed: None,
    };
    let e = missing_line.validate().unwrap_err();
    assert_eq!(e.code, 456);

    let full = JanusIceTrickle {
        sdp_mid: Some("0".to_string()),
        sdp_mline_index: Some(0),
        candidate: Some("candidate:1".to_string()),
        completed: None,
    };
    assert!(full.validate().is_ok());
}

#[test]
fn trickle_json_round_trip() {
    let t = JanusIceTrickle {
        sdp_mid: Some("0".to_string()),
        sdp_mline_index: Some(1),
        candidate: Some("candidate:1 1 udp 1 10.0.0.1 5000 typ host".to_string()),
        completed: None,
    };
    let v = t.to_json();
    let back = JanusIceTrickle::from_json(&v).unwrap();
    assert_eq!(back.sdp_mid.as_deref(), Some("0"));
    assert_eq!(back.sdp_mline_index, Some(1));
    assert_eq!(back.completed, None);
}

#[test]
fn json_error_mapping_follows_the_category() {
    let syntax = serde_json::from_str::<serde_json::Value>("{ not json").unwrap_err();
    let e = JanusError::from_json_parse_error(syntax);
    assert_eq!(e.code, 455);
    assert_eq!(e.reason.as_str(), "Invalid json object");

    let data = serde_json::from_str::<u32>("\"abc\"").unwrap_err();
    let e = JanusError::from_json_parse_error(data);
    assert_eq!(e.code, 456);
    assert!(e.reason.as_str().starts_with("Validation error: "));
}

#[test]
fn prepare_builds_a_fresh_request() {
    let r = IncomingRequestParameters::prepare("keepalive".to_string(), None, None);
    assert_eq!(r.janus.as_str(), "keepalive");
    assert_eq!(r.session_id, 0);
    assert_eq!(r.handle_id, 0);
    assert!(!r.transaction.is_empty());
    assert!(r.transaction.as_str().chars().all(|c| c.is_ascii_digit()));
}

#[test]
fn plugin_result_wrapper_holds_the_answer() {
    let pd = PluginResultWrapper {
        plugin: "janus.plugin.videoroom".to_string(),
        data: s("x"),
    };
    assert_eq!(pd.plugin.as_str(), "janus.plugin.videoroom");
}
