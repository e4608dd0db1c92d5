use gossip_node::body::Body;
use gossip_node::codec::{decode_value, encode_value, find, DecodeError, Json};
use gossip_node::message::Message;
use gossip_node::payload::Payload;
use serde_json::Value;
use std::collections::HashSet;

fn document(value: &Value) -> Json {
    match value {
        Value::Null => Json::Null,
        Value::Bool(_) => Json::Other,
        Value::Number(n) => match n.as_u64() {
            Some(n) => Json::Number(n),
            None => Json::Other,
        },
        Value::String(text) => Json::Text(text.clone()),
        Value::Array(items) => Json::List(items.iter().map(document).collect()),
        Value::Object(members) => Json::Object(
            members
                .iter()
                .map(|(name, value)| (name.clone(), document(value)))
                .collect(),
        ),
    }
}

fn value(doc: &Json) -> Value {
    match doc {
        Json::Null | Json::Other => Value::Null,
        Json::Number(n) => Value::from(*n),
        Json::Text(text) => Value::String(text.clone()),
        Json::List(items) => Value::Array(items.iter().map(value).collect()),
        Json::Object(members) => Value::Object(
            members
                .iter()
                .map(|(name, item)| (name.clone(), value(item)))
                .collect(),
        ),
    }
}

fn decode(line: &str) -> Result<Message<Payload>, DecodeError> {
    let parsed: Value = serde_json::from_str(line).expect("the line is JSON");
    decode_value(&document(&parsed))
}

fn encode(msg: &Message<Payload>) -> String {
    value(&encode_value(msg)).to_string()
}

fn names(list: &[&str]) -> Vec<String> {
    list.iter().map(|n| n.to_string()).collect()
}

fn samples() -> Vec<Message<Payload>> {
    let payloads = vec![
        Payload::Echo {
            echo: "Please echo 35".to_string(),
        },
        Payload::EchoOk {
            echo: "with \"quotes\" and \\ and \u{e9}".to_string(),
        },
        Payload::Init {
            node_id: "n1".to_string(),
            node_ids: names(&["n1", "n2", "n3"]),
        },
        Payload::Init {
            node_id: String::new(),
            node_ids: Vec::new(),
        },
        Payload::InitOk,
        Payload::Generate,
        Payload::GenerateOk {
            id: "n1-17".to_string(),
        },
        Payload::Topology {
            topology: vec![
                ("n1".to_string(), names(&["n2", "n3"])),
                ("n2".to_string(), names(&["n1"])),
                ("n3".to_string(), Vec::new()),
            ],
        },
        Payload::Topology {
            topology: Vec::new(),
        },
        Payload::TopologyOk,
        Payload::Broadcast { message: 1000 },
        Payload::Broadcast {
            message: usize::MAX,
        },
        Payload::BroadcastOk,
        Payload::Read,
        Payload::ReadOk {
            messages: HashSet::from_iter([0, 25, 50, 75, 100]),
        },
        Payload::ReadOk {
            messages: HashSet::new(),
        },
        Payload::Gossip { message: 7 },
        Payload::GossipOk,
    ];
    let mut out = Vec::new();
    for (k, payload) in payloads.into_iter().enumerate() {
        let msg_id = if k % 2 == 0 { Some(k) } else { None };
        let in_reply_to = if k % 3 == 0 { Some(k + 1) } else { None };
        out.push(Message::new(
            "c1",
            "n1",
            &Body::new(msg_id, in_reply_to, payload),
        ));
    }
    out
}

#[test]
fn decoding_what_was_encoded_gives_the_message_back() {
    for msg in samples() {
        assert_eq!(decode_value(&encode_value(&msg)), Ok(msg.clone()));
        assert_eq!(decode(&encode(&msg)), Ok(msg));
    }
}

#[test]
fn a_message_is_laid_out_as_the_wire_format_says() {
    let msg = Message::new(
        "n1",
        "c1",
        &Body::new(
            Some(1),
            Some(1),
            Payload::EchoOk {
                echo: "Please echo 35".to_string(),
            },
        ),
    );
    assert_eq!(
        encode(&msg),
        r#"{"src":"n1","dest":"c1","body":{"msg_id":1,"in_reply_to":1,"type":"echo_ok","echo":"Please echo 35"}}"#
    );
    let gossip = Message::new("n1", "n2", &Body::new(None, None, Payload::Gossip { message: 7 }));
    assert_eq!(
        encode(&gossip),
        r#"{"src":"n1","dest":"n2","body":{"type":"gossip","message":7}}"#
    );
    let init = Message::new(
        "c1",
        "n1",
        &Body::new(
            Some(0),
            None,
            Payload::Init {
                node_id: "n1".to_string(),
                node_ids: names(&["n1", "n2"]),
            },
        ),
    );
    assert_eq!(
        encode(&init),
        r#"{"src":"c1","dest":"n1","body":{"msg_id":0,"type":"init","node_id":"n1","node_ids":["n1","n2"]}}"#
    );
    let topology = Message::new(
        "c1",
        "n1",
        &Body::new(
            None,
            None,
            Payload::Topology {
                topology: vec![("n1".to_string(), names(&["n2"]))],
            },
        ),
    );
    assert_eq!(
        encode(&topology),
        r#"{"src":"c1","dest":"n1","body":{"type":"topology","topology":{"n1":["n2"]}}}"#
    );
}

#[test]
fn every_tag_is_read() {
    let line = |body: &str| format!(r#"{{"src":"c1","dest":"n1","body":{body}}}"#);
    let payload = |body: &str| decode(&line(body)).map(|msg| msg.body.payload);
    assert_eq!(
        payload(r#"{"type":"echo","msg_id":1,"echo":"hi"}"#),
        Ok(Payload::Echo {
            echo: "hi".to_string()
        })
    );
    assert_eq!(
        payload(r#"{"type":"echo_ok","echo":"hi"}"#),
        Ok(Payload::EchoOk {
            echo: "hi".to_string()
        })
    );
    assert_eq!(
        payload(r#"{"type":"init","msg_id":1,"node_id":"n3","node_ids":["n1","n2","n3"]}"#),
        Ok(Payload::Init {
            node_id: "n3".to_string(),
            node_ids: names(&["n1", "n2", "n3"])
        })
    );
    assert_eq!(payload(r#"{"type":"init_ok"}"#), Ok(Payload::InitOk));
    assert_eq!(payload(r#"{"type":"generate","msg_id":1}"#), Ok(Payload::Generate));
    assert_eq!(
        payload(r#"{"type":"generate_ok","id":"n1-1"}"#),
        Ok(Payload::GenerateOk {
            id: "n1-1".to_string()
        })
    );
    assert_eq!(
        payload(r#"{"type":"topology","topology":{"n1":["n2","n3"],"n2":["n1"],"n3":["n1"]},"msg_id":1}"#),
        Ok(Payload::Topology {
            topology: vec![
                ("n1".to_string(), names(&["n2", "n3"])),
                ("n2".to_string(), names(&["n1"])),
                ("n3".to_string(), names(&["n1"])),
            ]
        })
    );
    assert_eq!(payload(r#"{"type":"topology_ok"}"#), Ok(Payload::TopologyOk));
    assert_eq!(
        payload(r#"{"type":"broadcast","message":1,"msg_id":1}"#),
        Ok(Payload::Broadcast { message: 1 })
    );
    assert_eq!(payload(r#"{"type":"broadcast_ok"}"#), Ok(Payload::BroadcastOk));
    assert_eq!(payload(r#"{"type":"read","msg_id":1}"#), Ok(Payload::Read));
    assert_eq!(
        payload(r#"{"type":"read_ok","messages":[3,1,3]}"#),
        Ok(Payload::ReadOk {
            messages: HashSet::from_iter([1, 3])
        })
    );
    assert_eq!(
        payload(r#"{"type":"gossip","message":9}"#),
        Ok(Payload::Gossip { message: 9 })
    );
    assert_eq!(payload(r#"{"type":"gossip_ok"}"#), Ok(Payload::GossipOk));
}

#[test]
fn ids_may_be_left_out_or_null() {
    let msg = decode(r#"{"src":"c1","dest":"n1","body":{"type":"read","msg_id":null}}"#).unwrap();
    assert_eq!(msg.body.msg_id, None);
    assert_eq!(msg.body.in_reply_to, None);
    let msg =
        decode(r#"{"src":"c1","dest":"n1","body":{"in_reply_to":4,"type":"read","msg_id":3}}"#)
            .unwrap();
    assert_eq!(msg.src, "c1");
    assert_eq!(msg.dest, "n1");
    assert_eq!(msg.body.msg_id, Some(3));
    assert_eq!(msg.body.in_reply_to, Some(4));
}

#[test]
fn an_unknown_type_is_a_decode_error() {
    assert_eq!(
        decode(r#"{"src":"c1","dest":"n1","body":{"type":"bogus","msg_id":1}}"#),
        Err(DecodeError::UnknownType)
    );
    // The next line is read as if nothing had happened.
    assert!(decode(r#"{"src":"c1","dest":"n1","body":{"type":"read","msg_id":2}}"#).is_ok());
    assert_eq!(
        decode(r#"{"src":"c1","dest":"n1","body":{"type":"Echo","echo":"x"}}"#),
        Err(DecodeError::UnknownType)
    );
    assert_eq!(
        decode(r#"{"src":"c1","dest":"n1","body":{"type":"","msg_id":1}}"#),
        Err(DecodeError::UnknownType)
    );
}

#[test]
fn what_is_no_object_is_malformed() {
    assert_eq!(decode("[1,2]"), Err(DecodeError::Malformed));
    assert_eq!(decode("\"src\""), Err(DecodeError::Malformed));
    assert_eq!(decode("null"), Err(DecodeError::Malformed));
    assert_eq!(
        decode(r#"{"src":"c1","dest":"n1","body":[]}"#),
        Err(DecodeError::Malformed)
    );
    assert_eq!(decode_value(&Json::Other), Err(DecodeError::Malformed));
}

#[test]
fn an_absent_member_is_missing() {
    assert_eq!(decode("{}"), Err(DecodeError::MissingField));
    assert_eq!(
        decode(r#"{"dest":"n1","body":{"type":"read"}}"#),
        Err(DecodeError::MissingField)
    );
    assert_eq!(
        decode(r#"{"src":"c1","body":{"type":"read"}}"#),
        Err(DecodeError::MissingField)
    );
    assert_eq!(
        decode(r#"{"src":"c1","dest":"n1"}"#),
        Err(DecodeError::MissingField)
    );
    assert_eq!(
        decode(r#"{"src":"c1","dest":"n1","body":{"msg_id":1}}"#),
        Err(DecodeError::MissingField)
    );
    for body in [
        r#"{"type":"echo"}"#,
        r#"{"type":"echo_ok"}"#,
        r#"{"type":"init","node_ids":[]}"#,
        r#"{"type":"init","node_id":"n1"}"#,
        r#"{"type":"generate_ok"}"#,
        r#"{"type":"topology"}"#,
        r#"{"type":"broadcast"}"#,
        r#"{"type":"read_ok"}"#,
        r#"{"type":"gossip","messages":[1]}"#,
    ] {
        let line = format!(r#"{{"src":"c1","dest":"n1","body":{body}}}"#);
        assert_eq!(decode(&line), Err(DecodeError::MissingField), "{line}");
    }
}

#[test]
fn a_member_of_the_wrong_kind_is_mistyped() {
    for line in [
        r#"{"src":1,"dest":"n1","body":{"type":"read"}}"#,
        r#"{"src":"c1","dest":null,"body":{"type":"read"}}"#,
        r#"{"src":"c1","dest":"n1","body":{"type":7}}"#,
        r#"{"src":"c1","dest":"n1","body":{"type":"read","msg_id":"1"}}"#,
        r#"{"src":"c1","dest":"n1","body":{"type":"read","msg_id":-1}}"#,
        r#"{"src":"c1","dest":"n1","body":{"type":"read","in_reply_to":1.5}}"#,
        r#"{"src":"c1","dest":"n1","body":{"type":"read","in_reply_to":true}}"#,
        r#"{"src":"c1","dest":"n1","body":{"type":"echo","echo":3}}"#,
        r#"{"src":"c1","dest":"n1","body":{"type":"init","node_id":"n1","node_ids":"n2"}}"#,
        r#"{"src":"c1","dest":"n1","body":{"type":"init","node_id":"n1","node_ids":["n2",3]}}"#,
        r#"{"src":"c1","dest":"n1","body":{"type":"topology","topology":["n2"]}}"#,
        r#"{"src":"c1","dest":"n1","body":{"type":"topology","topology":{"n1":"n2"}}}"#,
        r#"{"src":"c1","dest":"n1","body":{"type":"topology","topology":{"n1":["n2"],"n2":[1]}}}"#,
        r#"{"src":"c1","dest":"n1","body":{"type":"broadcast","message":"1"}}"#,
        r#"{"src":"c1","dest":"n1","body":{"type":"broadcast","message":null}}"#,
        r#"{"src":"c1","dest":"n1","body":{"type":"read_ok","messages":[1,"2"]}}"#,
        r#"{"src":"c1","dest":"n1","body":{"type":"read_ok","messages":{}}}"#,
        r#"{"src":"c1","dest":"n1","body":{"type":"gossip","message":[1]}}"#,
    ] {
        assert_eq!(decode(line), Err(DecodeError::Mistyped), "{line}");
    }
}

#[test]
fn the_first_failure_is_reported() {
    // The sender is read before the body, an id before the tag.
    assert_eq!(
        decode(r#"{"src":1,"dest":"n1","body":{"type":"bogus"}}"#),
        Err(DecodeError::Mistyped)
    );
    assert_eq!(
        decode(r#"{"src":"c1","dest":"n1","body":{"type":"bogus","msg_id":"x"}}"#),
        Err(DecodeError::Mistyped)
    );
    assert_eq!(
        decode(r#"{"dest":"n1","body":7}"#),
        Err(DecodeError::MissingField)
    );
}

#[test]
fn find_takes_the_first_member_of_a_name() {
    let members = vec![
        ("a".to_string(), Json::Number(1)),
        ("b".to_string(), Json::Null),
        ("a".to_string(), Json::Number(2)),
    ];
    assert_eq!(find(&members, "a"), Some(&Json::Number(1)));
    assert_eq!(find(&members, "b"), Some(&Json::Null));
    assert_eq!(find(&members, "c"), None);
    assert_eq!(find(&Vec::new(), "a"), None);
}
