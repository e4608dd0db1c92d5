use gossip_node::codec::{DecodeError, Json};
use gossip_node::model::wire;
use gossip_node::model::{Body, Message, MessageType, Node, ReplyError, Request, Response};
use serde_json::Value;
use std::collections::HashSet;
use std::sync::mpsc::{channel, Receiver};

fn request(msg_id: u32, request: Request) -> Message {
    Message::new(
        "c1",
        "n1",
        Body::new(MessageType::Request(request), Some(msg_id), None),
    )
}

fn response(msg_id: u32, response: Response) -> Message {
    Message::new(
        "n1",
        "c1",
        Body::new(MessageType::Response(response), Some(msg_id), Some(msg_id)),
    )
}

fn node_n1() -> (Node, Receiver<Message>) {
    let (tx, rx) = channel();
    let mut node = Node::new(tx);
    node.set_node_id("n1");
    (node, rx)
}

fn generate_response(req: Message) -> Message {
    let (mut node, rx) = node_n1();
    node.reply(req).unwrap();
    rx.recv().expect("Expect to have response from node")
}

fn names(list: &[&str]) -> Vec<String> {
    list.iter().map(|n| n.to_string()).collect()
}

fn document(value: &Value) -> Json {
    match value {
        Value::Null => Json::Null,
        Value::Bool(_) => Json::Other,
        Value::Number(n) => match n.as_u64() {
            Some(n) => Json::Number(n),
            None => Json::Other,
        },
        Value::String(text) => Json::Text(text.clone()),
        Value::Array(items) => Json::List(items.iter().map(document).collect()),
        Value::Object(members) => Json::Object(
            members
                .iter()
                .map(|(name, value)| (name.clone(), document(value)))
                .collect(),
        ),
    }
}

fn value(doc: &Json) -> Value {
    match doc {
        Json::Null | Json::Other => Value::Null,
        Json::Number(n) => Value::from(*n),
        Json::Text(text) => Value::String(text.clone()),
        Json::List(items) => Value::Array(items.iter().map(value).collect()),
        Json::Object(members) => Value::Object(
            members
                .iter()
                .map(|(name, item)| (name.clone(), value(item)))
                .collect(),
        ),
    }
}

fn from_str(line: &str) -> Result<Message, DecodeError> {
    let parsed: Value = serde_json::from_str(line).expect("the line is JSON");
    wire::decode_value(&document(&parsed))
}

fn to_string(msg: &Message) -> String {
    value(&wire::encode_value(msg)).to_string()
}

fn generate_json_response(req: &str) -> String {
    let (tx, rx) = channel();
    let mut node = Node::new(tx);
    node.set_node_id("n1");
    let req = from_str(req).unwrap();
    node.reply(req).unwrap();
    let resp = rx.recv().expect("Expect to have response from node");

    to_string(&resp)
}

#[test]
fn init_msg() {
    let init_msg = r#"{"body":{"type":"init","msg_id":1,"node_id":"n3","node_ids":["n1","n2","n3"]},"dest":"n1","src":"c1"}"#;
    let init_ok_msg =
        r#"{"src":"n1","dest":"c1","body":{"type":"init_ok","msg_id":1,"in_reply_to":1}}"#;
    let resp = generate_json_response(init_msg);
    assert_eq!(init_ok_msg, resp);
}

#[test]
fn echo_msg() {
    let echo_msg =
        r#"{"body":{"type":"echo","msg_id":1,"echo":"Please echo 35"},"dest":"n1","src":"c1"}"#;
    let echo_ok_msg = r#"{"src":"n1","dest":"c1","body":{"type":"echo_ok","echo":"Please echo 35","msg_id":1,"in_reply_to":1}}"#;
    let resp = generate_json_response(echo_msg);
    assert_eq!(echo_ok_msg, resp);
}

#[test]
fn generate_msg() {
    let generate_msg = r#"{"body":{"type":"generate","msg_id":1},"dest":"n1","src":"c1"}"#;
    let generate_ok_msg = r#"{"src":"n1","dest":"c1","body":{"type":"generate_ok","id":"n1-1","msg_id":1,"in_reply_to":1}}"#;
    let resp = generate_json_response(generate_msg);
    assert_eq!(generate_ok_msg, resp);
}

#[test]
fn broadcast_msg() {
    let req = r#"{"src":"c1","dest":"n1","body":{"type":"broadcast","message":1,"msg_id":1}}"#;
    let ok_resp =
        r#"{"src":"n1","dest":"c1","body":{"type":"broadcast_ok","msg_id":1,"in_reply_to":1}}"#;

    let resp = generate_json_response(req);

    assert_eq!(ok_resp, resp);
}

#[test]
fn read_msg() {
    let req = r#"{"src":"c1","dest":"n1","body":{"type":"read","msg_id":1}}"#;
    let ok_resp = r#"{"src":"n1","dest":"c1","body":{"type":"read_ok","messages":[],"msg_id":1,"in_reply_to":1}}"#;

    let resp = generate_json_response(req);

    assert_eq!(ok_resp, resp);
}

fn star() -> Vec<(String, Vec<String>)> {
    vec![
        ("n1".to_string(), names(&["n2", "n3"])),
        ("n2".to_string(), names(&["n1"])),
        ("n3".to_string(), names(&["n1"])),
    ]
}

#[test]
fn topology_msg() {
    let req = r#"{"src":"c1","dest":"n1","body":{"type":"topology","topology":{"n1":["n2","n3"],"n2":["n1"],"n3":["n1"]},"msg_id":1}}"#;
    let ok_resp =
        r#"{"src":"n1","dest":"c1","body":{"type":"topology_ok","msg_id":1,"in_reply_to":1}}"#;

    let (tx, rx) = channel();
    let mut node = Node::new(tx);
    node.set_node_id("n1");

    let req = from_str(req).unwrap();
    node.reply(req).unwrap();
    let resp = rx.recv().expect("Expecto to have response from node");
    let resp = to_string(&resp);

    assert_eq!(ok_resp, resp);
    assert_eq!(
        node.topology().iter().cloned().collect::<Vec<String>>(),
        ["n2", "n3"].to_vec()
    );
}

#[test]
fn the_same_requests_built_by_hand() {
    assert_eq!(
        generate_response(request(
            1,
            Request::Init {
                node_id: "n3".to_string(),
                node_ids: names(&["n1", "n2", "n3"]),
            },
        )),
        response(1, Response::InitOk)
    );
    assert_eq!(
        generate_response(request(1, Request::Generate)),
        response(
            1,
            Response::GenerateOk {
                id: "n1-1".to_string()
            }
        )
    );
    assert_eq!(
        generate_response(request(1, Request::Read)),
        response(1, Response::ReadOk { messages: vec![] })
    );
}

#[test]
fn every_kind_survives_the_wire() {
    let kinds = vec![
        MessageType::Request(Request::Echo {
            echo: "a \"b\"".to_string(),
        }),
        MessageType::Request(Request::Init {
            node_id: "n1".to_string(),
            node_ids: names(&["n1", "n2"]),
        }),
        MessageType::Request(Request::Generate),
        MessageType::Request(Request::Topology { topology: star() }),
        MessageType::Request(Request::Read),
        MessageType::Request(Request::Broadcast { message: 1000 }),
        MessageType::Request(Request::Gossip {
            message: HashSet::from_iter([1, 2, 3]),
        }),
        MessageType::Request(Request::Gossip {
            message: HashSet::new(),
        }),
        MessageType::Response(Response::EchoOk {
            echo: String::new(),
        }),
        MessageType::Response(Response::InitOk),
        MessageType::Response(Response::GenerateOk {
            id: "n1-1".to_string(),
        }),
        MessageType::Response(Response::TopologyOk),
        MessageType::Response(Response::ReadOk {
            messages: vec![3, 1, 2],
        }),
        MessageType::Response(Response::BroadcastOk),
        MessageType::Error {
            code: 12,
            text: "Unexpected request".to_string(),
        },
    ];
    for (k, kind) in kinds.into_iter().enumerate() {
        let msg_id = if k % 2 == 0 { Some(k as u32) } else { None };
        let in_reply_to = if k % 3 == 0 { Some(u32::MAX) } else { None };
        let msg = Message::new("n1", "n2", Body::new(kind, msg_id, in_reply_to));
        assert_eq!(wire::decode_value(&wire::encode_value(&msg)), Ok(msg.clone()));
        assert_eq!(from_str(&to_string(&msg)), Ok(msg));
    }
}

#[test]
fn gossip_and_errors_on_the_wire() {
    let gossip = Message::new(
        "n1",
        "n2",
        Body::new(
            MessageType::Request(Request::Gossip {
                message: HashSet::from_iter([7]),
            }),
            None,
            None,
        ),
    );
    assert_eq!(
        to_string(&gossip),
        r#"{"src":"n1","dest":"n2","body":{"type":"gossip","message":[7]}}"#
    );
    let failure = Message::new(
        "n1",
        "c1",
        Body::new(
            MessageType::Error {
                code: 12,
                text: "Unexpected request".to_string(),
            },
            Some(2),
            Some(2),
        ),
    );
    assert_eq!(
        to_string(&failure),
        r#"{"src":"n1","dest":"c1","body":{"code":12,"text":"Unexpected request","msg_id":2,"in_reply_to":2}}"#
    );
}

#[test]
fn lines_that_are_no_message_of_the_full_node() {
    assert_eq!(
        from_str(r#"{"src":"c1","dest":"n1","body":{"type":"bogus","msg_id":1}}"#),
        Err(DecodeError::UnknownType)
    );
    assert_eq!(
        from_str(r#"{"src":"c1","dest":"n1","body":{"type":"gossip_ok"}}"#),
        Err(DecodeError::UnknownType)
    );
    assert_eq!(
        from_str(r#"{"src":"c1","dest":"n1","body":{"msg_id":1}}"#),
        Err(DecodeError::MissingField)
    );
    assert_eq!(
        from_str(r#"{"src":"c1","dest":"n1","body":{"type":3,"code":"x","text":"t"}}"#),
        Err(DecodeError::Mistyped)
    );
    assert_eq!(
        from_str(r#"{"src":"c1","dest":"n1","body":{"type":"echo"}}"#),
        Err(DecodeError::MissingField)
    );
    assert_eq!(
        from_str(r#"{"src":"c1","dest":"n1","body":{"type":"gossip","message":7}}"#),
        Err(DecodeError::Mistyped)
    );
    assert_eq!(
        from_str(r#"{"src":"c1","dest":"n1","body":{"type":"read","msg_id":4294967296}}"#),
        Err(DecodeError::Mistyped)
    );
    assert_eq!(
        from_str(r#"{"src":"c1","dest":"n1","body":"read"}"#),
        Err(DecodeError::Malformed)
    );
    assert_eq!(from_str("7"), Err(DecodeError::Malformed));
    // A body without a tag that holds a code and a text is an error report.
    assert_eq!(
        from_str(r#"{"src":"n2","dest":"n1","body":{"code":13,"text":"crash","in_reply_to":5}}"#),
        Ok(Message::new(
            "n2",
            "n1",
            Body::new(
                MessageType::Error {
                    code: 13,
                    text: "crash".to_string()
                },
                None,
                Some(5)
            )
        ))
    );
}

#[test]
fn topology_scopes_the_neighbors() {
    let (mut node, rx) = node_n1();
    node.reply(request(
        1,
        Request::Init {
            node_id: "n1".to_string(),
            node_ids: names(&["n1", "n2", "n3", "n4"]),
        },
    ))
    .unwrap();
    assert_eq!(node.neighbors(), &names(&["n2", "n3", "n4"]));
    node.reply(request(2, Request::Topology { topology: star() }))
        .unwrap();
    assert_eq!(node.neighbors(), &names(&["n2", "n3"]));
    assert_eq!(rx.try_iter().count(), 2);

    // A topology that does not list the node changes nothing.
    let elsewhere = vec![("n7".to_string(), names(&["n8"]))];
    node.reply(request(3, Request::Topology { topology: elsewhere }))
        .unwrap();
    assert_eq!(node.neighbors(), &names(&["n2", "n3"]));
    assert_eq!(node.topology(), &names(&["n2", "n3"]));
}

#[test]
fn init_makes_every_other_node_a_neighbor_once() {
    let (mut node, _rx) = node_n1();
    node.reply(request(
        1,
        Request::Init {
            node_id: "n2".to_string(),
            node_ids: names(&["n3", "n2", "n1", "n3", "n2"]),
        },
    ))
    .unwrap();
    assert_eq!(node.node_id(), "n2");
    assert_eq!(node.neighbors(), &names(&["n3", "n1"]));
}

#[test]
fn consecutive_generates_count_up_from_one() {
    let (mut node, rx) = node_n1();
    let mut ids = Vec::new();
    for k in 0..12u32 {
        node.reply(request(k, Request::Generate)).unwrap();
        let resp = rx.recv().unwrap();
        assert_eq!(resp.body().msg_id(), Some(k));
        assert_eq!(resp.body().in_reply_to, Some(k));
        match resp.body()._type() {
            MessageType::Response(Response::GenerateOk { id }) => ids.push(id.clone()),
            other => panic!("unexpected payload {:?}", other),
        }
    }
    let expected: Vec<String> = (1..=12).map(|n| format!("n1-{}", n)).collect();
    assert_eq!(ids, expected);
}

#[test]
fn only_generate_advances_the_model_counter() {
    let (mut node, rx) = node_n1();
    node.reply(request(
        1,
        Request::Echo {
            echo: "a".to_string(),
        },
    ))
    .unwrap();
    node.reply(request(2, Request::Read)).unwrap();
    node.reply(request(3, Request::Broadcast { message: 1 }))
        .unwrap();
    assert_eq!(node.generate_id(), "n1-0");
    node.increment_id();
    assert_eq!(node.generate_id(), "n1-1");
    assert_eq!(rx.try_iter().count(), 3);
}

#[test]
fn broadcast_is_visible_to_a_later_read() {
    let (mut node, rx) = node_n1();
    node.reply(request(1, Request::Broadcast { message: 1000 }))
        .unwrap();
    assert_eq!(rx.recv().unwrap(), response(1, Response::BroadcastOk));
    node.reply(request(2, Request::Read)).unwrap();
    assert_eq!(
        rx.recv().unwrap(),
        response(
            2,
            Response::ReadOk {
                messages: vec![1000]
            }
        )
    );
    assert!(rx.try_recv().is_err());
}

#[test]
fn broadcast_answers_and_gossips_the_known_set() {
    let (mut node, rx) = node_n1();
    node.set_neighbors(&names(&["n2"]));
    node.messages_buffer_mut().insert(3);
    node.reply(request(1, Request::Broadcast { message: 7 }))
        .unwrap();
    let sent: Vec<Message> = rx.try_iter().collect();
    assert_eq!(
        sent,
        vec![
            response(1, Response::BroadcastOk),
            Message::new(
                "n1",
                "n2",
                Body::new(
                    MessageType::Request(Request::Gossip {
                        message: HashSet::from_iter([3, 7])
                    }),
                    None,
                    None
                )
            ),
        ]
    );
}

#[test]
fn step_returns_what_reply_would_send() {
    let (mut node, rx) = node_n1();
    node.set_neighbors(&names(&["n2", "n3"]));
    let out = node
        .step(request(4, Request::Broadcast { message: 5 }))
        .unwrap();
    assert_eq!(out.len(), 3);
    assert_eq!(out[0], response(4, Response::BroadcastOk));
    assert_eq!(out[1].dest(), "n2");
    assert_eq!(out[2].dest(), "n3");
    assert_eq!(out[2].src(), "n1");
    assert!(rx.try_recv().is_err());
}

#[test]
fn gossip_merges_and_goes_unanswered() {
    let (mut node, rx) = node_n1();
    node.messages_buffer_mut().insert(1);
    let gossip = |values: &[usize]| {
        Message::new(
            "n2",
            "n1",
            Body::new(
                MessageType::Request(Request::Gossip {
                    message: values.iter().copied().collect(),
                }),
                None,
                None,
            ),
        )
    };
    assert_eq!(node.reply(gossip(&[2, 3])), Ok(()));
    assert_eq!(node.reply(gossip(&[3, 2])), Ok(()));
    assert_eq!(node.reply(gossip(&[])), Ok(()));
    assert_eq!(node.reply(gossip(&[1, 2, 3])), Ok(()));
    assert!(rx.try_recv().is_err());
    assert_eq!(*node.messages_buffer_mut(), HashSet::from_iter([1, 2, 3]));
}

#[test]
fn deliveries_in_any_order_and_number_give_the_same_set() {
    let deliver = |values: &[usize]| {
        let (mut node, _rx) = node_n1();
        for (k, v) in values.iter().enumerate() {
            if k % 2 == 0 {
                node.reply(request(k as u32, Request::Broadcast { message: *v }))
                    .unwrap();
            } else {
                node.reply(Message::new(
                    "n2",
                    "n1",
                    Body::new(
                        MessageType::Request(Request::Gossip {
                            message: HashSet::from_iter([*v]),
                        }),
                        None,
                        None,
                    ),
                ))
                .unwrap();
            }
        }
        let known = node.messages_buffer_mut().clone();
        known
    };
    let once = deliver(&[1, 2, 3]);
    assert_eq!(once, HashSet::from_iter([1, 2, 3]));
    assert_eq!(deliver(&[3, 1, 2]), once);
    assert_eq!(deliver(&[2, 2, 1, 3, 3, 3, 1]), once);
}

#[test]
fn a_response_is_ignored() {
    let (mut node, rx) = node_n1();
    let stray = Message::new(
        "n2",
        "n1",
        Body::new(MessageType::Response(Response::BroadcastOk), Some(1), Some(1)),
    );
    assert_eq!(node.reply(stray), Ok(()));
    assert!(rx.try_recv().is_err());
    assert_eq!(node.generate_id(), "n1-0");
}

#[test]
fn an_error_message_is_refused() {
    let (mut node, rx) = node_n1();
    let failure = Message::new(
        "n2",
        "n1",
        Body::new(
            MessageType::Error {
                code: 13,
                text: "crash".to_string(),
            },
            None,
            Some(1),
        ),
    );
    assert_eq!(node.reply(failure), Err(ReplyError::Failure));
    assert!(rx.try_recv().is_err());
}

#[test]
fn a_closed_queue_is_reported() {
    let (tx, rx) = channel();
    drop(rx);
    let mut node = Node::new(tx);
    node.set_node_id("n1");
    assert_eq!(
        node.reply(request(1, Request::Broadcast { message: 9 })),
        Err(ReplyError::SendFailed)
    );
    assert_eq!(*node.messages_buffer_mut(), HashSet::from_iter([9]));
}

#[test]
fn make_response_reads_the_node_without_changing_it() {
    let (mut node, _rx) = node_n1();
    node.messages_buffer_mut().extend([4, 5]);
    let resp = request(6, Request::Read).make_response(&mut node);
    assert_eq!(resp.src(), "n1");
    assert_eq!(resp.dest(), "c1");
    match resp.body()._type() {
        MessageType::Response(Response::ReadOk { messages }) => {
            let mut listed = messages.clone();
            listed.sort();
            assert_eq!(listed, vec![4, 5]);
        }
        other => panic!("unexpected payload {:?}", other),
    }
    assert_eq!(*node.messages_buffer_mut(), HashSet::from_iter([4, 5]));
}

#[test]
fn make_response_answers_gossip_and_responses_with_an_error() {
    let (mut node, _rx) = node_n1();
    let gossip = request(
        2,
        Request::Gossip {
            message: HashSet::new(),
        },
    );
    assert_eq!(
        gossip.make_response(&mut node),
        Message::new(
            "n1",
            "c1",
            Body::new(
                MessageType::Error {
                    code: 12,
                    text: "Unexpected request".to_string()
                },
                Some(2),
                Some(2)
            )
        )
    );
    let stray = Message::new(
        "n2",
        "n1",
        Body::new(MessageType::Response(Response::InitOk), Some(3), None),
    );
    assert_eq!(
        stray.make_response(&mut node),
        Message::new(
            "n1",
            "n2",
            Body::new(
                MessageType::Error {
                    code: 12,
                    text: "InitOk is a response not a request!".to_string()
                },
                Some(3),
                Some(3)
            )
        )
    );
}

#[test]
fn setters_and_getters_agree() {
    let (mut node, _rx) = node_n1();
    node.set_topology(&names(&["n2", "n3", "n2"]));
    node.set_topology(&names(&["n3", "n4"]));
    assert_eq!(node.topology(), &names(&["n2", "n3", "n4"]));
    node.topology_mut().clear();
    assert!(node.topology().is_empty());
    node.set_neighbors(&names(&["n5", "n5"]));
    assert_eq!(node.neighbors(), &names(&["n5"]));
    node.neighbors_mut().push("n6".to_string());
    assert_eq!(node.neighbors(), &names(&["n5", "n6"]));

    let mut msg = request(1, Request::Read);
    msg.set_src("c9");
    msg.set_dest("n9");
    assert_eq!(msg.src(), "c9");
    assert_eq!(msg.dest(), "n9");
    assert_eq!(msg.body().msg_id(), Some(1));
    assert_eq!(msg.body()._type(), &MessageType::Request(Request::Read));
}

#[test]
fn a_repeated_broadcast_is_acknowledged_again_and_changes_nothing() {
    let (mut node, rx) = node_n1();
    for k in 0..3u32 {
        node.reply(request(k, Request::Broadcast { message: 5 }))
            .unwrap();
        assert_eq!(rx.recv().unwrap(), response(k, Response::BroadcastOk));
    }
    assert_eq!(*node.messages_buffer_mut(), HashSet::from_iter([5]));
}

#[test]
fn a_node_that_was_never_named_still_answers() {
    let (tx, rx) = channel();
    let mut node = Node::new(tx);
    assert_eq!(node.node_id(), "");
    assert!(node.neighbors().is_empty());
    node.reply(request(1, Request::Generate)).unwrap();
    assert_eq!(
        rx.recv().unwrap(),
        response(
            1,
            Response::GenerateOk {
                id: "-1".to_string()
            }
        )
    );
    node.reply(request(2, Request::Broadcast { message: 8 }))
        .unwrap();
    assert_eq!(rx.try_iter().count(), 1);
    node.reply(request(3, Request::Topology { topology: star() }))
        .unwrap();
    assert!(node.neighbors().is_empty());
    assert!(node.topology().is_empty());
}

#[test]
fn a_message_without_an_id_is_answered_without_one() {
    let (mut node, rx) = node_n1();
    let req = Message::new(
        "c1",
        "n1",
        Body::new(MessageType::Request(Request::Read), None, None),
    );
    node.reply(req).unwrap();
    assert_eq!(
        rx.recv().unwrap(),
        Message::new(
            "n1",
            "c1",
            Body::new(
                MessageType::Response(Response::ReadOk { messages: vec![] }),
                None,
                None
            )
        )
    );
}
