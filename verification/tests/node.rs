use gossip_node::body::Body;
use gossip_node::message::Message;
use gossip_node::node::Node;
use gossip_node::outbound::SendFailed;
use gossip_node::payload::Payload;
use std::collections::HashSet;

#[test]
fn node_it_makes_an_echo_ok_resp() {
    let (tx, rx) = std::sync::mpsc::channel();
    let mut node = Node {
        node_id: String::from("n1"),
        tx: Some(tx),
        ..Default::default()
    };
    let body = Body::new(
        Some(0),
        None,
        Payload::Echo {
            echo: "Please echo 35".to_owned(),
        },
    );
    let req = Message::new("c1", "n1", &body);
    let res = Message::new(
        "n1",
        "c1",
        &Body {
            in_reply_to: body.msg_id,
            payload: Payload::EchoOk {
                echo: "Please echo 35".to_owned(),
            },
            ..body
        },
    );

    let result = node.handle_message(req);

    assert!(result.is_ok());
    assert_eq!(res, rx.recv().unwrap());
}

#[test]
fn node_it_makes_an_init_ok_resp() {
    let (tx, rx) = std::sync::mpsc::channel();
    let mut node = Node {
        node_id: String::from("n1"),
        tx: Some(tx),
        ..Default::default()
    };
    let body = Body::new(
        Some(0),
        None,
        Payload::Init {
            node_id: "n3".to_string(),
            node_ids: vec!["n1".to_string(), "n2".to_string(), "n3".to_string()],
        },
    );
    let req = Message::new("c1", "n1", &body);
    let res = Message::new(
        "n1",
        "c1",
        &Body {
            in_reply_to: body.msg_id,
            payload: Payload::InitOk {},
            ..body
        },
    );

    let result = node.handle_message(req);

    assert!(result.is_ok());
    assert_eq!(res, rx.recv().unwrap());
}

#[test]
fn node_it_should_generate_differents_id() {
    let (tx, rx) = std::sync::mpsc::channel();
    let mut node = Node {
        node_id: String::from("n1"),
        tx: Some(tx),
        ..Default::default()
    };
    let body = Body {
        payload: Payload::Generate {},
        ..Default::default()
    };

    let req = Message::new("c1", "n1", &body);
    let ids = Vec::from_iter((0..5).map(|n| format!("n1-{}", n)));

    let mut result: Vec<String> = Vec::new();

    for _i in 0..5 {
        let msg = Message { ..req.clone() };
        let _ = node.handle_message(msg);
        if let Ok(msg) = rx.recv() {
            if let Payload::GenerateOk { id } = msg.body.payload {
                result.push(id)
            }
        }
    }

    assert_eq!(ids, result);
}

#[test]
fn node_it_should_return_a_broadcast_ok_message() {
    let body = Body {
        payload: Payload::Broadcast { message: 1000 },
        ..Default::default()
    };

    let req = Message::new("c1", "n1", &body);

    let (tx, rx) = std::sync::mpsc::channel();
    let mut node = Node {
        node_id: String::from("n1"),
        tx: Some(tx),
        ..Default::default()
    };

    let _ = node.handle_message(req);

    let result = rx.recv().unwrap();

    assert_eq!(result.body.payload, Payload::BroadcastOk);
}

#[test]
fn node_it_should_return_a_correct_read_ok_message() {
    let msgs = HashSet::from_iter([0, 25, 50, 75, 100]);
    let broadcast_messages = msgs.iter().map(|i| {
        Message::new(
            "c1",
            "n1",
            &Body {
                payload: Payload::Broadcast {
                    message: msgs.get(i).unwrap().to_owned(),
                },
                ..Default::default()
            },
        )
    });

    let (tx, rx) = std::sync::mpsc::channel();
    let mut node = Node {
        node_id: String::from("n1"),
        tx: Some(tx),
        ..Default::default()
    };

    broadcast_messages.for_each(|msg| {
        let _ = node.handle_message(msg);
        rx.recv().unwrap();
    });

    assert_eq!(node.messages, msgs);

    let read_msg = Message::new(
        "c1",
        "n1",
        &Body {
            payload: Payload::Read,
            ..Default::default()
        },
    );

    let result = node.handle_message(read_msg.clone());
    let read_ok_msg = rx.recv().unwrap();

    assert!(result.is_ok());
    assert_eq!(
        core::any::Any::type_id(&read_ok_msg.body.payload),
        core::any::Any::type_id(&Payload::ReadOk {
            messages: HashSet::new()
        })
    );
    assert_eq!(read_ok_msg.body.payload, Payload::ReadOk { messages: msgs });
}

fn named(id: &str, peers: &[&str]) -> Node {
    Node {
        node_id: id.to_string(),
        gossip_nodes: peers.iter().map(|p| p.to_string()).collect(),
        ..Default::default()
    }
}

fn ask(msg_id: usize, payload: Payload) -> Message<Payload> {
    Message::new("c1", "n1", &Body::new(Some(msg_id), None, payload))
}

#[test]
fn broadcast_answers_first_and_then_forwards_to_every_peer() {
    let mut node = named("n1", &["n2", "n3"]);
    node.id = 4;
    let out = node
        .make_responses(ask(11, Payload::Broadcast { message: 7 }))
        .unwrap();
    assert_eq!(
        out,
        vec![
            Message::new("n1", "c1", &Body::new(Some(4), Some(11), Payload::BroadcastOk)),
            Message::new("n1", "n2", &Body::new(None, None, Payload::Gossip { message: 7 })),
            Message::new("n1", "n3", &Body::new(None, None, Payload::Gossip { message: 7 })),
        ]
    );
    assert_eq!(node.messages, HashSet::from_iter([7]));
    assert_eq!(node.id, 4);
}

#[test]
fn gossip_and_acknowledgements_call_for_no_response() {
    let mut node = named("n1", &["n2"]);
    assert!(node
        .make_responses(ask(1, Payload::Gossip { message: 3 }))
        .is_none());
    assert_eq!(node.messages, HashSet::from_iter([3]));
    for payload in [
        Payload::EchoOk {
            echo: "e".to_string(),
        },
        Payload::InitOk,
        Payload::GenerateOk {
            id: "n2-1".to_string(),
        },
        Payload::TopologyOk,
        Payload::BroadcastOk,
        Payload::ReadOk {
            messages: HashSet::from_iter([9]),
        },
        Payload::GossipOk,
    ] {
        assert!(node.make_responses(ask(2, payload)).is_none());
    }
    assert_eq!(node.messages, HashSet::from_iter([3]));
    assert_eq!(node.gossip_nodes, vec!["n2".to_string()]);
    // Nothing to send, so no queue is needed.
    assert_eq!(node.handle_message(ask(3, Payload::GossipOk)), Ok(()));
}

#[test]
fn init_names_the_node_and_drops_it_from_its_peers() {
    let mut node = Node::default();
    let out = node
        .make_responses(ask(
            1,
            Payload::Init {
                node_id: "n2".to_string(),
                node_ids: vec!["n1".to_string(), "n2".to_string(), "n3".to_string()],
            },
        ))
        .unwrap();
    assert_eq!(node.node_id, "n2");
    assert_eq!(node.gossip_nodes, vec!["n1".to_string(), "n3".to_string()]);
    assert_eq!(
        out,
        vec![Message::new("n1", "c1", &Body::new(Some(0), Some(1), Payload::InitOk))]
    );
}

#[test]
fn topology_is_stored_and_narrows_the_peers() {
    let mut node = named("n1", &["n2", "n3", "n4"]);
    let topology = vec![
        ("n2".to_string(), vec!["n1".to_string()]),
        ("n1".to_string(), vec!["n3".to_string(), "n1".to_string()]),
    ];
    let out = node
        .make_responses(ask(
            5,
            Payload::Topology {
                topology: topology.clone(),
            },
        ))
        .unwrap();
    assert_eq!(node.gossip_nodes, vec!["n3".to_string()]);
    assert_eq!(node.topology, topology);
    assert_eq!(
        out,
        vec![Message::new("n1", "c1", &Body::new(Some(0), Some(5), Payload::TopologyOk))]
    );

    // A topology that does not list the node leaves its peers alone.
    let other = vec![("n9".to_string(), vec!["n8".to_string()])];
    node.make_responses(ask(6, Payload::Topology { topology: other }))
        .unwrap();
    assert_eq!(node.gossip_nodes, vec!["n3".to_string()]);
}

#[test]
fn only_generate_advances_the_counter() {
    let mut node = named("n1", &[]);
    node.make_responses(ask(
        1,
        Payload::Echo {
            echo: "a".to_string(),
        },
    ));
    node.make_responses(ask(2, Payload::Read));
    assert_eq!(node.id, 0);
    let out = node.make_responses(ask(3, Payload::Generate)).unwrap();
    assert_eq!(node.id, 1);
    assert_eq!(
        out,
        vec![Message::new(
            "n1",
            "c1",
            &Body::new(
                Some(0),
                Some(3),
                Payload::GenerateOk {
                    id: "n1-0".to_string()
                }
            )
        )]
    );
}

#[test]
fn a_closed_queue_fails_the_request_but_not_the_state() {
    let (tx, rx) = std::sync::mpsc::channel();
    drop(rx);
    let mut node = named("n1", &[]);
    node.tx = Some(tx);
    let result = node.handle_message(ask(1, Payload::Broadcast { message: 5 }));
    assert_eq!(result, Err(SendFailed));
    assert_eq!(node.messages, HashSet::from_iter([5]));
}

#[test]
fn to_reply_swaps_the_ends_and_correlates() {
    let req = ask(17, Payload::Read);
    let reply = req.to_reply();
    assert_eq!(
        reply,
        Message::new("n1", "c1", &Body::new(None, Some(17), Payload::InitOk))
    );
    let reply = reply.with_id(3).with_payload(Payload::BroadcastOk);
    assert_eq!(
        reply,
        Message::new("n1", "c1", &Body::new(Some(3), Some(17), Payload::BroadcastOk))
    );
}
