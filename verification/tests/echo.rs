use gossip_node::body::Body;
use gossip_node::echo::node::Node;
use gossip_node::echo::payload::Payload;
use gossip_node::message::Message;

#[test]
fn it_makes_an_echo_ok_resp() {
    let body = Body::new(
        Some(1),
        None,
        Payload::Echo {
            echo: "Please echo 35".to_owned(),
        },
    );
    let req = Message::new("c1", "n1", &body);
    let res = Message::new(
        "n1",
        "c1",
        &Body {
            in_reply_to: body.msg_id,
            payload: Payload::EchoOk {
                echo: "Please echo 35".to_owned(),
            },
            ..body
        },
    );

    let node = Node;

    assert_eq!(res, node.reply(req));
}

#[test]
fn it_makes_an_init_ok_resp() {
    let body = Body::new(
        Some(1),
        None,
        Payload::Init {
            node_id: "n3".to_string(),
            node_ids: vec!["n1".to_string(), "n2".to_string(), "n3".to_string()],
        },
    );
    let req = Message::new("c1", "n1", &body);
    let res = Message::new(
        "n1",
        "c1",
        &Body {
            in_reply_to: body.msg_id,
            payload: Payload::InitOk {},
            ..body
        },
    );

    let node = Node;

    assert_eq!(res, node.reply(req));
}

#[test]
fn it_works() {
    let message = gossip_node::echo::Message::new(
        "c1",
        "n1",
        &gossip_node::echo::Body::new(
            Some(1),
            None,
            gossip_node::echo::Payload::Echo {
                echo: "Please echo 35".to_owned(),
            },
        ),
    );
    let res = gossip_node::echo::Message::new(
        "n1",
        "c1",
        &gossip_node::echo::Body::new(
            Some(1),
            Some(1),
            gossip_node::echo::Payload::EchoOk {
                echo: "Please echo 35".to_owned(),
            },
        ),
    );
    let reply = message.reply();
    assert_eq!(res, reply);
}

#[test]
fn an_echo_ok_is_answered_by_itself() {
    let message = gossip_node::echo::Message::new(
        "n2",
        "n1",
        &gossip_node::echo::Body::new(
            None,
            Some(4),
            gossip_node::echo::Payload::EchoOk {
                echo: "again".to_owned(),
            },
        ),
    );
    let reply = message.reply();
    assert_eq!(reply.src, "n1");
    assert_eq!(reply.dest, "n2");
    assert_eq!(reply.body.msg_id, None);
    assert_eq!(reply.body.in_reply_to, None);
    assert_eq!(
        reply.body.payload,
        gossip_node::echo::Payload::EchoOk {
            echo: "again".to_owned()
        }
    );
}

#[test]
fn stateless_responder_acknowledges_every_kind() {
    let node = Node;
    let ask = |payload: Payload| Message::new("c1", "n1", &Body::new(Some(9), None, payload));
    assert_eq!(
        node.reply(ask(Payload::Generate)).body.payload,
        Payload::GenerateOk { id: String::new() }
    );
    assert_eq!(
        node.reply(ask(Payload::GenerateOk {
            id: "n1-3".to_string()
        }))
        .body
        .payload,
        Payload::GenerateOk {
            id: "n1-3".to_string()
        }
    );
    assert_eq!(node.reply(ask(Payload::InitOk)).body.payload, Payload::InitOk);
    let echoed = node.reply(ask(Payload::EchoOk {
        echo: "x".to_string(),
    }));
    assert_eq!(
        echoed.body.payload,
        Payload::EchoOk {
            echo: "x".to_string()
        }
    );
    assert_eq!(echoed.body.msg_id, Some(9));
    assert_eq!(echoed.body.in_reply_to, Some(9));
}
