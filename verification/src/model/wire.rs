//! The wire format of the full node. A body holds the tag `type` and the
//! fields of its kind, then the ids it has. An error has no tag: it holds
//! `code` and `text`.

use super::body::{Body, BodyView};
use super::message::{Message, MessageView};
use super::message_type::{
    MessageType, MessageTypeView, Request, RequestView, Response, ResponseView,
};
use crate::codec::{
    as_links, as_number, as_number_set, as_text, as_texts, encode_links, encode_numbers,
    encode_texts, entry, find, lemma_member_push, lemma_names, member, numbers, outcome,
    read_links, read_number, read_number_set, read_text, read_texts, tag_is, unref, DecodeError,
    Json,
};
use vstd::prelude::*;
use vstd::string::StringExecFns;

verus! {

/// A member that must be a number of at most 64 bits.
pub open spec fn as_code(value: Option<Json>) -> Result<u64, DecodeError> {
    match value {
        None => Err(DecodeError::MissingField),
        Some(Json::Number(n)) => Ok(n),
        Some(_) => Err(DecodeError::Mistyped),
    }
}

/// An id: a member that may be absent or null, and else must be a number of
/// at most 32 bits.
pub open spec fn as_id(value: Option<Json>) -> Result<Option<u32>, DecodeError> {
    match value {
        None => Ok(None),
        Some(Json::Null) => Ok(None),
        Some(Json::Number(n)) => if n <= u32::MAX {
            Ok(Some(n as u32))
        } else {
            Err(DecodeError::Mistyped)
        },
        Some(_) => Err(DecodeError::Mistyped),
    }
}

/// A member that must be a list of numbers, in its order.
pub open spec fn as_numbers(value: Option<Json>) -> Result<Seq<usize>, DecodeError> {
    match value {
        None => Err(DecodeError::MissingField),
        Some(Json::List(items)) => match numbers(items@) {
            Some(found) => Ok(found),
            None => Err(DecodeError::Mistyped),
        },
        Some(_) => Err(DecodeError::Mistyped),
    }
}

/// The error that the members `code` and `text` spell out; `otherwise` where
/// they spell out none.
pub open spec fn decoded_error(fields: Seq<(String, Json)>, otherwise: DecodeError) -> Result<
    MessageTypeView,
    DecodeError,
> {
    match (as_code(member(fields, "code"@)), as_text(member(fields, "text"@))) {
        (Ok(code), Ok(text)) => Ok(MessageTypeView::Error { code, text }),
        _ => Err(otherwise),
    }
}

/// A request around what a field decoder found.
pub open spec fn asks<T>(found: Result<T, DecodeError>, make: spec_fn(T) -> RequestView) -> Result<
    MessageTypeView,
    DecodeError,
> {
    match found {
        Ok(value) => Ok(MessageTypeView::Request(make(value))),
        Err(e) => Err(e),
    }
}

/// A response around what a field decoder found.
pub open spec fn answers<T>(
    found: Result<T, DecodeError>,
    make: spec_fn(T) -> ResponseView,
) -> Result<MessageTypeView, DecodeError> {
    match found {
        Ok(value) => Ok(MessageTypeView::Response(make(value))),
        Err(e) => Err(e),
    }
}

/// The payload that the members of a body spell out. A tag that names a
/// request or a response decides the kind, and the fields of that kind are
/// then owed. Without such a tag the members are read as an error.
pub open spec fn decoded_kind(fields: Seq<(String, Json)>) -> Result<MessageTypeView, DecodeError> {
    match member(fields, "type"@) {
        None => decoded_error(fields, DecodeError::MissingField),
        Some(Json::Text(text)) => {
            let tag = text@;
            if tag == "echo"@ {
                asks(
                    as_text(member(fields, "echo"@)),
                    |echo: Seq<char>| RequestView::Echo { echo },
                )
            } else if tag == "init"@ {
                match as_text(member(fields, "node_id"@)) {
                    Err(e) => Err(e),
                    Ok(node_id) => asks(
                        as_texts(member(fields, "node_ids"@)),
                        |node_ids: Seq<Seq<char>>| RequestView::Init { node_id, node_ids },
                    ),
                }
            } else if tag == "generate"@ {
                Ok(MessageTypeView::Request(RequestView::Generate))
            } else if tag == "topology"@ {
                asks(
                    as_links(member(fields, "topology"@)),
                    |topology: Seq<(Seq<char>, Seq<Seq<char>>)>| RequestView::Topology { topology },
                )
            } else if tag == "read"@ {
                Ok(MessageTypeView::Request(RequestView::Read))
            } else if tag == "broadcast"@ {
                asks(
                    as_number(member(fields, "message"@)),
                    |message: usize| RequestView::Broadcast { message },
                )
            } else if tag == "gossip"@ {
                asks(
                    as_number_set(member(fields, "message"@)),
                    |message: Set<usize>| RequestView::Gossip { message },
                )
            } else if tag == "echo_ok"@ {
                answers(
                    as_text(member(fields, "echo"@)),
                    |echo: Seq<char>| ResponseView::EchoOk { echo },
                )
            } else if tag == "init_ok"@ {
                Ok(MessageTypeView::Response(ResponseView::InitOk))
            } else if tag == "generate_ok"@ {
                answers(
                    as_text(member(fields, "id"@)),
                    |id: Seq<char>| ResponseView::GenerateOk { id },
                )
            } else if tag == "topology_ok"@ {
                Ok(MessageTypeView::Response(ResponseView::TopologyOk))
            } else if tag == "read_ok"@ {
                answers(
                    as_numbers(member(fields, "messages"@)),
                    |messages: Seq<usize>| ResponseView::ReadOk { messages: messages.to_set() },
                )
            } else if tag == "broadcast_ok"@ {
                Ok(MessageTypeView::Response(ResponseView::BroadcastOk))
            } else {
                decoded_error(fields, DecodeError::UnknownType)
            }
        },
        Some(_) => decoded_error(fields, DecodeError::Mistyped),
    }
}

/// The body that the members of an object spell out. A wrong payload is
/// reported before a wrong id.
pub open spec fn decoded_body(fields: Seq<(String, Json)>) -> Result<BodyView, DecodeError> {
    match decoded_kind(fields) {
        Err(e) => Err(e),
        Ok(_type) => match as_id(member(fields, "msg_id"@)) {
            Err(e) => Err(e),
            Ok(msg_id) => match as_id(member(fields, "in_reply_to"@)) {
                Err(e) => Err(e),
                Ok(in_reply_to) => Ok(BodyView { _type, msg_id, in_reply_to }),
            },
        },
    }
}

/// The message that a document spells out, or why it spells out none.
/// Sender, receiver and body are read in this order, and the first failure
/// is reported.
pub open spec fn decoded(doc: Json) -> Result<MessageView, DecodeError> {
    match doc {
        Json::Object(fields) => match as_text(member(fields@, "src"@)) {
            Err(e) => Err(e),
            Ok(src) => match as_text(member(fields@, "dest"@)) {
                Err(e) => Err(e),
                Ok(dest) => match member(fields@, "body"@) {
                    None => Err(DecodeError::MissingField),
                    Some(Json::Object(body)) => match decoded_body(body@) {
                        Err(e) => Err(e),
                        Ok(body) => Ok(MessageView { src, dest, body }),
                    },
                    Some(_) => Err(DecodeError::Malformed),
                },
            },
        },
        _ => Err(DecodeError::Malformed),
    }
}

/// The names that only an error uses are what they read.
pub proof fn lemma_error_names()
    ensures
        "code"@ == seq!['c', 'o', 'd', 'e'],
        "text"@ == seq!['t', 'e', 'x', 't'],
        "code"@.len() == 4,
        "text"@.len() == 4,
{
    reveal_strlit("code");
    reveal_strlit("text");
    assert("code"@ =~= seq!['c', 'o', 'd', 'e']);
    assert("text"@ =~= seq!['t', 'e', 'x', 't']);
}

fn read_id(value: Option<&Json>) -> (r: Result<Option<u32>, DecodeError>)
    ensures
        r == as_id(unref(value)),
{
    match value {
        None => Ok(None),
        Some(Json::Null) => Ok(None),
        Some(Json::Number(n)) => {
            if *n <= u32::MAX as u64 {
                Ok(Some(*n as u32))
            } else {
                Err(DecodeError::Mistyped)
            }
        },
        Some(_) => Err(DecodeError::Mistyped),
    }
}

fn read_numbers(value: Option<&Json>) -> (r: Result<Vec<usize>, DecodeError>)
    ensures
        match r {
            Ok(found) => as_numbers(unref(value)) == Ok::<Seq<usize>, DecodeError>(found@),
            Err(e) => as_numbers(unref(value)) == Err::<Seq<usize>, DecodeError>(e),
        },
{
    match value {
        None => Err(DecodeError::MissingField),
        Some(Json::List(items)) => {
            let mut out: Vec<usize> = Vec::new();
            let mut i: usize = 0;
            assert(items@.take(0) =~= Seq::<Json>::empty());
            while i < items.len()
                invariant
                    i <= items.len(),
                    unref(value) == Some(Json::List(*items)),
                    numbers(items@.take(i as int)) == Some(out@),
                decreases items.len() - i,
            {
                assert(items@.take(i as int + 1).drop_last() =~= items@.take(i as int));
                match read_number(Some(&items[i])) {
                    Ok(n) => {
                        out.push(n);
                    },
                    Err(_) => {
                        proof {
                            assert(items@.take(i as int + 1).last() == items@[i as int]);
                            assert(numbers(items@.take(i as int + 1)) is None);
                            crate::codec::lemma_numbers_stay_none(items@, i as int + 1);
                        }
                        return Err(DecodeError::Mistyped);
                    },
                }
                i += 1;
            }
            assert(items@.take(items.len() as int) =~= items@);
            Ok(out)
        },
        Some(_) => Err(DecodeError::Mistyped),
    }
}

fn read_error(fields: &Vec<(String, Json)>, otherwise: DecodeError) -> (r: Result<
    MessageType,
    DecodeError,
>)
    ensures
        outcome(r) == decoded_error(fields@, otherwise),
{
    let code = match find(fields, "code") {
        Some(Json::Number(n)) => *n,
        _ => {
            return Err(otherwise);
        },
    };
    match read_text(find(fields, "text")) {
        Ok(text) => Ok(MessageType::Error { code, text }),
        Err(_) => Err(otherwise),
    }
}

/// Reads the payload out of the members of a body.
pub fn decode_kind(fields: &Vec<(String, Json)>) -> (r: Result<MessageType, DecodeError>)
    ensures
        outcome(r) == decoded_kind(fields@),
{
    let tag = match find(fields, "type") {
        None => {
            return read_error(fields, DecodeError::MissingField);
        },
        Some(Json::Text(tag)) => tag,
        Some(_) => {
            return read_error(fields, DecodeError::Mistyped);
        },
    };
    if tag_is(tag, "echo") {
        match read_text(find(fields, "echo")) {
            Ok(echo) => Ok(MessageType::Request(Request::Echo { echo })),
            Err(e) => Err(e),
        }
    } else if tag_is(tag, "init") {
        match read_text(find(fields, "node_id")) {
            Err(e) => Err(e),
            Ok(node_id) => match read_texts(find(fields, "node_ids")) {
                Ok(node_ids) => Ok(MessageType::Request(Request::Init { node_id, node_ids })),
                Err(e) => Err(e),
            },
        }
    } else if tag_is(tag, "generate") {
        Ok(MessageType::Request(Request::Generate))
    } else if tag_is(tag, "topology") {
        match read_links(find(fields, "topology")) {
            Ok(topology) => Ok(MessageType::Request(Request::Topology { topology })),
            Err(e) => Err(e),
        }
    } else if tag_is(tag, "read") {
        Ok(MessageType::Request(Request::Read))
    } else if tag_is(tag, "broadcast") {
        match read_number(find(fields, "message")) {
            Ok(message) => Ok(MessageType::Request(Request::Broadcast { message })),
            Err(e) => Err(e),
        }
    } else if tag_is(tag, "gossip") {
        match read_number_set(find(fields, "message")) {
            Ok(message) => Ok(MessageType::Request(Request::Gossip { message })),
            Err(e) => Err(e),
        }
    } else if tag_is(tag, "echo_ok") {
        match read_text(find(fields, "echo")) {
            Ok(echo) => Ok(MessageType::Response(Response::EchoOk { echo })),
            Err(e) => Err(e),
        }
    } else if tag_is(tag, "init_ok") {
        Ok(MessageType::Response(Response::InitOk))
    } else if tag_is(tag, "generate_ok") {
        match read_text(find(fields, "id")) {
            Ok(id) => Ok(MessageType::Response(Response::GenerateOk { id })),
            Err(e) => Err(e),
        }
    } else if tag_is(tag, "topology_ok") {
        Ok(MessageType::Response(Response::TopologyOk))
    } else if tag_is(tag, "read_ok") {
        match read_numbers(find(fields, "messages")) {
            Ok(messages) => Ok(MessageType::Response(Response::ReadOk { messages })),
            Err(e) => Err(e),
        }
    } else if tag_is(tag, "broadcast_ok") {
        Ok(MessageType::Response(Response::BroadcastOk))
    } else {
        read_error(fields, DecodeError::UnknownType)
    }
}

/// Reads a body out of the members of an object.
pub fn decode_body(fields: &Vec<(String, Json)>) -> (r: Result<Body, DecodeError>)
    ensures
        outcome(r) == decoded_body(fields@),
{
    let _type = match decode_kind(fields) {
        Ok(kind) => kind,
        Err(e) => {
            return Err(e);
        },
    };
    let msg_id = match read_id(find(fields, "msg_id")) {
        Ok(id) => id,
        Err(e) => {
            return Err(e);
        },
    };
    match read_id(find(fields, "in_reply_to")) {
        Ok(in_reply_to) => Ok(Body { _type, msg_id, in_reply_to }),
        Err(e) => Err(e),
    }
}

/// Reads a message out of a document. Fails where the document or its body
/// is no object, where `src`, `dest`, `body` or a field of the kind is
/// absent or of the wrong kind, and where the body has neither a tag that
/// names a kind nor the members of an error.
pub fn decode_value(doc: &Json) -> (r: Result<Message, DecodeError>)
    ensures
        outcome(r) == decoded(*doc),
{
    match doc {
        Json::Object(fields) => {
            let src = match read_text(find(fields, "src")) {
                Ok(src) => src,
                Err(e) => {
                    return Err(e);
                },
            };
            let dest = match read_text(find(fields, "dest")) {
                Ok(dest) => dest,
                Err(e) => {
                    return Err(e);
                },
            };
            match find(fields, "body") {
                None => Err(DecodeError::MissingField),
                Some(Json::Object(body)) => match decode_body(body) {
                    Ok(body) => Ok(Message::new(src.as_str(), dest.as_str(), body)),
                    Err(e) => Err(e),
                },
                Some(_) => Err(DecodeError::Malformed),
            }
        },
        _ => Err(DecodeError::Malformed),
    }
}

/// Lays out a list of values in its order.
pub fn encode_number_list(values: &Vec<usize>) -> (r: Json)
    ensures
        as_numbers(Some(r)) == Ok::<Seq<usize>, DecodeError>(values@),
{
    let mut items: Vec<Json> = Vec::new();
    let mut i: usize = 0;
    assert(values@.take(0) =~= Seq::<usize>::empty());
    while i < values.len()
        invariant
            i <= values.len(),
            numbers(items@) == Some(values@.take(i as int)),
        decreases values.len() - i,
    {
        let ghost before = items@;
        items.push(Json::Number(values[i] as u64));
        assert(items@.drop_last() =~= before);
        assert(values@.take(i as int + 1) =~= values@.take(i as int).push(values@[i as int]));
        i += 1;
    }
    assert(values@.take(values.len() as int) =~= values@);
    Json::List(items)
}

/// Lays out a payload: the tag and the fields of a request or a response,
/// `code` and `text` of an error.
pub fn encode_kind(kind: &MessageType) -> (fields: Vec<(String, Json)>)
    ensures
        decoded_kind(fields@) == Ok::<MessageTypeView, DecodeError>(kind@),
        member(fields@, "msg_id"@) is None,
        member(fields@, "in_reply_to"@) is None,
{
    broadcast use lemma_member_push;

    proof {
        lemma_names();
        lemma_error_names();
    }
    let mut fields: Vec<(String, Json)> = Vec::new();
    match kind {
        MessageType::Request(Request::Echo { echo }) => {
            fields.push(entry("type", Json::Text(String::from_str("echo"))));
            fields.push(entry("echo", Json::Text(echo.clone())));
        },
        MessageType::Request(Request::Init { node_id, node_ids }) => {
            fields.push(entry("type", Json::Text(String::from_str("init"))));
            fields.push(entry("node_id", Json::Text(node_id.clone())));
            fields.push(entry("node_ids", encode_texts(node_ids)));
        },
        MessageType::Request(Request::Generate) => {
            fields.push(entry("type", Json::Text(String::from_str("generate"))));
        },
        MessageType::Request(Request::Topology { topology }) => {
            fields.push(entry("type", Json::Text(String::from_str("topology"))));
            fields.push(entry("topology", encode_links(topology)));
        },
        MessageType::Request(Request::Read) => {
            fields.push(entry("type", Json::Text(String::from_str("read"))));
        },
        MessageType::Request(Request::Broadcast { message }) => {
            fields.push(entry("type", Json::Text(String::from_str("broadcast"))));
            fields.push(entry("message", Json::Number(*message as u64)));
        },
        MessageType::Request(Request::Gossip { message }) => {
            fields.push(entry("type", Json::Text(String::from_str("gossip"))));
            fields.push(entry("message", encode_numbers(message)));
        },
        MessageType::Response(Response::EchoOk { echo }) => {
            fields.push(entry("type", Json::Text(String::from_str("echo_ok"))));
            fields.push(entry("echo", Json::Text(echo.clone())));
        },
        MessageType::Response(Response::InitOk) => {
            fields.push(entry("type", Json::Text(String::from_str("init_ok"))));
        },
        MessageType::Response(Response::GenerateOk { id }) => {
            fields.push(entry("type", Json::Text(String::from_str("generate_ok"))));
            fields.push(entry("id", Json::Text(id.clone())));
        },
        MessageType::Response(Response::TopologyOk) => {
            fields.push(entry("type", Json::Text(String::from_str("topology_ok"))));
        },
        MessageType::Response(Response::ReadOk { messages }) => {
            fields.push(entry("type", Json::Text(String::from_str("read_ok"))));
            fields.push(entry("messages", encode_number_list(messages)));
        },
        MessageType::Response(Response::BroadcastOk) => {
            fields.push(entry("type", Json::Text(String::from_str("broadcast_ok"))));
        },
        MessageType::Error { code, text } => {
            fields.push(entry("code", Json::Number(*code)));
            fields.push(entry("text", Json::Text(text.clone())));
        },
    }
    fields
}

/// Lays out a body: the payload, then the ids it has. An id that the body
/// lacks is left out.
pub fn encode_body(body: &Body) -> (fields: Vec<(String, Json)>)
    ensures
        decoded_body(fields@) == Ok::<BodyView, DecodeError>(body@),
        member(fields@, "msg_id"@) is None <==> body.msg_id is None,
        member(fields@, "in_reply_to"@) is None <==> body.in_reply_to is None,
{
    broadcast use lemma_member_push;

    proof {
        lemma_names();
        lemma_error_names();
    }
    let mut fields = encode_kind(&body._type);
    let ghost kind_only = fields@;
    match body.msg_id {
        Some(id) => {
            fields.push(entry("msg_id", Json::Number(id as u64)));
        },
        None => {},
    }
    let ghost with_id = fields@;
    match body.in_reply_to {
        Some(id) => {
            fields.push(entry("in_reply_to", Json::Number(id as u64)));
        },
        None => {},
    }
    proof {
        lemma_kind_stays(kind_only, with_id, body._type@);
        lemma_kind_stays(with_id, fields@, body._type@);
    }
    fields
}

/// Ids added behind a payload leave the payload as it reads.
pub proof fn lemma_kind_stays(
    before: Seq<(String, Json)>,
    after: Seq<(String, Json)>,
    kind: MessageTypeView,
)
    requires
        decoded_kind(before) == Ok::<MessageTypeView, DecodeError>(kind),
        after == before || (exists|value: (String, Json)|
            after == before.push(value) && (value.0@ == "msg_id"@ || value.0@
                == "in_reply_to"@)),
    ensures
        decoded_kind(after) == Ok::<MessageTypeView, DecodeError>(kind),
{
    broadcast use lemma_member_push;

    lemma_names();
    lemma_error_names();
}

/// Lays out a message as a document with the members `src`, `dest` and
/// `body`, in this order. Decoding the document gives the message back.
pub fn encode_value(msg: &Message) -> (doc: Json)
    ensures
        decoded(doc) == Ok::<MessageView, DecodeError>(msg@),
        doc matches Json::Object(fields) && fields@.len() == 3 && fields@[0].0@ == "src"@
            && fields@[1].0@ == "dest"@ && fields@[2].0@ == "body"@,
{
    broadcast use lemma_member_push;

    proof {
        lemma_names();
    }
    let mut fields: Vec<(String, Json)> = Vec::new();
    fields.push(entry("src", Json::Text(String::from_str(msg.src()))));
    fields.push(entry("dest", Json::Text(String::from_str(msg.dest()))));
    fields.push(entry("body", Json::Object(encode_body(msg.body()))));
    Json::Object(fields)
}

} // verus!
