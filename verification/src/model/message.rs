//! The envelope around every message.

use super::body::{Body, BodyView};
use super::message_type::{MessageType, MessageTypeView, Request, Response};
use super::node::{answer, Node};
use crate::sets::to_vec;
use vstd::prelude::*;
use vstd::string::StringExecFns;

verus! {

/// The model of a message.
pub struct MessageView {
    pub src: Seq<char>,
    pub dest: Seq<char>,
    pub body: BodyView,
}

/// Whether `text` ends with `tail`.
pub open spec fn ends_with(text: Seq<char>, tail: Seq<char>) -> bool {
    text.len() >= tail.len() && text.subrange(text.len() - tail.len(), text.len() as int) == tail
}

/// A message between two nodes, or between a client and a node.
#[derive(Debug, PartialEq, Eq)]
pub struct Message {
    src: String,
    dest: String,
    body: Body,
}

impl View for Message {
    type V = MessageView;

    closed spec fn view(&self) -> MessageView {
        MessageView { src: self.src@, dest: self.dest@, body: self.body@ }
    }
}

impl Clone for Message {
    fn clone(&self) -> (r: Self)
        ensures
            r@ == self@,
    {
        Message { src: self.src.clone(), dest: self.dest.clone(), body: self.body.clone() }
    }
}

/// Calls the `Debug` formatting that std derives for a response. Nothing is
/// stated of the text it gives.
#[verifier::external_body]
fn describe(response: &Response) -> (r: String) {
    format!("{:?}", response)
}

impl Message {
    pub fn new(src: &str, dest: &str, body: Body) -> (r: Message)
        ensures
            r@ == (MessageView { src: src@, dest: dest@, body: body@ }),
            r.lists_once() == body.lists_once(),
    {
        Message { src: String::from_str(src), dest: String::from_str(dest), body }
    }

    pub fn src(&self) -> (r: &str)
        ensures
            r@ == self@.src,
    {
        self.src.as_str()
    }

    pub fn set_src(&mut self, src: &str)
        ensures
            final(self)@ == (MessageView { src: src@, ..old(self)@ }),
    {
        self.src = String::from_str(src);
    }

    pub fn body(&self) -> (r: &Body)
        ensures
            r@ == self@.body,
            r.lists_once() == self.lists_once(),
    {
        &self.body
    }

    pub fn dest(&self) -> (r: &str)
        ensures
            r@ == self@.dest,
    {
        self.dest.as_str()
    }

    pub fn set_dest(&mut self, dest: &str)
        ensures
            final(self)@ == (MessageView { dest: dest@, ..old(self)@ }),
    {
        self.dest = String::from_str(dest);
    }

    /// Whether the message, where it is a `ReadOk`, lists no value twice.
    pub closed spec fn lists_once(&self) -> bool {
        self.body.lists_once()
    }

    /// The response of `node` to this message: sender and receiver swapped,
    /// the id kept and repeated as `in_reply_to`. A request is answered as
    /// its kind asks, from the state `node` is in; gossip, which calls for no
    /// answer, and a response, which is no request, are answered by an error
    /// with code 12.
    pub fn make_response(&self, node: &mut Node) -> (r: Self)
        requires
            !(self@.body._type is Error),
        ensures
            final(node)@ == old(node)@,
            r@.src == self@.dest,
            r@.dest == self@.src,
            r@.body.msg_id == self@.body.msg_id,
            r@.body.in_reply_to == self@.body.msg_id,
            r.lists_once(),
            match self@.body._type {
                MessageTypeView::Request(request) => r@.body._type == answer(old(node)@, request),
                _ => r@.body._type matches MessageTypeView::Error { code, text } && code == 12
                    && ends_with(text, " is a response not a request!"@),
            },
    {
        let resp = match self.body._type() {
            MessageType::Request(req) => match req {
                Request::Echo { echo } => MessageType::Response(
                    Response::EchoOk { echo: echo.clone() },
                ),
                Request::Init { .. } => MessageType::Response(Response::InitOk),
                Request::Generate => MessageType::Response(
                    Response::GenerateOk { id: node.generate_id() },
                ),
                Request::Topology { .. } => MessageType::Response(Response::TopologyOk),
                Request::Read => {
                    let known = node.messages_buffer_mut();
                    MessageType::Response(Response::ReadOk { messages: to_vec(known) })
                },
                Request::Broadcast { .. } => MessageType::Response(Response::BroadcastOk),
                Request::Gossip { .. } => MessageType::Error {
                    code: 12,
                    text: String::from_str("Unexpected request"),
                },
            },
            MessageType::Response(resp) => {
                let mut text = describe(resp);
                let ghost head = text@;
                text.append(" is a response not a request!");
                assert(text@.subrange(head.len() as int, text@.len() as int)
                    =~= " is a response not a request!"@);
                MessageType::Error { code: 12, text }
            },
            MessageType::Error { .. } => vstd::pervasive::unreached(),
        };
        let body = Body::new(resp, self.body().msg_id(), self.body().msg_id());
        Message::new(self.dest(), self.src(), body)
    }
}

} // verus!
