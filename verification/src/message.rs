//! The envelope around every message: who sends, who receives, and the body.

use crate::body::{Body, BodyView};
use crate::msg_type::Type;
use crate::payload::{Payload, PayloadView};
use vstd::prelude::*;
use vstd::string::StringExecFns;

verus! {

/// The model of a message.
pub struct MessageView<V> {
    pub src: Seq<char>,
    pub dest: Seq<char>,
    pub body: BodyView<V>,
}

/// The models of a list of messages, in order.
pub open spec fn views<P: Type>(msgs: Seq<Message<P>>) -> Seq<MessageView<P::V>> {
    Seq::new(msgs.len(), |i: int| msgs[i]@)
}

/// The bare answer to `msg`: sender and receiver swapped, correlated with the
/// request's id, without an id of its own, around the default payload.
pub open spec fn bare_reply(msg: MessageView<PayloadView>) -> MessageView<PayloadView> {
    MessageView {
        src: msg.dest,
        dest: msg.src,
        body: BodyView {
            msg_id: None,
            in_reply_to: msg.body.msg_id,
            payload: PayloadView::InitOk,
        },
    }
}

/// The gossip message that carries `message` from `src` to `dest`.
pub open spec fn gossip(src: Seq<char>, dest: Seq<char>, message: usize) -> MessageView<
    PayloadView,
> {
    MessageView {
        src,
        dest,
        body: BodyView {
            msg_id: None,
            in_reply_to: None,
            payload: PayloadView::Gossip { message },
        },
    }
}

/// One gossip message to each of `peers`, in their order.
pub open spec fn fan_out(src: Seq<char>, peers: Seq<Seq<char>>, message: usize) -> Seq<
    MessageView<PayloadView>,
> {
    Seq::new(peers.len(), |i: int| gossip(src, peers[i], message))
}

/// A message between two nodes, or between a client and a node.
#[derive(Debug, Clone, PartialEq, Eq)]
pub struct Message<P> {
    pub src: String,
    pub dest: String,
    pub body: Body<P>,
}

impl<P: Type> View for Message<P> {
    type V = MessageView<P::V>;

    open spec fn view(&self) -> MessageView<P::V> {
        MessageView { src: self.src@, dest: self.dest@, body: self.body@ }
    }
}

impl<P: Type> Message<P> {
    pub fn new(src: &str, dest: &str, body: &Body<P>) -> (r: Self)
        ensures
            r@ == (MessageView { src: src@, dest: dest@, body: body@ }),
    {
        Self { src: String::from_str(src), dest: String::from_str(dest), body: body.duplicate() }
    }

    /// The same message with `id` as its own id.
    pub fn with_id(self, id: usize) -> (r: Self)
        ensures
            r == (Message {
                src: self.src,
                dest: self.dest,
                body: Body {
                    msg_id: Some(id),
                    in_reply_to: self.body.in_reply_to,
                    payload: self.body.payload,
                },
            }),
    {
        let mut out = self;
        out.body.msg_id = Some(id);
        out
    }

    /// The same message around another payload.
    pub fn with_payload(self, payload: P) -> (r: Self)
        ensures
            r == (Message {
                src: self.src,
                dest: self.dest,
                body: Body {
                    msg_id: self.body.msg_id,
                    in_reply_to: self.body.in_reply_to,
                    payload,
                },
            }),
    {
        let mut out = self;
        out.body.payload = payload;
        out
    }

    /// An independent copy with the same model.
    pub fn duplicate(&self) -> (r: Self)
        ensures
            r@ == self@,
    {
        Message { src: self.src.clone(), dest: self.dest.clone(), body: self.body.duplicate() }
    }
}

impl Message<Payload> {
    /// Starts the answer to this message: sender and receiver are swapped
    /// and `in_reply_to` is this message's id.
    pub fn to_reply(&self) -> (r: Self)
        ensures
            r@ == bare_reply(self@),
    {
        Message {
            src: self.dest.clone(),
            dest: self.src.clone(),
            body: Body { msg_id: None, in_reply_to: self.body.msg_id, payload: Payload::InitOk },
        }
    }
}

} // verus!
