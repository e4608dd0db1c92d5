//! The smallest responder: it keeps no state and answers an echo with what
//! it was sent.

pub mod node;
pub mod payload;

use crate::body::BodyView;
use crate::message::MessageView;
use crate::msg_type::Type;
use crate::payload::PayloadView;
use vstd::prelude::*;

verus! {

/// The two kinds an echo exchange is made of.
#[derive(Debug, Clone, PartialEq, Eq)]
pub enum Payload {
    Echo { echo: String },
    EchoOk { echo: String },
}

impl View for Payload {
    type V = PayloadView;

    open spec fn view(&self) -> PayloadView {
        match *self {
            Payload::Echo { echo } => PayloadView::Echo { echo: echo@ },
            Payload::EchoOk { echo } => PayloadView::EchoOk { echo: echo@ },
        }
    }
}

impl Type for Payload {
    fn duplicate(&self) -> (r: Self) {
        match self {
            Payload::Echo { echo } => Payload::Echo { echo: echo.clone() },
            Payload::EchoOk { echo } => Payload::EchoOk { echo: echo.clone() },
        }
    }
}

/// The body of an echo exchange.
pub type Body = crate::body::Body<Payload>;

/// A message of an echo exchange.
pub type Message = crate::message::Message<Payload>;

/// The acknowledgement that answers `payload`. A payload that is an
/// acknowledgement already is answered by itself.
pub open spec fn acknowledged(payload: PayloadView) -> PayloadView {
    match payload {
        PayloadView::Echo { echo } => PayloadView::EchoOk { echo },
        PayloadView::Init { .. } => PayloadView::InitOk,
        PayloadView::Generate => PayloadView::GenerateOk { id: Seq::empty() },
        other => other,
    }
}

/// The answer of a stateless responder to `msg`: sender and receiver swapped,
/// the request's id kept and repeated as `in_reply_to`, around the
/// acknowledgement of its payload.
pub open spec fn echoed(msg: MessageView<PayloadView>) -> MessageView<PayloadView> {
    MessageView {
        src: msg.dest,
        dest: msg.src,
        body: BodyView {
            msg_id: msg.body.msg_id,
            in_reply_to: msg.body.msg_id,
            payload: acknowledged(msg.body.payload),
        },
    }
}

impl crate::message::Message<Payload> {
    /// The answer to this message.
    pub fn reply(&self) -> (r: Self)
        ensures
            r@ == echoed(self@),
    {
        let echo = match &self.body.payload {
            Payload::Echo { echo } => echo.clone(),
            Payload::EchoOk { echo } => echo.clone(),
        };
        crate::message::Message {
            src: self.dest.clone(),
            dest: self.src.clone(),
            body: crate::body::Body {
                msg_id: self.body.msg_id,
                in_reply_to: self.body.msg_id,
                payload: Payload::EchoOk { echo },
            },
        }
    }
}

} // verus!
