//! The stateless responder.

use super::acknowledged;
use super::echoed;
use super::payload::Payload;
use crate::body::Body;
use crate::message::Message;
use vstd::prelude::*;

verus! {

/// A responder without state: every answer depends on the request alone.
#[derive(Debug, Clone, Copy)]
pub struct Node;

impl Node {
    /// Answers `req`: an echo with what was sent, an initialisation with its
    /// acknowledgement, a request for an id with an empty one. The answer
    /// keeps the request's id and repeats it as `in_reply_to`.
    pub fn reply(&self, req: Message<Payload>) -> (r: Message<Payload>)
        ensures
            r@ == echoed(req@),
    {
        let payload = match req.body.payload {
            Payload::Echo { echo } => Payload::EchoOk { echo },
            Payload::EchoOk { echo } => Payload::EchoOk { echo },
            Payload::Init { .. } => Payload::InitOk,
            Payload::InitOk => Payload::InitOk,
            Payload::Generate => Payload::GenerateOk { id: String::new() },
            Payload::GenerateOk { id } => Payload::GenerateOk { id },
        };
        proof {
            assert(payload@ == acknowledged(req@.body.payload));
        }
        Message {
            src: req.dest,
            dest: req.src,
            body: Body { msg_id: req.body.msg_id, in_reply_to: req.body.msg_id, payload },
        }
    }
}

} // verus!
