//! One use case per request kind: what the request does to the state and
//! which messages go out in answer.

pub mod create_broadcast_ok;
pub mod create_echo_ok;
pub mod create_generate_ok;
pub mod create_gossip_ok;
pub mod create_init_ok;
pub mod create_read_ok;
pub mod create_topology_ok;

pub use create_broadcast_ok::CreateBroadcastOkUseCase;
pub use create_echo_ok::CreateEchoOkUseCase;
pub use create_generate_ok::CreateGenerateOkUseCase;
pub use create_gossip_ok::CreateGossipOkUseCase;
pub use create_init_ok::CreateInitOkUseCase;
pub use create_read_ok::CreateReadOkUseCase;
pub use create_topology_ok::CreateTopologyOkUseCase;

use crate::body::{Body, BodyView};
use crate::message::{Message, MessageView};
use crate::messages::{MessageType, State, StateView};
use crate::outbound::{send_all, settle, SendFailed};
use crate::payload::PayloadView;
use std::sync::mpsc::Sender;
use vstd::prelude::*;

verus! {

/// The answer to `msg` around `payload`: sender and receiver swapped, the
/// request's id kept and repeated as `in_reply_to`.
pub open spec fn reply_to(msg: MessageView<PayloadView>, payload: PayloadView) -> MessageView<
    PayloadView,
> {
    MessageView {
        src: msg.dest,
        dest: msg.src,
        body: BodyView { msg_id: msg.body.msg_id, in_reply_to: msg.body.msg_id, payload },
    }
}

/// Builds the answer to `msg` around `payload`.
pub fn make_reply(msg: Message<MessageType>, payload: MessageType) -> (r: Message<MessageType>)
    ensures
        r@ == reply_to(msg@, payload@),
{
    Message {
        src: msg.dest,
        dest: msg.src,
        body: Body { msg_id: msg.body.msg_id, in_reply_to: msg.body.msg_id, payload },
    }
}

/// Queues `out` in order. Fails when the queue refuses one of the messages.
pub fn deliver(sender: &Sender<Message<MessageType>>, out: Vec<Message<MessageType>>) -> (r:
    Result<(), SendFailed>)
    ensures
        out@.len() == 0 ==> r is Ok,
{
    let total = out.len();
    settle(send_all(sender, out) == total)
}

/// The handling of one request kind `T`.
pub trait UseCase<T>: Sized {
    /// Whether a request of this kind can be handled in `state`.
    spec fn admits(state: StateView) -> bool;

    /// The state after the request `msg` with payload `msg_type`.
    spec fn next_state(state: StateView, msg: MessageView<PayloadView>, msg_type: T) -> StateView;

    /// The messages that go out in answer, in order.
    spec fn responses(state: StateView, msg: MessageView<PayloadView>, msg_type: T) -> Seq<
        MessageView<PayloadView>,
    >;

    /// A use case that sends through `sender`.
    fn new(sender: Sender<Message<MessageType>>) -> (r: Self)
        ensures
            r.sender() == sender,
    ;

    /// Updates `state` and computes the messages to send, without sending
    /// them.
    fn plan(state: &mut State, msg: Message<MessageType>, msg_type: T) -> (out: Vec<
        Message<MessageType>,
    >)
        requires
            Self::admits(old(state)@),
        ensures
            final(state)@ == Self::next_state(old(state)@, msg@, msg_type),
            crate::message::views(out@) == Self::responses(old(state)@, msg@, msg_type),
    ;

    /// Updates `state` and queues the messages. Fails when the queue refuses
    /// one of them; the state is updated all the same.
    fn execute(&self, state: &mut State, msg: Message<MessageType>, msg_type: T) -> (r: Result<
        (),
        SendFailed,
    >)
        requires
            Self::admits(old(state)@),
        ensures
            final(state)@ == Self::next_state(old(state)@, msg@, msg_type),
            Self::responses(old(state)@, msg@, msg_type).len() == 0 ==> r is Ok,
    ;

    /// The queue that the use case sends through.
    spec fn sender(&self) -> Sender<Message<MessageType>>;
}

} // verus!
