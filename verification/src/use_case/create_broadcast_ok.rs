use crate::body::Body;
use crate::message::{fan_out, gossip, views, Message, MessageView};
use crate::messages::{Broadcast, BroadcastOk, Gossip, MessageType, State, StateView};
use crate::outbound::SendFailed;
use crate::payload::PayloadView;
use super::{deliver, make_reply, reply_to, UseCase};
use std::sync::mpsc::Sender;
use vstd::prelude::*;

verus! {

/// Adds the value to the known set, acknowledges, and forwards the value to
/// every peer.
#[derive(Debug)]
pub struct CreateBroadcastOkUseCase {
    sender: Sender<Message<MessageType>>,
}

impl UseCase<Broadcast> for CreateBroadcastOkUseCase {
    open spec fn admits(state: StateView) -> bool {
        true
    }

    open spec fn next_state(
        state: StateView,
        msg: MessageView<PayloadView>,
        msg_type: Broadcast,
    ) -> StateView {
        StateView { messages: state.messages.insert(msg_type.message), ..state }
    }

    open spec fn responses(
        state: StateView,
        msg: MessageView<PayloadView>,
        msg_type: Broadcast,
    ) -> Seq<MessageView<PayloadView>> {
        seq![reply_to(msg, PayloadView::BroadcastOk)] + fan_out(
            state.node_id,
            state.gossip_nodes,
            msg_type.message,
        )
    }

    fn new(sender: Sender<Message<MessageType>>) -> (r: Self) {
        Self { sender }
    }

    fn plan(state: &mut State, msg: Message<MessageType>, msg_type: Broadcast) -> (out: Vec<
        Message<MessageType>,
    >) {
        let message = msg_type.message;
        state.messages.insert(message);
        let answer = make_reply(msg, MessageType::BroadcastOk(BroadcastOk));
        let mut out = vec![answer];
        let ghost first = views(out@);
        let mut i: usize = 0;
        while i < state.gossip_nodes.len()
            invariant
                i <= state.gossip_nodes.len(),
                state@ == Self::next_state(old(state)@, msg@, msg_type),
                first =~= seq![reply_to(msg@, PayloadView::BroadcastOk)],
                views(out@) =~= first + fan_out(
                    state@.node_id,
                    state@.gossip_nodes,
                    message,
                ).take(i as int),
            decreases state.gossip_nodes.len() - i,
        {
            let note = Message {
                src: state.node_id.clone(),
                dest: state.gossip_nodes[i].clone(),
                body: Body {
                    msg_id: None,
                    in_reply_to: None,
                    payload: MessageType::Gossip(Gossip { message }),
                },
            };
            let ghost sent = views(out@);
            assert(note@ == gossip(state@.node_id, state@.gossip_nodes[i as int], message));
            out.push(note);
            assert(views(out@) =~= sent.push(note@));
            i += 1;
        }
        assert(views(out@) =~= Self::responses(old(state)@, msg@, msg_type));
        out
    }

    fn execute(&self, state: &mut State, msg: Message<MessageType>, msg_type: Broadcast) -> (r:
        Result<(), SendFailed>) {
        let out = Self::plan(state, msg, msg_type);
        deliver(&self.sender, out)
    }

    closed spec fn sender(&self) -> Sender<Message<MessageType>> {
        self.sender
    }
}

} // verus!
