use crate::message::{views, Message, MessageView};
use crate::messages::{Init, MessageType, State, StateView};
use crate::names::{without, without_name};
use crate::outbound::SendFailed;
use crate::payload::PayloadView;
use super::{deliver, make_reply, reply_to, UseCase};
use std::sync::mpsc::Sender;
use vstd::prelude::*;

verus! {

/// Names the node, makes every other node of the cluster its peer, and
/// acknowledges.
#[derive(Debug)]
pub struct CreateInitOkUseCase {
    sender: Sender<Message<MessageType>>,
}

impl UseCase<Init> for CreateInitOkUseCase {
    open spec fn admits(state: StateView) -> bool {
        true
    }

    open spec fn next_state(
        state: StateView,
        msg: MessageView<PayloadView>,
        msg_type: Init,
    ) -> StateView {
        StateView {
            node_id: msg_type.node_id@,
            gossip_nodes: without(msg_type.node_ids.deep_view(), msg_type.node_id@),
            ..state
        }
    }

    open spec fn responses(
        state: StateView,
        msg: MessageView<PayloadView>,
        msg_type: Init,
    ) -> Seq<MessageView<PayloadView>> {
        seq![reply_to(msg, PayloadView::InitOk)]
    }

    fn new(sender: Sender<Message<MessageType>>) -> (r: Self) {
        Self { sender }
    }

    fn plan(state: &mut State, msg: Message<MessageType>, msg_type: Init) -> (out: Vec<
        Message<MessageType>,
    >) {
        state.gossip_nodes = without_name(&msg_type.node_ids, &msg_type.node_id);
        state.node_id = msg_type.node_id;
        let answer = make_reply(msg, MessageType::InitOk);
        let out = vec![answer];
        assert(views(out@) =~= Self::responses(old(state)@, msg@, msg_type));
        out
    }

    fn execute(&self, state: &mut State, msg: Message<MessageType>, msg_type: Init) -> (r:
        Result<(), SendFailed>) {
        let out = Self::plan(state, msg, msg_type);
        deliver(&self.sender, out)
    }

    closed spec fn sender(&self) -> Sender<Message<MessageType>> {
        self.sender
    }
}

} // verus!
