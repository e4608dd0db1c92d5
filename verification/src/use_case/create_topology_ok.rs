use crate::message::{views, Message, MessageView};
use crate::messages::{MessageType, State, StateView, Topology, TopologyOk};
use crate::outbound::SendFailed;
use crate::payload::PayloadView;
use crate::payload::{narrow_peers, narrowed};
use super::{deliver, make_reply, reply_to, UseCase};
use std::sync::mpsc::Sender;
use vstd::prelude::*;

verus! {

/// Stores the topology, takes the nodes listed for this node as its peers,
/// and acknowledges.
#[derive(Debug)]
pub struct CreateTopologyOkUseCase {
    sender: Sender<Message<MessageType>>,
}

impl UseCase<Topology> for CreateTopologyOkUseCase {
    open spec fn admits(state: StateView) -> bool {
        true
    }

    open spec fn next_state(
        state: StateView,
        msg: MessageView<PayloadView>,
        msg_type: Topology,
    ) -> StateView {
        StateView {
            topology: msg_type.topology.deep_view(),
            gossip_nodes: narrowed(
                state.gossip_nodes,
                msg_type.topology.deep_view(),
                state.node_id,
            ),
            ..state
        }
    }

    open spec fn responses(
        state: StateView,
        msg: MessageView<PayloadView>,
        msg_type: Topology,
    ) -> Seq<MessageView<PayloadView>> {
        seq![reply_to(msg, PayloadView::TopologyOk)]
    }

    fn new(sender: Sender<Message<MessageType>>) -> (r: Self) {
        Self { sender }
    }

    fn plan(state: &mut State, msg: Message<MessageType>, msg_type: Topology) -> (out: Vec<
        Message<MessageType>,
    >) {
        narrow_peers(&mut state.gossip_nodes, &msg_type.topology, &state.node_id);
        state.topology = msg_type.topology;
        let answer = make_reply(msg, MessageType::TopologyOk(TopologyOk));
        let out = vec![answer];
        assert(views(out@) =~= Self::responses(old(state)@, msg@, msg_type));
        out
    }

    fn execute(&self, state: &mut State, msg: Message<MessageType>, msg_type: Topology) -> (r:
        Result<(), SendFailed>) {
        let out = Self::plan(state, msg, msg_type);
        deliver(&self.sender, out)
    }

    closed spec fn sender(&self) -> Sender<Message<MessageType>> {
        self.sender
    }
}

} // verus!
