//! Routes each request to the use case of its kind.

use crate::ident::generated_id;
use crate::message::{fan_out, views, Message, MessageView};
use crate::messages::{MessageType, State, StateView};
use crate::msg_type::Type;
use crate::names::without;
use crate::outbound::SendFailed;
use crate::payload::{narrowed, PayloadView};
use crate::use_case::{
    reply_to, CreateBroadcastOkUseCase, CreateEchoOkUseCase, CreateGenerateOkUseCase,
    CreateGossipOkUseCase, CreateInitOkUseCase, CreateReadOkUseCase, CreateTopologyOkUseCase,
    UseCase,
};
use std::sync::mpsc::Sender;
use vstd::prelude::*;

verus! {

/// The state after the request `msg` has been handled in `state`.
pub open spec fn next_state(state: StateView, msg: MessageView<PayloadView>) -> StateView {
    match msg.body.payload {
        PayloadView::Init { node_id, node_ids } => StateView {
            node_id,
            gossip_nodes: without(node_ids, node_id),
            ..state
        },
        PayloadView::Generate => StateView { id: (state.id + 1) as usize, ..state },
        PayloadView::Topology { topology } => StateView {
            topology,
            gossip_nodes: narrowed(state.gossip_nodes, topology, state.node_id),
            ..state
        },
        PayloadView::Broadcast { message } => StateView {
            messages: state.messages.insert(message),
            ..state
        },
        PayloadView::Gossip { message } => StateView {
            messages: state.messages.insert(message),
            ..state
        },
        _ => state,
    }
}

/// The messages that go out when `msg` is handled in `state`, in order.
/// Acknowledgements and gossip are answered by nothing.
pub open spec fn responses(state: StateView, msg: MessageView<PayloadView>) -> Seq<
    MessageView<PayloadView>,
> {
    match msg.body.payload {
        PayloadView::Echo { echo } => seq![reply_to(msg, PayloadView::EchoOk { echo })],
        PayloadView::Init { .. } => seq![reply_to(msg, PayloadView::InitOk)],
        PayloadView::Generate => seq![
            reply_to(
                msg,
                PayloadView::GenerateOk { id: generated_id(state.node_id, state.id as nat) },
            ),
        ],
        PayloadView::Topology { .. } => seq![reply_to(msg, PayloadView::TopologyOk)],
        PayloadView::Broadcast { message } => seq![reply_to(msg, PayloadView::BroadcastOk)]
            + fan_out(state.node_id, state.gossip_nodes, message),
        PayloadView::Read => seq![reply_to(msg, PayloadView::ReadOk { messages: state.messages })],
        _ => Seq::empty(),
    }
}

/// Sends through a queue and owns the state the use cases act on.
#[derive(Debug)]
pub struct Controller {
    sender: Sender<Message<MessageType>>,
    state: State,
}

impl View for Controller {
    type V = StateView;

    closed spec fn view(&self) -> StateView {
        self.state@
    }
}

/// Calls `Sender::clone`: a second handle on the same queue.
#[verifier::external_body]
fn share<T>(sender: &Sender<T>) -> (r: Sender<T>) {
    sender.clone()
}

impl Controller {
    /// Creates a new [`Controller`].
    pub fn new(state: State, sender: Sender<Message<MessageType>>) -> (r: Self)
        ensures
            r@ == state@,
    {
        Self { state, sender }
    }

    /// The state as it stands.
    pub fn state(&self) -> (r: &State)
        ensures
            r@ == self@,
    {
        &self.state
    }

    /// Updates the state as `msg` asks and computes the responses, without
    /// queueing them.
    pub fn plan(&mut self, msg: Message<MessageType>) -> (out: Vec<Message<MessageType>>)
        requires
            msg@.body.payload is Generate ==> old(self)@.id < usize::MAX,
        ensures
            final(self)@ == next_state(old(self)@, msg@),
            views(out@) == responses(old(self)@, msg@),
    {
        let kind = msg.body.payload.duplicate();
        let out = match kind {
            MessageType::Echo(echo) => CreateEchoOkUseCase::plan(&mut self.state, msg, echo),
            MessageType::Init(init) => CreateInitOkUseCase::plan(&mut self.state, msg, init),
            MessageType::Generate(generate) => CreateGenerateOkUseCase::plan(
                &mut self.state,
                msg,
                generate,
            ),
            MessageType::Topology(topology) => CreateTopologyOkUseCase::plan(
                &mut self.state,
                msg,
                topology,
            ),
            MessageType::Broadcast(broadcast) => CreateBroadcastOkUseCase::plan(
                &mut self.state,
                msg,
                broadcast,
            ),
            MessageType::Read(read) => CreateReadOkUseCase::plan(&mut self.state, msg, read),
            MessageType::Gossip(gossip) => CreateGossipOkUseCase::plan(
                &mut self.state,
                msg,
                gossip,
            ),
            _ => Vec::new(),
        };
        assert(views(out@) =~= responses(old(self)@, msg@));
        out
    }

    /// Handles `msg` through the use case of its kind: the state is updated
    /// and the responses are queued in order. An acknowledgement is ignored.
    /// Fails when the queue refuses a response; the state is updated all the
    /// same.
    pub fn handle_request(&mut self, msg: Message<MessageType>) -> (r: Result<(), SendFailed>)
        requires
            msg@.body.payload is Generate ==> old(self)@.id < usize::MAX,
        ensures
            final(self)@ == next_state(old(self)@, msg@),
            responses(old(self)@, msg@).len() == 0 ==> r is Ok,
    {
        let kind = msg.body.payload.duplicate();
        match kind {
            MessageType::Echo(echo) => {
                CreateEchoOkUseCase::new(share(&self.sender)).execute(&mut self.state, msg, echo)
            },
            MessageType::Init(init) => {
                CreateInitOkUseCase::new(share(&self.sender)).execute(&mut self.state, msg, init)
            },
            MessageType::Generate(generate) => {
                CreateGenerateOkUseCase::new(share(&self.sender)).execute(
                    &mut self.state,
                    msg,
                    generate,
                )
            },
            MessageType::Topology(topology) => {
                CreateTopologyOkUseCase::new(share(&self.sender)).execute(
                    &mut self.state,
                    msg,
                    topology,
                )
            },
            MessageType::Broadcast(broadcast) => {
                CreateBroadcastOkUseCase::new(share(&self.sender)).execute(
                    &mut self.state,
                    msg,
                    broadcast,
                )
            },
            MessageType::Read(read) => {
                CreateReadOkUseCase::new(share(&self.sender)).execute(&mut self.state, msg, read)
            },
            MessageType::Gossip(gossip) => {
                CreateGossipOkUseCase::new(share(&self.sender)).execute(
                    &mut self.state,
                    msg,
                    gossip,
                )
            },
            _ => Ok(()),
        }
    }
}

} // verus!
