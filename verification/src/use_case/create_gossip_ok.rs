use crate::message::{views, Message, MessageView};
use crate::messages::{Gossip, MessageType, State, StateView};
use crate::outbound::SendFailed;
use crate::payload::PayloadView;
use super::{deliver, UseCase};
use std::sync::mpsc::Sender;
use vstd::prelude::*;

verus! {

/// Adds a forwarded value to the known set. Gossip goes unanswered.
#[derive(Debug)]
pub struct CreateGossipOkUseCase {
    sender: Sender<Message<MessageType>>,
}

impl UseCase<Gossip> for CreateGossipOkUseCase {
    open spec fn admits(state: StateView) -> bool {
        true
    }

    open spec fn next_state(
        state: StateView,
        msg: MessageView<PayloadView>,
        msg_type: Gossip,
    ) -> StateView {
        StateView { messages: state.messages.insert(msg_type.message), ..state }
    }

    open spec fn responses(
        state: StateView,
        msg: MessageView<PayloadView>,
        msg_type: Gossip,
    ) -> Seq<MessageView<PayloadView>> {
        Seq::empty()
    }

    fn new(sender: Sender<Message<MessageType>>) -> (r: Self) {
        Self { sender }
    }

    fn plan(state: &mut State, msg: Message<MessageType>, msg_type: Gossip) -> (out: Vec<
        Message<MessageType>,
    >) {
        state.messages.insert(msg_type.message);
        let out: Vec<Message<MessageType>> = Vec::new();
        assert(views(out@) =~= Self::responses(old(state)@, msg@, msg_type));
        out
    }

    fn execute(&self, state: &mut State, msg: Message<MessageType>, msg_type: Gossip) -> (r:
        Result<(), SendFailed>) {
        let out = Self::plan(state, msg, msg_type);
        deliver(&self.sender, out)
    }

    closed spec fn sender(&self) -> Sender<Message<MessageType>> {
        self.sender
    }
}

} // verus!
