use crate::message::{views, Message, MessageView};
use crate::messages::{MessageType, Read, ReadOk, State, StateView};
use crate::outbound::SendFailed;
use crate::payload::PayloadView;
use crate::sets::copy_set;
use super::{deliver, make_reply, reply_to, UseCase};
use std::sync::mpsc::Sender;
use vstd::prelude::*;

verus! {

/// Answers with a copy of the values the node knows.
#[derive(Debug)]
pub struct CreateReadOkUseCase {
    sender: Sender<Message<MessageType>>,
}

impl UseCase<Read> for CreateReadOkUseCase {
    open spec fn admits(state: StateView) -> bool {
        true
    }

    open spec fn next_state(
        state: StateView,
        msg: MessageView<PayloadView>,
        msg_type: Read,
    ) -> StateView {
        state
    }

    open spec fn responses(
        state: StateView,
        msg: MessageView<PayloadView>,
        msg_type: Read,
    ) -> Seq<MessageView<PayloadView>> {
        seq![reply_to(msg, PayloadView::ReadOk { messages: state.messages })]
    }

    fn new(sender: Sender<Message<MessageType>>) -> (r: Self) {
        Self { sender }
    }

    fn plan(state: &mut State, msg: Message<MessageType>, msg_type: Read) -> (out: Vec<
        Message<MessageType>,
    >) {
        let messages = copy_set(&state.messages);
        let answer = make_reply(msg, MessageType::ReadOk(ReadOk { messages }));
        let out = vec![answer];
        assert(views(out@) =~= Self::responses(old(state)@, msg@, msg_type));
        out
    }

    fn execute(&self, state: &mut State, msg: Message<MessageType>, msg_type: Read) -> (r:
        Result<(), SendFailed>) {
        let out = Self::plan(state, msg, msg_type);
        deliver(&self.sender, out)
    }

    closed spec fn sender(&self) -> Sender<Message<MessageType>> {
        self.sender
    }
}

} // verus!
