use crate::message::{views, Message, MessageView};
use crate::messages::{Echo, EchoOk, MessageType, State, StateView};
use crate::outbound::SendFailed;
use crate::payload::PayloadView;
use super::{deliver, make_reply, reply_to, UseCase};
use std::sync::mpsc::Sender;
use vstd::prelude::*;

verus! {

/// Answers an echo with the text it carried.
#[derive(Debug)]
pub struct CreateEchoOkUseCase {
    sender: Sender<Message<MessageType>>,
}

impl UseCase<Echo> for CreateEchoOkUseCase {
    open spec fn admits(state: StateView) -> bool {
        true
    }

    open spec fn next_state(
        state: StateView,
        msg: MessageView<PayloadView>,
        msg_type: Echo,
    ) -> StateView {
        state
    }

    open spec fn responses(
        state: StateView,
        msg: MessageView<PayloadView>,
        msg_type: Echo,
    ) -> Seq<MessageView<PayloadView>> {
        seq![reply_to(msg, PayloadView::EchoOk { echo: msg_type.echo@ })]
    }

    fn new(sender: Sender<Message<MessageType>>) -> (r: Self) {
        Self { sender }
    }

    fn plan(state: &mut State, msg: Message<MessageType>, msg_type: Echo) -> (out: Vec<
        Message<MessageType>,
    >) {
        let answer = make_reply(msg, MessageType::EchoOk(EchoOk { echo: msg_type.echo }));
        let out = vec![answer];
        assert(views(out@) =~= Self::responses(old(state)@, msg@, msg_type));
        out
    }

    fn execute(&self, state: &mut State, msg: Message<MessageType>, msg_type: Echo) -> (r:
        Result<(), SendFailed>) {
        let out = Self::plan(state, msg, msg_type);
        deliver(&self.sender, out)
    }

    closed spec fn sender(&self) -> Sender<Message<MessageType>> {
        self.sender
    }
}

} // verus!
