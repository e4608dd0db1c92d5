use crate::ident::{generated_id, make_id};
use crate::message::{views, Message, MessageView};
use crate::messages::{Generate, GenerateOk, MessageType, State, StateView};
use crate::outbound::SendFailed;
use crate::payload::PayloadView;
use super::{deliver, make_reply, reply_to, UseCase};
use std::sync::mpsc::Sender;
use vstd::prelude::*;

verus! {

/// Hands out the identifier for the current counter value, then advances the
/// counter.
#[derive(Debug)]
pub struct CreateGenerateOkUseCase {
    sender: Sender<Message<MessageType>>,
}

impl UseCase<Generate> for CreateGenerateOkUseCase {
    open spec fn admits(state: StateView) -> bool {
        state.id < usize::MAX
    }

    open spec fn next_state(
        state: StateView,
        msg: MessageView<PayloadView>,
        msg_type: Generate,
    ) -> StateView {
        StateView { id: (state.id + 1) as usize, ..state }
    }

    open spec fn responses(
        state: StateView,
        msg: MessageView<PayloadView>,
        msg_type: Generate,
    ) -> Seq<MessageView<PayloadView>> {
        seq![
            reply_to(
                msg,
                PayloadView::GenerateOk { id: generated_id(state.node_id, state.id as nat) },
            ),
        ]
    }

    fn new(sender: Sender<Message<MessageType>>) -> (r: Self) {
        Self { sender }
    }

    fn plan(state: &mut State, msg: Message<MessageType>, msg_type: Generate) -> (out: Vec<
        Message<MessageType>,
    >) {
        let id = make_id(state.node_id.as_str(), state.id);
        state.id = state.id + 1;
        let answer = make_reply(msg, MessageType::GenerateOk(GenerateOk { id }));
        let out = vec![answer];
        assert(views(out@) =~= Self::responses(old(state)@, msg@, msg_type));
        out
    }

    fn execute(&self, state: &mut State, msg: Message<MessageType>, msg_type: Generate) -> (r:
        Result<(), SendFailed>) {
        let out = Self::plan(state, msg, msg_type);
        deliver(&self.sender, out)
    }

    closed spec fn sender(&self) -> Sender<Message<MessageType>> {
        self.sender
    }
}

} // verus!
