//! The body of a message: a payload between correlation ids.

use super::message_type::{MessageType, MessageTypeView};
use vstd::prelude::*;

verus! {

/// The model of a body.
pub struct BodyView {
    pub _type: MessageTypeView,
    pub msg_id: Option<u32>,
    pub in_reply_to: Option<u32>,
}

/// What a message carries.
#[derive(Debug, PartialEq, Eq)]
pub struct Body {
    pub _type: MessageType,
    pub msg_id: Option<u32>,
    pub in_reply_to: Option<u32>,
}

impl View for Body {
    type V = BodyView;

    open spec fn view(&self) -> BodyView {
        BodyView { _type: self._type@, msg_id: self.msg_id, in_reply_to: self.in_reply_to }
    }
}

impl Clone for Body {
    fn clone(&self) -> (r: Self)
        ensures
            r@ == self@,
    {
        Body { _type: self._type.clone(), msg_id: self.msg_id, in_reply_to: self.in_reply_to }
    }
}

impl Body {
    /// Whether the body, where it carries a `ReadOk`, lists no value twice.
    pub open spec fn lists_once(&self) -> bool {
        match self._type {
            MessageType::Response(response) => response.listed().no_duplicates(),
            _ => true,
        }
    }

    pub fn new(_type: MessageType, msg_id: Option<u32>, in_reply_to: Option<u32>) -> (r: Self)
        ensures
            r == (Body { _type, msg_id, in_reply_to }),
    {
        Self { _type, msg_id, in_reply_to }
    }

    pub fn msg_id(&self) -> (r: Option<u32>)
        ensures
            r == self.msg_id,
    {
        self.msg_id
    }

    pub fn _type(&self) -> (r: &MessageType)
        ensures
            *r == self._type,
    {
        &self._type
    }
}

} // verus!
