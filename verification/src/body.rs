//! The body of a message: correlation ids around a payload.

use crate::msg_type::Type;
use vstd::prelude::*;

verus! {

/// The model of a body.
pub struct BodyView<V> {
    pub msg_id: Option<usize>,
    pub in_reply_to: Option<usize>,
    pub payload: V,
}

/// What a message carries: its own id, the id of the request it answers, and
/// the payload.
#[derive(Debug, Clone, PartialEq, Eq)]
pub struct Body<P> {
    pub msg_id: Option<usize>,
    pub in_reply_to: Option<usize>,
    pub payload: P,
}

impl<P: Type> View for Body<P> {
    type V = BodyView<P::V>;

    open spec fn view(&self) -> BodyView<P::V> {
        BodyView { msg_id: self.msg_id, in_reply_to: self.in_reply_to, payload: self.payload@ }
    }
}

impl<P: Type> Body<P> {
    pub fn new(msg_id: Option<usize>, in_reply_to: Option<usize>, payload: P) -> (r: Self)
        ensures
            r == (Body { msg_id, in_reply_to, payload }),
    {
        Self { msg_id, in_reply_to, payload }
    }

    /// An independent copy with the same model.
    pub fn duplicate(&self) -> (r: Self)
        ensures
            r@ == self@,
    {
        Body {
            msg_id: self.msg_id,
            in_reply_to: self.in_reply_to,
            payload: self.payload.duplicate(),
        }
    }
}

impl<P: Type + Default> Default for Body<P> {
    /// A body without ids around the default payload.
    fn default() -> (r: Self)
        ensures
            r.msg_id is None,
            r.in_reply_to is None,
    {
        Body { msg_id: None, in_reply_to: None, payload: P::default() }
    }
}

} // verus!
