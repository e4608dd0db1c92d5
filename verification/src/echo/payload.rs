//! The kinds a stateless responder understands.

use crate::msg_type::Type;
use crate::names::copy_names;
use crate::payload::PayloadView;
use vstd::prelude::*;

verus! {

/// Echo, initialisation and the request for an id, each with its
/// acknowledgement.
#[derive(Debug, PartialEq, Eq)]
pub enum Payload {
    Echo { echo: String },
    EchoOk { echo: String },
    Init { node_id: String, node_ids: Vec<String> },
    InitOk,
    Generate,
    GenerateOk { id: String },
}

impl View for Payload {
    type V = PayloadView;

    open spec fn view(&self) -> PayloadView {
        match *self {
            Payload::Echo { echo } => PayloadView::Echo { echo: echo@ },
            Payload::EchoOk { echo } => PayloadView::EchoOk { echo: echo@ },
            Payload::Init { node_id, node_ids } => PayloadView::Init {
                node_id: node_id@,
                node_ids: node_ids.deep_view(),
            },
            Payload::InitOk => PayloadView::InitOk,
            Payload::Generate => PayloadView::Generate,
            Payload::GenerateOk { id } => PayloadView::GenerateOk { id: id@ },
        }
    }
}

impl Type for Payload {
    fn duplicate(&self) -> (r: Self) {
        match self {
            Payload::Echo { echo } => Payload::Echo { echo: echo.clone() },
            Payload::EchoOk { echo } => Payload::EchoOk { echo: echo.clone() },
            Payload::Init { node_id, node_ids } => Payload::Init {
                node_id: node_id.clone(),
                node_ids: copy_names(node_ids),
            },
            Payload::InitOk => Payload::InitOk,
            Payload::Generate => Payload::Generate,
            Payload::GenerateOk { id } => Payload::GenerateOk { id: id.clone() },
        }
    }
}

impl Clone for Payload {
    fn clone(&self) -> (r: Self)
        ensures
            r@ == self@,
    {
        self.duplicate()
    }
}

impl Default for Payload {
    /// The payload of a bare acknowledgement.
    fn default() -> (r: Self)
        ensures
            r == Payload::InitOk,
    {
        Payload::InitOk
    }
}

} // verus!
