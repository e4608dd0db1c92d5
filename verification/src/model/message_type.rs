//! Requests, responses and errors.

use crate::names::copy_names;
use crate::payload::{copy_links, Links, LinksView};
use crate::sets::copy_set;
use std::collections::HashSet;
use vstd::prelude::*;

verus! {

/// The model of a request.
pub enum RequestView {
    Echo { echo: Seq<char> },
    Init { node_id: Seq<char>, node_ids: Seq<Seq<char>> },
    Generate,
    Topology { topology: LinksView },
    Read,
    Broadcast { message: usize },
    Gossip { message: Set<usize> },
}

/// The model of a response. The values of `ReadOk` are a set: the order in
/// which they are listed carries no meaning.
pub enum ResponseView {
    EchoOk { echo: Seq<char> },
    InitOk,
    GenerateOk { id: Seq<char> },
    TopologyOk,
    ReadOk { messages: Set<usize> },
    BroadcastOk,
}

/// The model of a payload.
pub enum MessageTypeView {
    Request(RequestView),
    Response(ResponseView),
    Error { code: u64, text: Seq<char> },
}

/// What a node can be asked.
#[derive(Debug, PartialEq, Eq)]
pub enum Request {
    Echo { echo: String },
    Init { node_id: String, node_ids: Vec<String> },
    Generate,
    Topology { topology: Links },
    Read,
    Broadcast { message: usize },
    Gossip { message: HashSet<usize> },
}

/// What a node answers.
#[derive(Debug, PartialEq, Eq)]
pub enum Response {
    EchoOk { echo: String },
    InitOk,
    GenerateOk { id: String },
    TopologyOk,
    ReadOk { messages: Vec<usize> },
    BroadcastOk,
}

/// A payload: a request, a response, or an error with its code.
#[derive(Debug, PartialEq, Eq)]
pub enum MessageType {
    Request(Request),
    Response(Response),
    Error { code: u64, text: String },
}

impl View for Request {
    type V = RequestView;

    open spec fn view(&self) -> RequestView {
        match *self {
            Request::Echo { echo } => RequestView::Echo { echo: echo@ },
            Request::Init { node_id, node_ids } => RequestView::Init {
                node_id: node_id@,
                node_ids: node_ids.deep_view(),
            },
            Request::Generate => RequestView::Generate,
            Request::Topology { topology } => RequestView::Topology {
                topology: topology.deep_view(),
            },
            Request::Read => RequestView::Read,
            Request::Broadcast { message } => RequestView::Broadcast { message },
            Request::Gossip { message } => RequestView::Gossip { message: message@ },
        }
    }
}

impl View for Response {
    type V = ResponseView;

    open spec fn view(&self) -> ResponseView {
        match *self {
            Response::EchoOk { echo } => ResponseView::EchoOk { echo: echo@ },
            Response::InitOk => ResponseView::InitOk,
            Response::GenerateOk { id } => ResponseView::GenerateOk { id: id@ },
            Response::TopologyOk => ResponseView::TopologyOk,
            Response::ReadOk { messages } => ResponseView::ReadOk { messages: messages@.to_set() },
            Response::BroadcastOk => ResponseView::BroadcastOk,
        }
    }
}

impl View for MessageType {
    type V = MessageTypeView;

    open spec fn view(&self) -> MessageTypeView {
        match *self {
            MessageType::Request(request) => MessageTypeView::Request(request@),
            MessageType::Response(response) => MessageTypeView::Response(response@),
            MessageType::Error { code, text } => MessageTypeView::Error { code, text: text@ },
        }
    }
}

impl Clone for Request {
    fn clone(&self) -> (r: Self)
        ensures
            r@ == self@,
    {
        match self {
            Request::Echo { echo } => Request::Echo { echo: echo.clone() },
            Request::Init { node_id, node_ids } => Request::Init {
                node_id: node_id.clone(),
                node_ids: copy_names(node_ids),
            },
            Request::Generate => Request::Generate,
            Request::Topology { topology } => Request::Topology { topology: copy_links(topology) },
            Request::Read => Request::Read,
            Request::Broadcast { message } => Request::Broadcast { message: *message },
            Request::Gossip { message } => Request::Gossip { message: copy_set(message) },
        }
    }
}

impl Clone for Response {
    fn clone(&self) -> (r: Self)
        ensures
            r@ == self@,
            r.listed() == self.listed(),
    {
        match self {
            Response::EchoOk { echo } => Response::EchoOk { echo: echo.clone() },
            Response::InitOk => Response::InitOk,
            Response::GenerateOk { id } => Response::GenerateOk { id: id.clone() },
            Response::TopologyOk => Response::TopologyOk,
            Response::ReadOk { messages } => Response::ReadOk { messages: messages.clone() },
            Response::BroadcastOk => Response::BroadcastOk,
        }
    }
}

impl Clone for MessageType {
    fn clone(&self) -> (r: Self)
        ensures
            r@ == self@,
    {
        match self {
            MessageType::Request(request) => MessageType::Request(request.clone()),
            MessageType::Response(response) => MessageType::Response(response.clone()),
            MessageType::Error { code, text } => MessageType::Error {
                code: *code,
                text: text.clone(),
            },
        }
    }
}

impl Response {
    /// The values a `ReadOk` lists, in the order in which it lists them; empty
    /// for the other kinds.
    pub open spec fn listed(&self) -> Seq<usize> {
        match *self {
            Response::ReadOk { messages } => messages@,
            _ => Seq::empty(),
        }
    }
}

} // verus!
