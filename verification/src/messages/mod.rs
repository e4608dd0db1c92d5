//! The request and reply kinds as types of their own, and the state they
//! act on.

pub mod broadcast;
pub mod broadcast_ok;
pub mod echo;
pub mod echo_ok;
pub mod generate;
pub mod generate_ok;
pub mod gossip;
pub mod gossip_ok;
pub mod init;
pub mod init_ok;
pub mod read;
pub mod read_ok;
pub mod state;
pub mod topology;
pub mod topology_ok;

pub use crate::msg_type::Type;
pub use broadcast::Broadcast;
pub use broadcast_ok::BroadcastOk;
pub use echo::Echo;
pub use echo_ok::EchoOk;
pub use generate::Generate;
pub use generate_ok::GenerateOk;
pub use gossip::Gossip;
pub use gossip_ok::GossipOk;
pub use init::Init;
pub use init_ok::InitOk;
pub use read::Read;
pub use read_ok::ReadOk;
pub use state::{State, StateView};
pub use topology::Topology;
pub use topology_ok::TopologyOk;

use crate::names::copy_names;
use crate::payload::{copy_links, Payload, PayloadView};
use crate::sets::copy_set;
use vstd::prelude::*;

verus! {

/// A payload: one variant per kind, each around the type of that kind.
#[derive(Debug, PartialEq, Eq)]
pub enum MessageType {
    Echo(Echo),
    EchoOk(EchoOk),
    Init(Init),
    InitOk,
    Generate(Generate),
    GenerateOk(GenerateOk),
    Topology(Topology),
    TopologyOk(TopologyOk),
    Broadcast(Broadcast),
    BroadcastOk(BroadcastOk),
    Read(Read),
    ReadOk(ReadOk),
    Gossip(Gossip),
    GossipOk(GossipOk),
}

impl View for MessageType {
    type V = PayloadView;

    open spec fn view(&self) -> PayloadView {
        match *self {
            MessageType::Echo(m) => PayloadView::Echo { echo: m.echo@ },
            MessageType::EchoOk(m) => PayloadView::EchoOk { echo: m.echo@ },
            MessageType::Init(m) => PayloadView::Init {
                node_id: m.node_id@,
                node_ids: m.node_ids.deep_view(),
            },
            MessageType::InitOk => PayloadView::InitOk,
            MessageType::Generate(_) => PayloadView::Generate,
            MessageType::GenerateOk(m) => PayloadView::GenerateOk { id: m.id@ },
            MessageType::Topology(m) => PayloadView::Topology { topology: m.topology.deep_view() },
            MessageType::TopologyOk(_) => PayloadView::TopologyOk,
            MessageType::Broadcast(m) => PayloadView::Broadcast { message: m.message },
            MessageType::BroadcastOk(_) => PayloadView::BroadcastOk,
            MessageType::Read(_) => PayloadView::Read,
            MessageType::ReadOk(m) => PayloadView::ReadOk { messages: m.messages@ },
            MessageType::Gossip(m) => PayloadView::Gossip { message: m.message },
            MessageType::GossipOk(_) => PayloadView::GossipOk,
        }
    }
}

impl Type for MessageType {
    fn duplicate(&self) -> (r: Self) {
        match self {
            MessageType::Echo(m) => MessageType::Echo(Echo { echo: m.echo.clone() }),
            MessageType::EchoOk(m) => MessageType::EchoOk(EchoOk { echo: m.echo.clone() }),
            MessageType::Init(m) => MessageType::Init(
                Init { node_id: m.node_id.clone(), node_ids: copy_names(&m.node_ids) },
            ),
            MessageType::InitOk => MessageType::InitOk,
            MessageType::Generate(_) => MessageType::Generate(Generate),
            MessageType::GenerateOk(m) => MessageType::GenerateOk(GenerateOk { id: m.id.clone() }),
            MessageType::Topology(m) => MessageType::Topology(
                Topology { topology: copy_links(&m.topology) },
            ),
            MessageType::TopologyOk(_) => MessageType::TopologyOk(TopologyOk),
            MessageType::Broadcast(m) => MessageType::Broadcast(Broadcast { message: m.message }),
            MessageType::BroadcastOk(_) => MessageType::BroadcastOk(BroadcastOk),
            MessageType::Read(_) => MessageType::Read(Read),
            MessageType::ReadOk(m) => MessageType::ReadOk(
                ReadOk { messages: copy_set(&m.messages) },
            ),
            MessageType::Gossip(m) => MessageType::Gossip(Gossip { message: m.message }),
            MessageType::GossipOk(_) => MessageType::GossipOk(GossipOk),
        }
    }
}

impl MessageType {
    /// The same payload, each kind as a type of its own.
    pub fn from_payload(payload: Payload) -> (r: Self)
        ensures
            r@ == payload@,
    {
        match payload {
            Payload::Echo { echo } => MessageType::Echo(Echo { echo }),
            Payload::EchoOk { echo } => MessageType::EchoOk(EchoOk { echo }),
            Payload::Init { node_id, node_ids } => MessageType::Init(Init { node_id, node_ids }),
            Payload::InitOk => MessageType::InitOk,
            Payload::Generate => MessageType::Generate(Generate),
            Payload::GenerateOk { id } => MessageType::GenerateOk(GenerateOk { id }),
            Payload::Topology { topology } => MessageType::Topology(Topology { topology }),
            Payload::TopologyOk => MessageType::TopologyOk(TopologyOk),
            Payload::Broadcast { message } => MessageType::Broadcast(Broadcast { message }),
            Payload::BroadcastOk => MessageType::BroadcastOk(BroadcastOk),
            Payload::Read => MessageType::Read(Read),
            Payload::ReadOk { messages } => MessageType::ReadOk(ReadOk { messages }),
            Payload::Gossip { message } => MessageType::Gossip(Gossip { message }),
            Payload::GossipOk => MessageType::GossipOk(GossipOk),
        }
    }

    /// The same payload as one plain value.
    pub fn into_payload(self) -> (r: Payload)
        ensures
            r@ == self@,
    {
        match self {
            MessageType::Echo(m) => Payload::Echo { echo: m.echo },
            MessageType::EchoOk(m) => Payload::EchoOk { echo: m.echo },
            MessageType::Init(m) => Payload::Init { node_id: m.node_id, node_ids: m.node_ids },
            MessageType::InitOk => Payload::InitOk,
            MessageType::Generate(_) => Payload::Generate,
            MessageType::GenerateOk(m) => Payload::GenerateOk { id: m.id },
            MessageType::Topology(m) => Payload::Topology { topology: m.topology },
            MessageType::TopologyOk(_) => Payload::TopologyOk,
            MessageType::Broadcast(m) => Payload::Broadcast { message: m.message },
            MessageType::BroadcastOk(_) => Payload::BroadcastOk,
            MessageType::Read(_) => Payload::Read,
            MessageType::ReadOk(m) => Payload::ReadOk { messages: m.messages },
            MessageType::Gossip(m) => Payload::Gossip { message: m.message },
            MessageType::GossipOk(_) => Payload::GossipOk,
        }
    }
}

impl Clone for MessageType {
    fn clone(&self) -> (r: Self)
        ensures
            r@ == self@,
    {
        self.duplicate()
    }
}

impl Default for MessageType {
    /// The payload of a bare acknowledgement.
    fn default() -> (r: Self)
        ensures
            r == MessageType::InitOk,
    {
        MessageType::InitOk
    }
}

} // verus!
