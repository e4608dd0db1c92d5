//! A single participant of a gossip-based broadcast system.
//!
//! A node receives request envelopes, updates its replicated state and hands
//! the envelopes it wants delivered to an outbound queue. The crate offers
//! the node in four forms of growing capability: a stateless responder
//! ([`echo`]), a node that forwards each new value to its peers ([`node`]), a
//! controller that routes requests to one use case per kind ([`controller`],
//! [`use_case`], [`messages`]), and a node that gossips its whole known set so
//! that lost messages heal ([`model`]).
//!
//! Every form states what a request does to the state and which messages
//! answer it as functions on mathematical models, and the handlers are
//! proved against them. [`codec`] and [`model::wire`] lay messages out as
//! JSON documents and read them back; [`laws`] holds what follows for every
//! node, whatever it is sent.

pub mod body;
pub mod codec;
pub mod controller;
pub mod echo;
pub mod ident;
pub mod laws;
pub mod message;
pub mod messages;
pub mod model;
pub mod msg_type;
pub mod names;
pub mod node;
pub mod outbound;
pub mod payload;
pub mod sets;
pub mod use_case;
