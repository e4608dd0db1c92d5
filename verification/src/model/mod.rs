//! The node in its full form: it gossips every value it knows, so that a
//! peer that missed a message catches up with the next one.

pub mod body;
pub mod message;
pub mod message_type;
pub mod node;
pub mod wire;

pub use body::{Body, BodyView};
pub use message::{Message, MessageView};
pub use message_type::{MessageType, MessageTypeView, Request, RequestView, Response, ResponseView};
pub use node::{Node, NodeView, ReplyError};
