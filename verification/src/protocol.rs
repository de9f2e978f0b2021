//! The messages that travel between agents, servers and the model.

use crate::json::{optional_view};
use serde_json::Value;
use vstd::prelude::*;

verus! {

/// A message that an MCP server pushed to the session over its channel.
#[derive(Debug, PartialEq)]
pub struct InboundMcpChannelMessage {
    /// The server that sent the message.
    pub server_name: String,
    /// The text of the message.
    pub content: String,
    /// What the server says about the message, in a shape of its own choosing.
    pub metadata: Option<Value>,
    /// When the message arrived, in seconds since the Unix epoch.
    pub received_at: i64,
    /// Whether the message wakes an idle session.
    pub trigger_turn: bool,
}

impl Clone for InboundMcpChannelMessage {
    fn clone(&self) -> (copy: Self)
        ensures
            copy.server_name@ == self.server_name@,
            copy.content@ == self.content@,
            optional_view(copy.metadata) == optional_view(self.metadata),
            copy.received_at == self.received_at,
            copy.trigger_turn == self.trigger_turn,
    {
        let metadata = match &self.metadata {
            Some(metadata) => Some(metadata.clone()),
            None => None,
        };
        InboundMcpChannelMessage {
            server_name: self.server_name.clone(),
            content: self.content.clone(),
            metadata,
            received_at: self.received_at,
            trigger_turn: self.trigger_turn,
        }
    }
}

/// One part of the content of a message.
#[derive(Debug, Clone, PartialEq)]
pub enum ContentItem {
    /// Text that goes to the model.
    InputText { text: String },
    /// An image that goes to the model.
    InputImage { image_url: String },
    /// Text that comes from an assistant.
    OutputText { text: String },
}

/// An item that is handed to the model as input of a turn.
#[derive(Debug, Clone, PartialEq)]
pub enum ResponseInputItem {
    /// A message.
    Message { role: String, content: Vec<ContentItem> },
}

/// An item of the conversation with the model.
#[derive(Debug, Clone, PartialEq)]
pub enum ResponseItem {
    /// A message.
    Message {
        id: Option<String>,
        role: String,
        content: Vec<ContentItem>,
        phase: Option<String>,
    },
}

/// `content` is one item, and that item is this text for the model.
pub open spec fn is_input_text(content: Seq<ContentItem>, text: Seq<char>) -> bool {
    content.len() == 1 && content[0] is InputText && content[0]->InputText_text@ == text
}

/// `content` is one item, and that item is this text from an assistant.
pub open spec fn is_output_text(content: Seq<ContentItem>, text: Seq<char>) -> bool {
    content.len() == 1 && content[0] is OutputText && content[0]->OutputText_text@ == text
}

/// A message that one agent sent to another.
#[derive(Debug, Clone, PartialEq)]
pub struct InterAgentCommunication {
    /// The path of the sending agent.
    pub author: String,
    /// The path of the agent that the message is for.
    pub recipient: String,
    /// The paths of the other agents that also get the message.
    pub other_recipients: Vec<String>,
    /// The text of the message.
    pub content: String,
    /// Whether the message wakes an idle recipient.
    pub trigger_turn: bool,
}

} // verus!
