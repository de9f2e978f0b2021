//! Messages that MCP servers push to a session.
//!
//! A server pushes a message with a channel notification ([`notification`], [`service`]). It waits
//! in the mailbox of an agent, beside messages from other agents ([`mailbox`], [`inter_agent`]),
//! until a turn shows it to the model as a fragment of context ([`mcp_channel_message`],
//! [`fragment`], [`contextual_user_message`]). The client that gets the notifications also passes
//! on what servers ask of the user ([`elicitation`]).

pub mod channel;
pub mod contextual_user_message;
pub mod elicitation;
pub mod fragment;
pub mod inter_agent;
pub mod json;
pub mod mailbox;
pub mod mcp_channel_message;
pub mod notification;
pub mod protocol;
pub mod service;
pub mod text;
