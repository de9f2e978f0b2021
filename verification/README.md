# mcp_channel

Messages that MCP servers push to a session: how they are received, queued and shown to the model.
The library is written in Rust and verified with Verus.

- `src/notification.rs`, `src/service.rs`: what the client of a server does with its notifications
  and requests.
- `src/elicitation.rs`: requests for input from the user, and the answers to them.
- `src/mailbox.rs`: the mailbox of an agent, on the channels of `tokio` (`src/channel.rs`).
- `src/inter_agent.rs`, `src/mcp_channel_message.rs`: mail as the model reads it.
- `src/fragment.rs`, `src/text.rs`, `src/contextual_user_message.rs`: fragments of context, and how
  they are told from what a user wrote.
- `src/json.rs`: JSON values, on `serde_json`.
- `app/`: the client as an `rmcp` service, and the mailbox shared between tasks.

What is assumed of `serde_json`, `rmcp` and `tokio` stands in the contracts of the items marked
`external_body` or `assume_specification` in `src/json.rs`, `src/elicitation.rs` and `src/channel.rs`.
