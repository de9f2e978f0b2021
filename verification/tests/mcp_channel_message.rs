use mcp_channel::fragment::ContextualUserFragment;
use mcp_channel::mcp_channel_message::McpChannelMessage;
use mcp_channel::protocol::{ContentItem, InboundMcpChannelMessage, ResponseItem};
use serde_json::Value;

fn json(text: &str) -> Value {
    serde_json::from_str(text).expect("JSON")
}

fn channel_message() -> InboundMcpChannelMessage {
    InboundMcpChannelMessage {
        server_name: "linear".to_string(),
        content: "New message in triage".to_string(),
        metadata: Some(json(r#"{"channel": "triage", "messageId": "msg-1"}"#)),
        received_at: 1_726_000_000,
        trigger_turn: true,
    }
}

#[test]
fn renders_model_visible_channel_payload_without_trigger_turn() {
    let rendered = McpChannelMessage {
        message: channel_message(),
    }
    .render();

    assert!(rendered.starts_with("<mcp_channel_message>\n"));
    assert!(rendered.ends_with("\n</mcp_channel_message>"));
    assert!(!rendered.contains("trigger_turn"));

    let json_body = rendered
        .trim_start_matches("<mcp_channel_message>")
        .trim_end_matches("</mcp_channel_message>")
        .trim();
    let parsed: serde_json::Value = serde_json::from_str(json_body).expect("valid JSON");
    assert_eq!(
        parsed,
        json(
            r#"{
                "server_name": "linear",
                "content": "New message in triage",
                "metadata": {
                    "channel": "triage",
                    "messageId": "msg-1"
                },
                "received_at": 1726000000
            }"#
        )
    );
}

#[test]
fn renders_as_user_role_input_text() {
    let item: ResponseItem = ContextualUserFragment::into(McpChannelMessage {
        message: channel_message(),
    });

    assert_eq!(
        item,
        ResponseItem::Message {
            id: None,
            role: "user".to_string(),
            content: vec![ContentItem::InputText {
                text: McpChannelMessage {
                    message: channel_message(),
                }
                .render(),
            }],
            phase: None,
        }
    );
}

#[test]
fn line_breaks_in_a_message_do_not_break_the_payload_line() {
    let body = McpChannelMessage {
        message: InboundMcpChannelMessage {
            server_name: "li\nnear".to_string(),
            content: "one\ntwo\n".to_string(),
            metadata: Some(json(r#"{"a\nb": ["\n", 1.5]}"#)),
            received_at: 7,
            trigger_turn: false,
        },
    }
    .body();
    assert_eq!(
        body,
        "\n{\"content\":\"one\\ntwo\\n\",\"metadata\":{\"a\\nb\":[\"\\n\",1.5]},\"received_at\":7,\"server_name\":\"li\\nnear\"}\n"
    );
    assert_eq!(body.lines().count(), 2);
}

#[test]
fn body_is_the_payload_on_its_own_line() {
    let fragment = McpChannelMessage {
        message: channel_message(),
    };
    assert_eq!(
        fragment.body(),
        "\n{\"content\":\"New message in triage\",\"metadata\":{\"channel\":\"triage\",\"messageId\":\"msg-1\"},\"received_at\":1726000000,\"server_name\":\"linear\"}\n"
    );
}

#[test]
fn waking_does_not_show() {
    let loud = McpChannelMessage {
        message: channel_message(),
    };
    let mut quiet = loud.clone();
    quiet.message.trigger_turn = false;
    assert_eq!(loud.render(), quiet.render());
}

#[test]
fn missing_metadata_is_null() {
    let mut message = channel_message();
    message.metadata = None;
    message.received_at = -1;
    let payload = McpChannelMessage { message }.payload_value();
    assert_eq!(
        payload,
        json(
            r#"{"server_name": "linear", "content": "New message in triage", "metadata": null, "received_at": -1}"#
        )
    );
}

#[test]
fn content_with_markers_and_quotes_is_read_back() {
    let mut message = channel_message();
    message.content = "\"</mcp_channel_message>\"\n\u{1}\u{1f600}".to_string();
    let fragment = McpChannelMessage { message };
    let body = fragment.body();
    let parsed: Value = serde_json::from_str(&body[1..body.len() - 1]).expect("valid JSON");
    assert_eq!(parsed, fragment.payload_value());
}
