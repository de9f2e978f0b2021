use mcp_channel::notification::{
    CustomNotification, McpChannelNotificationParams, NotificationStep, ParamsError,
    ServerNotification, MCP_CHANNEL_NOTIFICATION_METHOD,
};
use mcp_channel::service::{ElicitationClientService, ElicitationPauseState};
use serde_json::Value;

fn json(text: &str) -> Value {
    serde_json::from_str(text).expect("JSON")
}

fn step(method: &str, params: Option<&str>) -> NotificationStep {
    let mut pause_state = ElicitationPauseState::new();
    ElicitationClientService::new(&mut pause_state).handle_mcp_channel_notification(
        &ServerNotification::CustomNotification(CustomNotification {
            method: method.to_string(),
            params: params.map(json),
        }),
    )
}

fn read(params: &str) -> Result<McpChannelNotificationParams, ParamsError> {
    McpChannelNotificationParams::from_value(&json(params))
}

#[test]
fn mcp_channel_notification_calls_callback_with_parsed_params() {
    let step = step(
        MCP_CHANNEL_NOTIFICATION_METHOD,
        Some(r#"{"content": "hello", "metadata": { "sender": "alice" }, "triggerTurn": false}"#),
    );

    assert_eq!(step.consumed(), true);
    assert_eq!(
        step,
        NotificationStep::Deliver(McpChannelNotificationParams {
            content: "hello".to_string(),
            metadata: Some(json(r#"{ "sender": "alice" }"#)),
            trigger_turn: false,
        })
    );
}

#[test]
fn mcp_channel_notification_accepts_meta_alias_and_defaults_trigger_turn() {
    let step = step(
        MCP_CHANNEL_NOTIFICATION_METHOD,
        Some(r#"{"content": "hello", "meta": { "channel": "support" }}"#),
    );

    assert_eq!(step.consumed(), true);
    assert_eq!(
        step,
        NotificationStep::Deliver(McpChannelNotificationParams {
            content: "hello".to_string(),
            metadata: Some(json(r#"{ "channel": "support" }"#)),
            trigger_turn: true,
        })
    );
}

#[test]
fn unknown_mcp_channel_custom_notification_is_not_consumed() {
    let step = step("notifications/example", Some(r#"{ "content": "hi" }"#));

    assert_eq!(step.consumed(), false);
    assert_eq!(step, NotificationStep::Delegate);
}

#[test]
fn malformed_mcp_channel_notification_is_consumed_without_callback() {
    let step = step(
        MCP_CHANNEL_NOTIFICATION_METHOD,
        Some(r#"{ "metadata": { "sender": "alice" } }"#),
    );

    assert_eq!(step.consumed(), true);
    assert_eq!(
        step,
        NotificationStep::DropMalformed(ParamsError::ContentMissing)
    );
}

#[test]
fn mcp_channel_notification_missing_params_is_consumed_without_callback() {
    let step = step(MCP_CHANNEL_NOTIFICATION_METHOD, None);

    assert_eq!(step.consumed(), true);
    assert_eq!(step, NotificationStep::DropWithoutParams);
}

#[test]
fn standard_notifications_are_passed_on() {
    let mut pause_state = ElicitationPauseState::new();
    let service = ElicitationClientService::new(&mut pause_state);
    let step = service.handle_mcp_channel_notification(&ServerNotification::Standard);
    assert_eq!(step, NotificationStep::Delegate);
    assert_eq!(step.consumed(), false);
}

#[test]
fn the_method_is_the_documented_one() {
    assert_eq!(
        MCP_CHANNEL_NOTIFICATION_METHOD,
        "notifications/codex/channel"
    );
}

#[test]
fn the_documented_example_is_delivered() {
    let read = read(
        r#"{
            "content": "Inbound message from the example MCP channel server",
            "meta": {
                "channel": "example",
                "messageId": "example-1",
                "sender": "mcp-channel-server"
            },
            "triggerTurn": true
        }"#,
    )
    .expect("params");
    assert_eq!(
        read.content,
        "Inbound message from the example MCP channel server"
    );
    assert_eq!(read.metadata.expect("metadata")["messageId"], "example-1");
    assert!(read.trigger_turn);
}

#[test]
fn each_fault_is_told() {
    assert_eq!(read("[]"), Err(ParamsError::NotAnObject));
    assert_eq!(read("\"hello\""), Err(ParamsError::NotAnObject));
    assert_eq!(read("null"), Err(ParamsError::NotAnObject));
    assert_eq!(read("{}"), Err(ParamsError::ContentMissing));
    assert_eq!(
        read(r#"{"content": null}"#),
        Err(ParamsError::ContentNotText)
    );
    assert_eq!(read(r#"{"content": 3}"#), Err(ParamsError::ContentNotText));
    assert_eq!(
        read(r#"{"content": "a", "triggerTurn": "yes"}"#),
        Err(ParamsError::TriggerTurnNotBool)
    );
    assert_eq!(
        read(r#"{"content": "a", "triggerTurn": null}"#),
        Err(ParamsError::TriggerTurnNotBool)
    );
    assert_eq!(
        read(r#"{"content": "a", "meta": 1, "metadata": 1}"#),
        Err(ParamsError::MetadataTwice)
    );
}

#[test]
fn null_metadata_is_none() {
    assert_eq!(read(r#"{"content": "a", "meta": null}"#), read(r#"{"content": "a"}"#));
    assert_eq!(
        read(r#"{"content": "a", "metadata": null}"#),
        Ok(McpChannelNotificationParams {
            content: "a".to_string(),
            metadata: None,
            trigger_turn: true,
        })
    );
}

#[test]
fn meta_reads_as_metadata() {
    assert_eq!(
        read(r#"{"content": "a", "meta": [1.5, {"k": null}]}"#),
        read(r#"{"content": "a", "metadata": [1.5, {"k": null}]}"#)
    );
}

#[test]
fn other_members_are_passed_over() {
    assert_eq!(
        read(r#"{"content": "a", "trigger_turn": false, "extra": {}}"#),
        read(r#"{"content": "a"}"#)
    );
}
