use mcp_channel::protocol::{ContentItem, InterAgentCommunication, ResponseInputItem};

fn message() -> InterAgentCommunication {
    InterAgentCommunication::new(
        "/root".to_string(),
        "/root/worker".to_string(),
        vec!["/root/other".to_string(), "/root/third".to_string()],
        "look at \"this\"\n".to_string(),
        true,
    )
}

fn read(text: &str) -> Option<InterAgentCommunication> {
    InterAgentCommunication::from_message_content(&[ContentItem::OutputText {
        text: text.to_string(),
    }])
}

#[test]
fn envelope_is_an_assistant_message_in_json() {
    let ResponseInputItem::Message { role, content } = message().to_response_input_item();
    assert_eq!(role, "assistant");
    let [ContentItem::OutputText { text }] = content.as_slice() else {
        panic!("expected one output text");
    };
    let json: serde_json::Value = serde_json::from_str(text).expect("JSON");
    assert_eq!(json["author"], "/root");
    assert_eq!(json["recipient"], "/root/worker");
    assert_eq!(json["other_recipients"][1], "/root/third");
    assert_eq!(json["content"], "look at \"this\"\n");
    assert_eq!(json["trigger_turn"], true);
}

#[test]
fn envelope_reads_back() {
    let ResponseInputItem::Message { content, .. } = message().to_response_input_item();
    assert_eq!(
        InterAgentCommunication::from_message_content(&content),
        Some(message())
    );
}

#[test]
fn envelope_reads_back_from_input_text() {
    let text = message().envelope_value().to_string();
    assert_eq!(
        InterAgentCommunication::from_message_content(&[ContentItem::InputText { text }]),
        Some(message())
    );
}

#[test]
fn missing_other_recipients_are_none() {
    let json = r#"{"author":"a","recipient":"b","content":"c","trigger_turn":false}"#;
    let read = read(json).expect("envelope");
    assert_eq!(read.author, "a");
    assert_eq!(read.other_recipients, Vec::<String>::new());
    assert!(!read.trigger_turn);
}

#[test]
fn other_texts_are_no_envelopes() {
    assert_eq!(read("hello"), None);
    assert_eq!(read("<a>"), None);
    assert_eq!(read(""), None);
    assert_eq!(read("[]"), None);
    assert_eq!(read("{}"), None);
    assert_eq!(
        read(r#"{"recipient":"b","content":"c","trigger_turn":false}"#),
        None
    );
    assert_eq!(
        read(r#"{"author":"a","recipient":"b","content":1,"trigger_turn":false}"#),
        None
    );
    assert_eq!(
        read(r#"{"author":"a","recipient":"b","content":"c","trigger_turn":null}"#),
        None
    );
    assert_eq!(
        read(
            r#"{"author":"a","recipient":"b","other_recipients":["x",1],"content":"c","trigger_turn":true}"#
        ),
        None
    );
}

#[test]
fn other_contents_are_no_envelopes() {
    let text = message().envelope_value().to_string();
    let item = ContentItem::InputText { text: text.clone() };
    assert_eq!(InterAgentCommunication::from_message_content(&[]), None);
    assert_eq!(
        InterAgentCommunication::from_message_content(&[item.clone(), item]),
        None
    );
    assert_eq!(
        InterAgentCommunication::from_message_content(&[ContentItem::InputImage {
            image_url: text
        }]),
        None
    );
}
