use mcp_channel::contextual_user_message::{
    is_contextual_user_fragment, is_memory_excluded_contextual_user_fragment,
};
use mcp_channel::fragment::{
    ContextualUserFragment, EnvironmentContext, FragmentMarkers, SkillInstructions,
    SubagentNotification, UserInstructions,
};
use mcp_channel::mcp_channel_message::McpChannelMessage;
use mcp_channel::protocol::{ContentItem, InboundMcpChannelMessage};
use mcp_channel::text::text_is_marked;

#[test]
fn detects_environment_context_fragment() {
    assert!(is_contextual_user_fragment(
        &ContentItem::InputText {
            text: "<environment_context>\n<cwd>/tmp</cwd>\n</environment_context>".to_string(),
        },
        /*hook_prompt*/ false,
    ));
}

#[test]
fn detects_agents_instructions_fragment() {
    assert!(is_contextual_user_fragment(
        &ContentItem::InputText {
            text: "# AGENTS.md instructions for /tmp\n\n<INSTRUCTIONS>\nbody\n</INSTRUCTIONS>"
                .to_string(),
        },
        /*hook_prompt*/ false,
    ));
}

#[test]
fn detects_subagent_notification_fragment_case_insensitively() {
    assert!(SubagentNotification::matches_text(
        "<SUBAGENT_NOTIFICATION>{}</subagent_notification>"
    ));
}

#[test]
fn detects_mcp_channel_message_fragment_case_insensitively() {
    assert!(McpChannelMessage::matches_text(
        "<MCP_CHANNEL_MESSAGE>{}</mcp_channel_message>"
    ));
}

#[test]
fn recognizes_mcp_channel_message_as_contextual_and_memory_visible() {
    let text = McpChannelMessage {
        message: InboundMcpChannelMessage {
            server_name: "slack".to_string(),
            content: "Reply needed".to_string(),
            metadata: Some(serde_json::from_str(r#"{"thread": "abc"}"#).expect("JSON")),
            received_at: 1_726_000_001,
            trigger_turn: false,
        },
    }
    .render();
    let content_item = ContentItem::InputText { text };

    assert!(is_contextual_user_fragment(
        &content_item,
        /*hook_prompt*/ false
    ));
    assert!(!is_memory_excluded_contextual_user_fragment(&content_item));
}

#[test]
fn ignores_regular_user_text() {
    assert!(!is_contextual_user_fragment(
        &ContentItem::InputText {
            text: "hello".to_string(),
        },
        /*hook_prompt*/ false,
    ));
}

#[test]
fn classifies_memory_excluded_fragments() {
    let cases = [
        (
            "# AGENTS.md instructions for /tmp\n\n<INSTRUCTIONS>\nbody\n</INSTRUCTIONS>",
            true,
        ),
        (
            "<skill>\n<name>demo</name>\n<path>skills/demo/SKILL.md</path>\nbody\n</skill>",
            true,
        ),
        (
            "<environment_context>\n<cwd>/tmp</cwd>\n</environment_context>",
            false,
        ),
        (
            "<subagent_notification>{\"agent_id\":\"a\",\"status\":\"completed\"}</subagent_notification>",
            false,
        ),
        (
            "<mcp_channel_message>{\"server_name\":\"slack\",\"content\":\"hello\",\"metadata\":null,\"received_at\":1726000001}</mcp_channel_message>",
            false,
        ),
    ];

    for (text, expected) in cases {
        assert_eq!(
            is_memory_excluded_contextual_user_fragment(&ContentItem::InputText {
                text: text.to_string(),
            }),
            expected,
            "{text}",
        );
    }
}

#[test]
fn only_text_for_the_model_is_context() {
    let text = "<skill>body</skill>".to_string();
    for item in [
        ContentItem::OutputText { text: text.clone() },
        ContentItem::InputImage { image_url: text },
    ] {
        assert!(!is_contextual_user_fragment(&item, false));
        assert!(!is_contextual_user_fragment(&item, true));
        assert!(!is_memory_excluded_contextual_user_fragment(&item));
    }
}

#[test]
fn a_hook_prompt_is_context() {
    let item = ContentItem::InputText {
        text: r#"Retry with "waves" & <tides>"#.to_string(),
    };
    assert!(is_contextual_user_fragment(&item, /*hook_prompt*/ true));
    assert!(!is_contextual_user_fragment(&item, /*hook_prompt*/ false));
    assert!(!is_memory_excluded_contextual_user_fragment(&item));
}

#[test]
fn white_space_around_a_fragment_does_not_hide_it() {
    assert!(EnvironmentContext::matches_text(
        " \n\u{3000}<environment_context>x</environment_context>\t\r\n"
    ));
    assert!(!EnvironmentContext::matches_text(
        "say <environment_context>x</environment_context>"
    ));
}

#[test]
fn both_markers_are_needed() {
    assert!(!SkillInstructions::matches_text("<skill>body"));
    assert!(!SkillInstructions::matches_text("body</skill>"));
    assert!(!SkillInstructions::matches_text(""));
    assert!(!SkillInstructions::matches_text("   "));
    assert!(!SkillInstructions::matches_text("<skill"));
    assert!(SkillInstructions::matches_text("<skill></skill>"));
    assert!(!UserInstructions::matches_text("# AGENTS.md instructions for /tmp"));
}

#[test]
fn case_matters_only_beyond_ascii() {
    assert!(text_is_marked("ABC body XYZ", "abc", "xyz"));
    assert!(text_is_marked("abc body xyz", "ABC", "XYZ"));
    assert!(!text_is_marked("\u{c4}bc", "\u{e4}", "c"));
    assert!(text_is_marked("\u{e4}bc", "\u{e4}", "C"));
    assert!(!text_is_marked("@x", "`", "x"));
}

#[test]
fn empty_markers_mark_nothing() {
    assert!(!text_is_marked("text", "", "t"));
    assert!(!text_is_marked("text", "t", ""));
}

#[test]
fn markers_may_overlap() {
    assert!(text_is_marked("aba", "ab", "ba"));
}
