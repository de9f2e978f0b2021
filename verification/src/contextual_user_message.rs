//! Telling fragments of context from what a user wrote.

use crate::fragment::{
    rendered, ContextualUserFragment, EnvironmentContext, FragmentMarkers, SkillInstructions,
    SubagentNotification, UserInstructions,
};
use crate::mcp_channel_message::McpChannelMessage;
use crate::protocol::ContentItem;
use crate::text::{is_marked, law_framed_text_is_marked, law_markers_exclude};
use vstd::prelude::*;

verus! {

/// The text is a fragment of kind `F`.
pub open spec fn is_fragment<F: FragmentMarkers>(text: Seq<char>) -> bool {
    is_marked(text, F::start_marker_view(), F::end_marker_view())
}

/// The text is a fragment of context: it stands between the markers of one of the kinds, or it is a
/// hook prompt. `hook_prompt` says whether it reads as a hook prompt, whose format belongs to the
/// hooks.
pub open spec fn is_contextual_text(text: Seq<char>, hook_prompt: bool) -> bool {
    ||| hook_prompt
    ||| is_fragment::<UserInstructions>(text)
    ||| is_fragment::<EnvironmentContext>(text)
    ||| is_fragment::<SkillInstructions>(text)
    ||| is_fragment::<SubagentNotification>(text)
    ||| is_fragment::<McpChannelMessage>(text)
}

/// The text is a fragment that serves the prompt alone, so that memory does not keep it.
pub open spec fn is_memory_excluded_text(text: Seq<char>) -> bool {
    ||| is_fragment::<UserInstructions>(text)
    ||| is_fragment::<SkillInstructions>(text)
}

/// Whether a content item is a fragment of context. Only text for the model can be one.
/// `hook_prompt` is the answer of the hooks' own reader to the text: whether it is a hook prompt.
pub fn is_contextual_user_fragment(content_item: &ContentItem, hook_prompt: bool) -> (contextual:
    bool)
    ensures
        contextual == (content_item matches ContentItem::InputText { text } && is_contextual_text(
            text@,
            hook_prompt,
        )),
{
    match content_item {
        ContentItem::InputText { text } => {
            hook_prompt || UserInstructions::matches_text(text.as_str())
                || EnvironmentContext::matches_text(text.as_str())
                || SkillInstructions::matches_text(text.as_str())
                || SubagentNotification::matches_text(text.as_str())
                || McpChannelMessage::matches_text(text.as_str())
        },
        _ => false,
    }
}

/// Whether a content item is a fragment that memory does not keep. Instructions and skills are
/// such fragments; what the session lives through is not.
pub fn is_memory_excluded_contextual_user_fragment(content_item: &ContentItem) -> (excluded: bool)
    ensures
        excluded == (content_item matches ContentItem::InputText { text }
            && is_memory_excluded_text(text@)),
{
    match content_item {
        ContentItem::InputText { text } => {
            UserInstructions::matches_text(text.as_str()) || SkillInstructions::matches_text(
                text.as_str(),
            )
        },
        _ => false,
    }
}

/// Memory leaves out nothing but fragments of context.
pub proof fn law_memory_excluded_is_contextual(text: Seq<char>, hook_prompt: bool)
    ensures
        is_memory_excluded_text(text) ==> is_contextual_text(text, hook_prompt),
{
}

/// Memory keeps what the session lives through: its surroundings, the news of sub-agents and the
/// messages of MCP servers.
pub proof fn law_session_context_is_memory_visible(text: Seq<char>)
    requires
        is_fragment::<EnvironmentContext>(text) || is_fragment::<SubagentNotification>(text)
            || is_fragment::<McpChannelMessage>(text),
    ensures
        !is_memory_excluded_text(text),
{
    reveal_strlit("# AGENTS.md instructions for ");
    reveal_strlit("<skill>");
    reveal_strlit("<environment_context>");
    reveal_strlit("<subagent_notification>");
    reveal_strlit("<mcp_channel_message>");
    let instructions = "# AGENTS.md instructions for "@;
    let instructions_end = "</INSTRUCTIONS>"@;
    let skill = "<skill>"@;
    let skill_end = "</skill>"@;
    if is_fragment::<EnvironmentContext>(text) {
        let start = "<environment_context>"@;
        let end = "</environment_context>"@;
        law_markers_exclude(text, start, end, instructions, instructions_end, 0);
        law_markers_exclude(text, start, end, skill, skill_end, 1);
    } else if is_fragment::<SubagentNotification>(text) {
        let start = "<subagent_notification>"@;
        let end = "</subagent_notification>"@;
        law_markers_exclude(text, start, end, instructions, instructions_end, 0);
        law_markers_exclude(text, start, end, skill, skill_end, 2);
    } else {
        let start = "<mcp_channel_message>"@;
        let end = "</mcp_channel_message>"@;
        law_markers_exclude(text, start, end, instructions, instructions_end, 0);
        law_markers_exclude(text, start, end, skill, skill_end, 1);
    }
}

/// A message from an MCP server, as it is rendered, is a fragment of context that memory keeps.
pub proof fn law_channel_message_is_contextual_and_memory_visible(
    fragment: McpChannelMessage,
    hook_prompt: bool,
)
    ensures
        is_fragment::<McpChannelMessage>(rendered(fragment)),
        is_contextual_text(rendered(fragment), hook_prompt),
        !is_memory_excluded_text(rendered(fragment)),
{
    reveal_strlit("<mcp_channel_message>");
    reveal_strlit("</mcp_channel_message>");
    law_framed_text_is_marked(
        "<mcp_channel_message>"@,
        fragment.body_view(),
        "</mcp_channel_message>"@,
    );
    law_session_context_is_memory_visible(rendered(fragment));
}

/// A text is a fragment of context exactly if it is a hook prompt, or carries the markers of the
/// instructions of an `AGENTS.md` file, of the surroundings, of a skill, of the news of a sub-agent
/// or of a message from an MCP server.
pub proof fn law_context_by_its_markers(text: Seq<char>, hook_prompt: bool)
    ensures
        is_contextual_text(text, hook_prompt) <==> {
            ||| hook_prompt
            ||| is_marked(text, "# AGENTS.md instructions for "@, "</INSTRUCTIONS>"@)
            ||| is_marked(text, "<environment_context>"@, "</environment_context>"@)
            ||| is_marked(text, "<skill>"@, "</skill>"@)
            ||| is_marked(text, "<subagent_notification>"@, "</subagent_notification>"@)
            ||| is_marked(text, "<mcp_channel_message>"@, "</mcp_channel_message>"@)
        },
{
}

/// Memory leaves a text out exactly if it carries the markers of the instructions of an `AGENTS.md`
/// file or of a skill.
pub proof fn law_memory_leaves_out_by_markers(text: Seq<char>)
    ensures
        is_memory_excluded_text(text) <==> {
            ||| is_marked(text, "# AGENTS.md instructions for "@, "</INSTRUCTIONS>"@)
            ||| is_marked(text, "<skill>"@, "</skill>"@)
        },
{
}

/// Each kind of fragment has its own markers, and a text is of the kind exactly if it carries them.
pub proof fn law_markers_of_each_kind(text: Seq<char>)
    ensures
        UserInstructions::start_marker_view() == "# AGENTS.md instructions for "@,
        UserInstructions::end_marker_view() == "</INSTRUCTIONS>"@,
        EnvironmentContext::start_marker_view() == "<environment_context>"@,
        EnvironmentContext::end_marker_view() == "</environment_context>"@,
        SkillInstructions::start_marker_view() == "<skill>"@,
        SkillInstructions::end_marker_view() == "</skill>"@,
        SubagentNotification::start_marker_view() == "<subagent_notification>"@,
        SubagentNotification::end_marker_view() == "</subagent_notification>"@,
        McpChannelMessage::start_marker_view() == "<mcp_channel_message>"@,
        McpChannelMessage::end_marker_view() == "</mcp_channel_message>"@,
        is_fragment::<UserInstructions>(text) == is_marked(
            text,
            "# AGENTS.md instructions for "@,
            "</INSTRUCTIONS>"@,
        ),
        is_fragment::<EnvironmentContext>(text) == is_marked(
            text,
            "<environment_context>"@,
            "</environment_context>"@,
        ),
        is_fragment::<SkillInstructions>(text) == is_marked(text, "<skill>"@, "</skill>"@),
        is_fragment::<SubagentNotification>(text) == is_marked(
            text,
            "<subagent_notification>"@,
            "</subagent_notification>"@,
        ),
        is_fragment::<McpChannelMessage>(text) == is_marked(
            text,
            "<mcp_channel_message>"@,
            "</mcp_channel_message>"@,
        ),
{
}

} // verus!
