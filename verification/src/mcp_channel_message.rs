//! How a message from an MCP server is shown to the model.

use crate::fragment::{rendered, ContextualUserFragment, FragmentMarkers};
use crate::json::{
    insert_member, json_integer, json_null, json_object, json_string, new_object, print_json,
    JsonObject,
};
use crate::json::{
    is_one_line, is_plain, json_parse, json_text, json_view, no_members, parse_depth, parsed_json,
    JsonView,
};
use crate::protocol::{is_input_text, ContentItem, InboundMcpChannelMessage};
use serde_json::Value;
use vstd::prelude::*;

verus! {

/// A message from an MCP server as a fragment of the conversation.
#[derive(Debug, Clone, PartialEq)]
pub struct McpChannelMessage {
    /// The message.
    pub message: InboundMcpChannelMessage,
}

/// The metadata of a message as JSON: null where there is none.
pub open spec fn metadata_view(metadata: Option<Value>) -> JsonView {
    match metadata {
        Some(metadata) => json_view(metadata),
        None => JsonView::Null,
    }
}

/// The line that stands between the markers of a rendered message.
pub open spec fn payload_line(text: Seq<char>) -> Seq<char> {
    text.subrange(
        McpChannelMessage::start_marker_view().len() + 1int,
        text.len() - McpChannelMessage::end_marker_view().len() - 1,
    )
}

impl McpChannelMessage {
    /// What the model is told of the message: who sent it, what it says, what the server says
    /// about it, and when it arrived.
    pub open spec fn payload(self) -> JsonView {
        JsonView::Object(
            no_members().insert("server_name"@, JsonView::Text(self.message.server_name@)).insert(
                "content"@,
                JsonView::Text(self.message.content@),
            ).insert("metadata"@, metadata_view(self.message.metadata)).insert(
                "received_at"@,
                JsonView::Integer(self.message.received_at as int),
            ),
        )
    }

    /// The payload as a JSON value.
    pub fn payload_value(&self) -> (value: Value)
        ensures
            json_view(value) == self.payload(),
    {
        let metadata = match &self.message.metadata {
            Some(metadata) => metadata.clone(),
            None => json_null(),
        };
        let mut members: JsonObject = new_object();
        insert_member(&mut members, "server_name", json_string(self.message.server_name.clone()));
        insert_member(&mut members, "content", json_string(self.message.content.clone()));
        insert_member(&mut members, "metadata", metadata);
        insert_member(&mut members, "received_at", json_integer(self.message.received_at));
        json_object(members)
    }
}

impl FragmentMarkers for McpChannelMessage {
    open spec fn start_marker_view() -> Seq<char> {
        "<mcp_channel_message>"@
    }

    open spec fn end_marker_view() -> Seq<char> {
        "</mcp_channel_message>"@
    }

    fn start_marker() -> (marker: &'static str) {
        "<mcp_channel_message>"
    }

    fn end_marker() -> (marker: &'static str) {
        "</mcp_channel_message>"
    }
}

impl ContextualUserFragment for McpChannelMessage {
    open spec fn role_view() -> Seq<char> {
        "user"@
    }

    fn role() -> (role: &'static str) {
        "user"
    }

    /// The payload, on lines of its own.
    open spec fn body_view(&self) -> Seq<char> {
        seq!['\n'] + json_text(self.payload()) + seq!['\n']
    }

    /// Between its markers the text holds one line, which is JSON and reads as the payload, where
    /// the metadata holds no fractions and is not nested too deep for the parser.
    open spec fn reads_back_from(&self, text: Seq<char>) -> bool {
        &&& is_one_line(payload_line(text))
        &&& is_plain(self.payload(), parse_depth()) ==> json_parse(payload_line(text)) == Some(
            self.payload(),
        )
    }

    fn body(&self) -> (body: String)
        ensures
            is_one_line(json_text(self.payload())),
    {
        proof {
            reveal_strlit("\n");
        }
        let text = print_json(&self.payload_value());
        let mut body: String = "\n".to_owned();
        body.append(text.as_str());
        body.append("\n");
        assert("\n"@ =~= seq!['\n']);
        assert(payload_line(
            Self::start_marker_view() + self.body_view() + Self::end_marker_view(),
        ) =~= text@);
        body
    }
}

/// The model is told of the sender, the content, the metadata and the time of arrival of a
/// message, and of nothing else.
pub proof fn law_payload_members(fragment: McpChannelMessage)
    ensures
        fragment.payload() is Object,
        fragment.payload()->Object_0.dom() == set![
            "server_name"@,
            "content"@,
            "metadata"@,
            "received_at"@,
        ],
        fragment.payload()->Object_0["server_name"@] == JsonView::Text(
            fragment.message.server_name@,
        ),
        fragment.payload()->Object_0["content"@] == JsonView::Text(fragment.message.content@),
        fragment.payload()->Object_0["metadata"@] == metadata_view(fragment.message.metadata),
        fragment.payload()->Object_0["received_at"@] == JsonView::Integer(
            fragment.message.received_at as int,
        ),
        !fragment.payload()->Object_0.dom().contains("trigger_turn"@),
{
    reveal_strlit("server_name");
    reveal_strlit("content");
    reveal_strlit("metadata");
    reveal_strlit("received_at");
    reveal_strlit("trigger_turn");
    assert("server_name"@[0] == 's');
    assert("content"@[0] == 'c');
    assert("metadata"@[0] == 'm');
    assert("received_at"@[0] == 'r');
    assert("trigger_turn"@[0] == 't');
    assert(fragment.payload()->Object_0.dom() =~= set![
        "server_name"@,
        "content"@,
        "metadata"@,
        "received_at"@,
    ]);
}

/// The payload of a message reads back where its metadata, if it has any, holds no fractions and
/// is nested one level less deep than the parser goes.
pub proof fn law_plain_metadata_reads_back(fragment: McpChannelMessage)
    requires
        fragment.message.metadata matches Some(metadata) ==> is_plain(
            json_view(metadata),
            (parse_depth() - 1) as nat,
        ),
    ensures
        is_plain(fragment.payload(), parse_depth()),
{
    let members = fragment.payload()->Object_0;
    assert forall|key: Seq<char>| #[trigger] members.dom().contains(key) implies is_plain(
        members[key],
        (parse_depth() - 1) as nat,
    ) by {
        assert(members[key] is Text || members[key] is Integer || members[key] == metadata_view(
            fragment.message.metadata,
        ));
    }
}

/// Whether a message wakes the session does not show in what the model reads: messages that are
/// alike but for that read alike.
pub proof fn law_trigger_turn_is_not_shown(a: McpChannelMessage, b: McpChannelMessage)
    requires
        a.message.server_name@ == b.message.server_name@,
        a.message.content@ == b.message.content@,
        metadata_view(a.message.metadata) == metadata_view(b.message.metadata),
        a.message.received_at == b.message.received_at,
    ensures
        a.payload() == b.payload(),
        a.body_view() == b.body_view(),
{
}

/// The model reads the message itself: its sender, its content, its metadata, or null where it has
/// none, and the time of its arrival, as the one JSON object that has these members and no others,
/// on a line between the markers of a message from an MCP server.
pub proof fn law_rendered_as_the_message(
    fragment: McpChannelMessage,
    members: Map<Seq<char>, JsonView>,
)
    requires
        forall|key: Seq<char>| #[trigger]
            members.dom().contains(key) <==> key == "server_name"@ || key == "content"@ || key
                == "metadata"@ || key == "received_at"@,
        members["server_name"@] == JsonView::Text(fragment.message.server_name@),
        members["content"@] == JsonView::Text(fragment.message.content@),
        match fragment.message.metadata {
            Some(metadata) => members["metadata"@] == json_view(metadata),
            None => members["metadata"@] == JsonView::Null,
        },
        members["received_at"@] == JsonView::Integer(fragment.message.received_at as int),
    ensures
        fragment.payload() == JsonView::Object(members),
        fragment.body_view() == seq!['\n'] + json_text(JsonView::Object(members)) + seq!['\n'],
        rendered(fragment) == "<mcp_channel_message>"@ + (seq!['\n'] + json_text(
            JsonView::Object(members),
        ) + seq!['\n']) + "</mcp_channel_message>"@,
        McpChannelMessage::role_view() == "user"@,
{
    law_payload_members(fragment);
    assert(fragment.payload()->Object_0 =~= members);
}

/// The kind of fragment is known by the markers of a message from an MCP server.
pub proof fn law_markers_of_a_channel_message(fragment: McpChannelMessage)
    ensures
        McpChannelMessage::start_marker_view() == "<mcp_channel_message>"@,
        McpChannelMessage::end_marker_view() == "</mcp_channel_message>"@,
        rendered(fragment) == "<mcp_channel_message>"@ + fragment.body_view()
            + "</mcp_channel_message>"@,
{
}

/// As a message of the conversation a fragment is one text for the model, that of the fragment.
pub proof fn law_fragment_is_one_input_text(
    fragment: McpChannelMessage,
    content: Seq<ContentItem>,
)
    requires
        is_input_text(content, rendered(fragment)),
    ensures
        content.len() == 1,
        content[0] matches ContentItem::InputText { text } && text@ == "<mcp_channel_message>"@
            + fragment.body_view() + "</mcp_channel_message>"@,
{
}

/// Where the payload line can be read back, it reads as the message itself.
pub proof fn law_payload_line_reads_as_the_message(
    fragment: McpChannelMessage,
    members: Map<Seq<char>, JsonView>,
    text: Seq<char>,
)
    requires
        forall|key: Seq<char>| #[trigger]
            members.dom().contains(key) <==> key == "server_name"@ || key == "content"@ || key
                == "metadata"@ || key == "received_at"@,
        members["server_name"@] == JsonView::Text(fragment.message.server_name@),
        members["content"@] == JsonView::Text(fragment.message.content@),
        match fragment.message.metadata {
            Some(metadata) => members["metadata"@] == json_view(metadata),
            None => members["metadata"@] == JsonView::Null,
        },
        members["received_at"@] == JsonView::Integer(fragment.message.received_at as int),
        fragment.reads_back_from(text),
        text == rendered(fragment),
    ensures
        is_plain(JsonView::Object(members), parse_depth()) ==> parsed_json(
            json_text(JsonView::Object(members)),
        ) == Some(JsonView::Object(members)),
        forall|i: int|
            0 <= i < json_text(JsonView::Object(members)).len() ==> json_text(
                JsonView::Object(members),
            )[i] != '\n',
{
    law_rendered_as_the_message(fragment, members);
    assert(payload_line(text) =~= json_text(JsonView::Object(members)));
}

} // verus!
