//! The envelope in which a message from one agent to another stands in the conversation.

use crate::fragment::rendered;
use crate::json::{
    array_view, begins_as_json, is_one_line, is_plain, json_parse, json_text, json_view, no_members,
    object_view, parse_depth, parsed_json, JsonView,
};
use crate::json::{
    get_member, insert_member, inspect, json_array, json_bool, json_object, json_string,
    new_object, parse_json, print_json, JsonObject, JsonRef,
};
use crate::mcp_channel_message::McpChannelMessage;
use crate::protocol::{
    is_input_text, is_output_text, ContentItem, InterAgentCommunication, ResponseInputItem,
};
use serde_json::Value;
use vstd::prelude::*;

verus! {

/// What a message from one agent to another holds.
#[verifier::ext_equal]
pub struct InterAgentView {
    pub author: Seq<char>,
    pub recipient: Seq<char>,
    pub other_recipients: Seq<Seq<char>>,
    pub content: Seq<char>,
    pub trigger_turn: bool,
}

/// The texts of some strings.
pub open spec fn texts(strings: Seq<String>) -> Seq<Seq<char>> {
    strings.map_values(|text: String| text@)
}

impl View for InterAgentCommunication {
    type V = InterAgentView;

    open spec fn view(&self) -> InterAgentView {
        InterAgentView {
            author: self.author@,
            recipient: self.recipient@,
            other_recipients: texts(self.other_recipients@),
            content: self.content@,
            trigger_turn: self.trigger_turn,
        }
    }
}

/// Some texts as a JSON array.
pub open spec fn text_array(texts: Seq<Seq<char>>) -> JsonView {
    JsonView::Array(texts.map_values(|text: Seq<char>| JsonView::Text(text)))
}

/// The message as a JSON object.
pub open spec fn envelope(message: InterAgentView) -> JsonView {
    JsonView::Object(
        no_members().insert("author"@, JsonView::Text(message.author)).insert(
            "recipient"@,
            JsonView::Text(message.recipient),
        ).insert("other_recipients"@, text_array(message.other_recipients)).insert(
            "content"@,
            JsonView::Text(message.content),
        ).insert("trigger_turn"@, JsonView::Bool(message.trigger_turn)),
    )
}

/// The text under `key`, `None` if there is none.
pub open spec fn text_member(members: Map<Seq<char>, JsonView>, key: Seq<char>) -> Option<
    Seq<char>,
> {
    if members.dom().contains(key) && members[key] is Text {
        Some(members[key]->Text_0)
    } else {
        None
    }
}

/// The boolean under `key`, `None` if there is none.
pub open spec fn bool_member(members: Map<Seq<char>, JsonView>, key: Seq<char>) -> Option<bool> {
    if members.dom().contains(key) && members[key] is Bool {
        Some(members[key]->Bool_0)
    } else {
        None
    }
}

/// The texts of an array that holds texts alone, `None` for any other value.
pub open spec fn array_texts(json: JsonView) -> Option<Seq<Seq<char>>> {
    match json {
        JsonView::Array(items) => if forall|i: int|
            0 <= i < items.len() ==> (#[trigger] items[i]) is Text {
            Some(items.map_values(|item: JsonView| item->Text_0))
        } else {
            None
        },
        _ => None,
    }
}

/// The texts of the array under `key`; none where the key is missing, `None` if it holds
/// anything else.
pub open spec fn texts_member(members: Map<Seq<char>, JsonView>, key: Seq<char>) -> Option<
    Seq<Seq<char>>,
> {
    if members.dom().contains(key) {
        array_texts(members[key])
    } else {
        Some(Seq::<Seq<char>>::empty())
    }
}

/// The message whose envelope `json` is, `None` if it is no envelope.
pub open spec fn read_envelope(json: JsonView) -> Option<InterAgentView> {
    match json {
        JsonView::Object(members) => match (
            text_member(members, "author"@),
            text_member(members, "recipient"@),
            texts_member(members, "other_recipients"@),
            text_member(members, "content"@),
            bool_member(members, "trigger_turn"@),
        ) {
            (
                Some(author),
                Some(recipient),
                Some(other_recipients),
                Some(content),
                Some(trigger_turn),
            ) => Some(
                InterAgentView { author, recipient, other_recipients, content, trigger_turn },
            ),
            _ => None,
        },
        _ => None,
    }
}

/// The message whose envelope is the content of a message in the conversation: one text, which
/// is an envelope in JSON. `None` for any other content.
pub open spec fn message_envelope(content: Seq<ContentItem>) -> Option<InterAgentView> {
    if content.len() != 1 {
        None
    } else {
        match content[0] {
            ContentItem::InputText { text } | ContentItem::OutputText { text } => match json_parse(
                text@,
            ) {
                Some(json) => read_envelope(json),
                None => None,
            },
            _ => None,
        }
    }
}

/// The text under `key`, if it is there.
fn get_text(members: &JsonObject, key: &str) -> (text: Option<String>)
    ensures
        match text {
            Some(text) => text_member(object_view(*members), key@) == Some(text@),
            None => text_member(object_view(*members), key@) is None,
        },
{
    match get_member(members, key) {
        Some(value) => match inspect(value) {
            JsonRef::Text(text) => Some(text.clone()),
            _ => None,
        },
        None => None,
    }
}

/// The boolean under `key`, if it is there.
fn get_bool(members: &JsonObject, key: &str) -> (flag: Option<bool>)
    ensures
        flag == bool_member(object_view(*members), key@),
{
    match get_member(members, key) {
        Some(value) => match inspect(value) {
            JsonRef::Bool(flag) => Some(flag),
            _ => None,
        },
        None => None,
    }
}

/// The texts of an array that holds texts alone.
fn read_texts(value: &Value) -> (strings: Option<Vec<String>>)
    ensures
        match strings {
            Some(strings) => array_texts(json_view(*value)) == Some(texts(strings@)),
            None => array_texts(json_view(*value)) is None,
        },
{
    match inspect(value) {
        JsonRef::Array(items) => {
            let ghost views = array_view(items@);
            let mut strings: Vec<String> = Vec::new();
            let mut i: usize = 0;
            while i < items.len()
                invariant
                    i <= items@.len(),
                    views == array_view(items@),
                    json_view(*value) == JsonView::Array(views),
                    strings@.len() == i,
                    forall|j: int|
                        0 <= j < i ==> #[trigger] views[j] == JsonView::Text(strings@[j]@),
                decreases items@.len() - i,
            {
                assert(views[i as int] == json_view(items@[i as int]));
                match inspect(&items[i]) {
                    JsonRef::Text(text) => {
                        strings.push(text.clone());
                    },
                    _ => {
                        return None;
                    },
                }
                i = i + 1;
            }
            assert(views.map_values(|item: JsonView| item->Text_0) =~= texts(strings@));
            Some(strings)
        },
        _ => None,
    }
}

/// The texts of the array under `key`; none where the key is missing.
fn get_texts(members: &JsonObject, key: &str) -> (strings: Option<Vec<String>>)
    ensures
        match strings {
            Some(strings) => texts_member(object_view(*members), key@) == Some(texts(strings@)),
            None => texts_member(object_view(*members), key@) is None,
        },
{
    match get_member(members, key) {
        Some(value) => read_texts(value),
        None => {
            let strings: Vec<String> = Vec::new();
            assert(texts(strings@) =~= Seq::<Seq<char>>::empty());
            Some(strings)
        },
    }
}

impl InterAgentCommunication {
    /// A message from `author` to `recipient`, with copies for `other_recipients`.
    pub fn new(
        author: String,
        recipient: String,
        other_recipients: Vec<String>,
        content: String,
        trigger_turn: bool,
    ) -> (message: InterAgentCommunication)
        ensures
            message.author == author,
            message.recipient == recipient,
            message.other_recipients == other_recipients,
            message.content == content,
            message.trigger_turn == trigger_turn,
    {
        InterAgentCommunication { author, recipient, other_recipients, content, trigger_turn }
    }

    /// The message as a JSON value.
    pub fn envelope_value(&self) -> (value: Value)
        ensures
            json_view(value) == envelope(self@),
    {
        let mut others: Vec<Value> = Vec::new();
        let mut i: usize = 0;
        while i < self.other_recipients.len()
            invariant
                i <= self.other_recipients@.len(),
                others@.len() == i,
                forall|j: int|
                    0 <= j < i ==> json_view(#[trigger] others@[j]) == JsonView::Text(
                        self.other_recipients@[j]@,
                    ),
            decreases self.other_recipients@.len() - i,
        {
            others.push(json_string(self.other_recipients[i].clone()));
            i = i + 1;
        }
        assert(array_view(others@) =~= self@.other_recipients.map_values(
            |text: Seq<char>| JsonView::Text(text),
        ));
        let mut members: JsonObject = new_object();
        insert_member(&mut members, "author", json_string(self.author.clone()));
        insert_member(&mut members, "recipient", json_string(self.recipient.clone()));
        insert_member(&mut members, "other_recipients", json_array(others));
        insert_member(&mut members, "content", json_string(self.content.clone()));
        insert_member(&mut members, "trigger_turn", json_bool(self.trigger_turn));
        json_object(members)
    }

    /// Reads a message from its JSON value.
    pub fn from_envelope_value(value: &Value) -> (message: Option<InterAgentCommunication>)
        ensures
            match message {
                Some(message) => read_envelope(json_view(*value)) == Some(message@),
                None => read_envelope(json_view(*value)) is None,
            },
    {
        match inspect(value) {
            JsonRef::Object(members) => {
                let author = get_text(members, "author");
                let recipient = get_text(members, "recipient");
                let other_recipients = get_texts(members, "other_recipients");
                let content = get_text(members, "content");
                let trigger_turn = get_bool(members, "trigger_turn");
                match (author, recipient, other_recipients, content, trigger_turn) {
                    (
                        Some(author),
                        Some(recipient),
                        Some(other_recipients),
                        Some(content),
                        Some(trigger_turn),
                    ) => Some(
                        InterAgentCommunication {
                            author,
                            recipient,
                            other_recipients,
                            content,
                            trigger_turn,
                        },
                    ),
                    _ => None,
                }
            },
            _ => None,
        }
    }

    /// The message as input of a turn: said by an assistant, in its envelope. Reading the content
    /// again gives the message back.
    pub fn to_response_input_item(&self) -> (item: ResponseInputItem)
        ensures
            item matches ResponseInputItem::Message { role, content } && role@ == "assistant"@
                && is_output_text(content@, json_text(envelope(self@))) && is_one_line(
                json_text(envelope(self@)),
            ) && json_parse(json_text(envelope(self@))) == Some(envelope(self@))
                && message_envelope(content@) == Some(self@),
    {
        proof {
            lemma_envelope_is_plain(self@);
            law_envelope_reads_back(self@);
        }
        let mut content: Vec<ContentItem> = Vec::new();
        content.push(ContentItem::OutputText { text: print_json(&self.envelope_value()) });
        ResponseInputItem::Message { role: "assistant".to_owned(), content }
    }

    /// Reads a message from the content of a message in the conversation; see
    /// [`message_envelope`].
    pub fn from_message_content(content: &[ContentItem]) -> (message: Option<
        InterAgentCommunication,
    >)
        ensures
            match message {
                Some(message) => message_envelope(content@) == Some(message@),
                None => message_envelope(content@) is None,
            },
    {
        if content.len() != 1 {
            return None;
        }
        match &content[0] {
            ContentItem::InputText { text } | ContentItem::OutputText { text } => {
                match parse_json(text.as_str()) {
                    Some(value) => Self::from_envelope_value(&value),
                    None => None,
                }
            },
            _ => None,
        }
    }
}

proof fn lemma_envelope_is_plain(message: InterAgentView)
    ensures
        is_plain(envelope(message), parse_depth()),
{
    let members = envelope(message)->Object_0;
    let inner = (parse_depth() - 1) as nat;
    let others = text_array(message.other_recipients)->Array_0;
    assert(is_plain(text_array(message.other_recipients), inner)) by {
        assert forall|i: int| 0 <= i < others.len() implies is_plain(
            #[trigger] others[i],
            (inner - 1) as nat,
        ) by {
            assert(others[i] is Text);
        }
    }
    assert forall|key: Seq<char>| #[trigger] members.dom().contains(key) implies is_plain(
        members[key],
        inner,
    ) by {
        assert(members[key] is Text || members[key] is Bool || members[key] == text_array(
            message.other_recipients,
        ));
    }
}

/// Reading an envelope gives back the message that was put into it.
pub proof fn law_envelope_reads_back(message: InterAgentView)
    ensures
        read_envelope(envelope(message)) == Some(message),
{
    reveal_strlit("author");
    reveal_strlit("recipient");
    reveal_strlit("other_recipients");
    reveal_strlit("content");
    reveal_strlit("trigger_turn");
    assert("author"@[0] == 'a');
    assert("recipient"@[0] == 'r');
    assert("other_recipients"@[0] == 'o');
    assert("content"@[0] == 'c');
    assert("trigger_turn"@[0] == 't');
    let items = text_array(message.other_recipients)->Array_0;
    assert(items.map_values(|item: JsonView| item->Text_0) =~= message.other_recipients);
}

/// A rendered message from an MCP server is never taken for a message from an agent.
pub proof fn law_channel_fragment_is_no_envelope(
    fragment: McpChannelMessage,
    content: Seq<ContentItem>,
)
    requires
        is_input_text(content, rendered(fragment)) || is_output_text(content, rendered(fragment)),
    ensures
        message_envelope(content) is None,
{
    reveal_strlit("<mcp_channel_message>");
    assert(rendered(fragment)[0] == '<');
}

/// The envelope of a message is the one JSON object that has its sender, its recipients, its
/// content and its wish to wake the recipient as members, and no others.
pub proof fn law_envelope_holds_the_message(
    message: InterAgentCommunication,
    members: Map<Seq<char>, JsonView>,
)
    requires
        forall|key: Seq<char>| #[trigger]
            members.dom().contains(key) <==> key == "author"@ || key == "recipient"@ || key
                == "other_recipients"@ || key == "content"@ || key == "trigger_turn"@,
        members["author"@] == JsonView::Text(message.author@),
        members["recipient"@] == JsonView::Text(message.recipient@),
        members["other_recipients"@] is Array,
        members["other_recipients"@]->Array_0.len() == message.other_recipients@.len(),
        forall|i: int|
            0 <= i < message.other_recipients@.len() ==> (
            #[trigger] members["other_recipients"@]->Array_0[i]) == JsonView::Text(
                message.other_recipients@[i]@,
            ),
        members["content"@] == JsonView::Text(message.content@),
        members["trigger_turn"@] == JsonView::Bool(message.trigger_turn),
    ensures
        envelope(message@) == JsonView::Object(members),
{
    reveal_strlit("author");
    reveal_strlit("recipient");
    reveal_strlit("other_recipients");
    reveal_strlit("content");
    reveal_strlit("trigger_turn");
    assert("author"@[0] == 'a');
    assert("recipient"@[0] == 'r');
    assert("other_recipients"@[0] == 'o');
    assert("content"@[0] == 'c');
    assert("trigger_turn"@[0] == 't');
    assert(text_array(message@.other_recipients)->Array_0
        =~= members["other_recipients"@]->Array_0);
    assert(envelope(message@)->Object_0 =~= members);
}

/// A message that is read from an envelope holds what stands in the envelope, and no other
/// recipients where it names none.
pub proof fn law_message_is_read_as_it_stands(json: JsonView, message: InterAgentCommunication)
    requires
        read_envelope(json) == Some(message@),
    ensures
        json is Object,
        ({
            let members = json->Object_0;
            &&& members.dom().contains("author"@)
            &&& members["author"@] == JsonView::Text(message.author@)
            &&& members.dom().contains("recipient"@)
            &&& members["recipient"@] == JsonView::Text(message.recipient@)
            &&& !members.dom().contains("other_recipients"@) ==> message.other_recipients@.len()
                == 0
            &&& members.dom().contains("other_recipients"@) ==> {
                let others = members["other_recipients"@]->Array_0;
                &&& members["other_recipients"@] is Array
                &&& others.len() == message.other_recipients@.len()
                &&& forall|i: int|
                    0 <= i < others.len() ==> #[trigger] others[i] == JsonView::Text(
                        message.other_recipients@[i]@,
                    )
            }
            &&& members.dom().contains("content"@)
            &&& members["content"@] == JsonView::Text(message.content@)
            &&& members.dom().contains("trigger_turn"@)
            &&& members["trigger_turn"@] == JsonView::Bool(message.trigger_turn)
        }),
{
    let members = json->Object_0;
    if members.dom().contains("other_recipients"@) {
        let others = members["other_recipients"@]->Array_0;
        assert(others.map_values(|item: JsonView| item->Text_0) == message@.other_recipients);
        assert forall|i: int| 0 <= i < others.len() implies #[trigger] others[i]
            == JsonView::Text(message.other_recipients@[i]@) by {
            assert(message@.other_recipients[i] == others[i]->Text_0);
        }
    } else {
        assert(message@.other_recipients.len() == 0);
    }
}

/// An object is an envelope exactly if it has a text as its sender, its recipient and its content,
/// a boolean as its wish to wake the recipient, and, if it names other recipients, texts alone.
pub proof fn law_what_is_an_envelope(members: Map<Seq<char>, JsonView>)
    ensures
        read_envelope(JsonView::Object(members)) is Some <==> {
            &&& members.dom().contains("author"@) && members["author"@] is Text
            &&& members.dom().contains("recipient"@) && members["recipient"@] is Text
            &&& members.dom().contains("content"@) && members["content"@] is Text
            &&& members.dom().contains("trigger_turn"@) && members["trigger_turn"@] is Bool
            &&& members.dom().contains("other_recipients"@) ==> members["other_recipients"@]
                is Array && forall|i: int|
                0 <= i < members["other_recipients"@]->Array_0.len() ==> (
                #[trigger] members["other_recipients"@]->Array_0[i]) is Text
        },
{
}

/// A message is read from content that is one text and holds, as JSON, the message.
pub proof fn law_message_is_read_from_one_text(
    content: Seq<ContentItem>,
    message: InterAgentCommunication,
)
    requires
        message_envelope(content) == Some(message@),
    ensures
        content.len() == 1,
        content[0] is InputText || content[0] is OutputText,
        ({
            let text = match content[0] {
                ContentItem::InputText { text } => text@,
                ContentItem::OutputText { text } => text@,
                _ => Seq::empty(),
            };
            let members = parsed_json(text)->0->Object_0;
            &&& parsed_json(text) is Some
            &&& parsed_json(text)->0 is Object
            &&& members.dom().contains("author"@)
            &&& members["author"@] == JsonView::Text(message.author@)
            &&& members.dom().contains("recipient"@)
            &&& members["recipient"@] == JsonView::Text(message.recipient@)
            &&& !members.dom().contains("other_recipients"@) ==> message.other_recipients@.len()
                == 0
            &&& members.dom().contains("other_recipients"@) ==> {
                let others = members["other_recipients"@]->Array_0;
                &&& members["other_recipients"@] is Array
                &&& others.len() == message.other_recipients@.len()
                &&& forall|i: int|
                    0 <= i < others.len() ==> #[trigger] others[i] == JsonView::Text(
                        message.other_recipients@[i]@,
                    )
            }
            &&& members.dom().contains("content"@)
            &&& members["content"@] == JsonView::Text(message.content@)
            &&& members.dom().contains("trigger_turn"@)
            &&& members["trigger_turn"@] == JsonView::Bool(message.trigger_turn)
        }),
{
    let text = match content[0] {
        ContentItem::InputText { text } => text@,
        ContentItem::OutputText { text } => text@,
        _ => Seq::empty(),
    };
    law_message_is_read_as_it_stands(parsed_json(text)->0, message);
}

/// No message is read from content only where it is not one text, or where that text holds no
/// envelope.
pub proof fn law_no_message_without_an_envelope(content: Seq<ContentItem>)
    ensures
        content.len() == 1 && content[0] is InputText ==> (message_envelope(content) is Some <==> {
            let text = content[0]->InputText_text@;
            begins_as_json(text) && parsed_json(text) is Some && read_envelope(
                parsed_json(text)->0,
            ) is Some
        }),
        content.len() == 1 && content[0] is OutputText ==> (message_envelope(content) is Some
            <==> {
            let text = content[0]->OutputText_text@;
            begins_as_json(text) && parsed_json(text) is Some && read_envelope(
                parsed_json(text)->0,
            ) is Some
        }),
        content.len() != 1 || content[0] is InputImage ==> message_envelope(content) is None,
{
}

/// Messages with the same envelope are the same.
pub proof fn law_agent_messages_are_told_apart(
    a: InterAgentCommunication,
    b: InterAgentCommunication,
)
    requires
        envelope(a@) == envelope(b@),
    ensures
        a.author@ == b.author@,
        a.recipient@ == b.recipient@,
        a.other_recipients@.len() == b.other_recipients@.len(),
        forall|i: int|
            0 <= i < a.other_recipients@.len() ==> (#[trigger] a.other_recipients@[i])@
                == b.other_recipients@[i]@,
        a.content@ == b.content@,
        a.trigger_turn == b.trigger_turn,
{
    law_envelope_reads_back(a@);
    law_envelope_reads_back(b@);
    assert(a@.other_recipients.len() == b@.other_recipients.len());
    assert forall|i: int| 0 <= i < a.other_recipients@.len() implies (
    #[trigger] a.other_recipients@[i])@ == b.other_recipients@[i]@ by {
        assert(a@.other_recipients[i] == b@.other_recipients[i]);
    }
}

} // verus!
