//! The notifications by which MCP servers push messages to the session.

use crate::json::{
    get_member, inspect, json_view, object_view, optional_view, JsonObject, JsonRef,
    JsonView,
};
use serde_json::Value;
use vstd::prelude::*;

verus! {

/// The method of a channel notification.
pub const MCP_CHANNEL_NOTIFICATION_METHOD: &'static str = "notifications/codex/channel";

/// A notification whose method the protocol does not define.
#[derive(Debug, Clone, PartialEq)]
pub struct CustomNotification {
    /// The method.
    pub method: String,
    /// The parameters, as the server sent them.
    pub params: Option<Value>,
}

/// A notification from an MCP server.
#[derive(Debug, Clone, PartialEq)]
pub enum ServerNotification {
    /// One whose method the protocol does not define.
    CustomNotification(CustomNotification),
    /// Any other.
    Standard,
}

/// The parameters of a channel notification.
#[derive(Debug, Clone, PartialEq)]
pub struct McpChannelNotificationParams {
    /// The text of the message.
    pub content: String,
    /// What the server says about the message.
    pub metadata: Option<Value>,
    /// Whether the message wakes an idle session.
    pub trigger_turn: bool,
}

/// What is wrong with the parameters of a channel notification.
#[derive(Debug, Clone, Copy, PartialEq, Eq)]
pub enum ParamsError {
    /// They are not a JSON object.
    NotAnObject,
    /// They give the metadata under both of its names.
    MetadataTwice,
    /// They give no content.
    ContentMissing,
    /// The content is not a text.
    ContentNotText,
    /// The wish to wake the session is not a boolean.
    TriggerTurnNotBool,
}

/// What becomes of a notification.
#[derive(Debug, Clone, PartialEq)]
pub enum NotificationStep {
    /// It is a channel notification, and its parameters go to the session.
    Deliver(McpChannelNotificationParams),
    /// It is a channel notification without parameters, and is dropped.
    DropWithoutParams,
    /// It is a channel notification with wrong parameters, and is dropped.
    DropMalformed(ParamsError),
    /// It is no channel notification, and goes to the general handler.
    Delegate,
}

/// What the parameters of a channel notification hold.
#[verifier::ext_equal]
pub struct ParamsView {
    pub content: Seq<char>,
    pub metadata: Option<JsonView>,
    pub trigger_turn: bool,
}

impl View for McpChannelNotificationParams {
    type V = ParamsView;

    open spec fn view(&self) -> ParamsView {
        ParamsView {
            content: self.content@,
            metadata: optional_view(self.metadata),
            trigger_turn: self.trigger_turn,
        }
    }
}

/// The value under `key`; null counts as none.
pub open spec fn non_null_member(members: Map<Seq<char>, JsonView>, key: Seq<char>) -> Option<
    JsonView,
> {
    if members.dom().contains(key) && members[key] !is Null {
        Some(members[key])
    } else {
        None
    }
}

/// The metadata, under the name `metadata` or else `meta`.
pub open spec fn metadata_member(members: Map<Seq<char>, JsonView>) -> Option<JsonView> {
    if members.dom().contains("metadata"@) {
        non_null_member(members, "metadata"@)
    } else {
        non_null_member(members, "meta"@)
    }
}

/// What JSON parameters say, or what is wrong with them. A message wakes the session unless it
/// says otherwise, and members with other names are passed over.
pub open spec fn read_params(json: JsonView) -> Result<ParamsView, ParamsError> {
    match json {
        JsonView::Object(members) => {
            if members.dom().contains("metadata"@) && members.dom().contains("meta"@) {
                Err(ParamsError::MetadataTwice)
            } else if !members.dom().contains("content"@) {
                Err(ParamsError::ContentMissing)
            } else if members["content"@] !is Text {
                Err(ParamsError::ContentNotText)
            } else if members.dom().contains("triggerTurn"@) && members["triggerTurn"@] !is Bool {
                Err(ParamsError::TriggerTurnNotBool)
            } else {
                Ok(
                    ParamsView {
                        content: members["content"@]->Text_0,
                        metadata: metadata_member(members),
                        trigger_turn: members.dom().contains("triggerTurn"@) ==> members[
                            "triggerTurn"@
                        ]->Bool_0,
                    },
                )
            }
        },
        _ => Err(ParamsError::NotAnObject),
    }
}

/// The value under `key`; null counts as none.
fn get_non_null(members: &JsonObject, key: &str) -> (value: Option<Value>)
    ensures
        optional_view(value) == non_null_member(object_view(*members), key@),
{
    match get_member(members, key) {
        Some(value) => match inspect(value) {
            JsonRef::Null => None,
            _ => Some(value.clone()),
        },
        None => None,
    }
}

impl McpChannelNotificationParams {
    /// Reads parameters from JSON; see [`read_params`].
    pub fn from_value(value: &Value) -> (params: Result<McpChannelNotificationParams, ParamsError>)
        ensures
            match params {
                Ok(params) => read_params(json_view(*value)) == Ok::<ParamsView, ParamsError>(
                    params@,
                ),
                Err(error) => read_params(json_view(*value)) == Err::<ParamsView, ParamsError>(
                    error,
                ),
            },
    {
        let members: &JsonObject = match inspect(value) {
            JsonRef::Object(members) => members,
            _ => {
                return Err(ParamsError::NotAnObject);
            },
        };
        let has_metadata = get_member(members, "metadata").is_some();
        if has_metadata && get_member(members, "meta").is_some() {
            return Err(ParamsError::MetadataTwice);
        }
        let content = match get_member(members, "content") {
            Some(content) => match inspect(content) {
                JsonRef::Text(content) => content.clone(),
                _ => {
                    return Err(ParamsError::ContentNotText);
                },
            },
            None => {
                return Err(ParamsError::ContentMissing);
            },
        };
        let trigger_turn = match get_member(members, "triggerTurn") {
            Some(trigger_turn) => match inspect(trigger_turn) {
                JsonRef::Bool(trigger_turn) => trigger_turn,
                _ => {
                    return Err(ParamsError::TriggerTurnNotBool);
                },
            },
            None => true,
        };
        let metadata = if has_metadata {
            get_non_null(members, "metadata")
        } else {
            get_non_null(members, "meta")
        };
        Ok(McpChannelNotificationParams { content, metadata, trigger_turn })
    }
}

impl ServerNotification {
    /// It is a channel notification.
    pub open spec fn is_channel(self) -> bool {
        self matches ServerNotification::CustomNotification(custom) && custom.method@
            == MCP_CHANNEL_NOTIFICATION_METHOD@
    }

    /// The parameters that came with it.
    pub open spec fn params_view(self) -> Option<JsonView> {
        match self {
            ServerNotification::CustomNotification(custom) => optional_view(custom.params),
            ServerNotification::Standard => None,
        }
    }

    /// `step` is what becomes of the notification: a channel notification is delivered if it has
    /// parameters that can be read and is dropped if not; any other goes on.
    pub open spec fn leads_to(self, step: NotificationStep) -> bool {
        match step {
            NotificationStep::Deliver(params) => self.is_channel() && self.params_view() is Some
                && read_params(self.params_view()->0) == Ok::<ParamsView, ParamsError>(params@),
            NotificationStep::DropWithoutParams => self.is_channel() && self.params_view() is None,
            NotificationStep::DropMalformed(error) => self.is_channel() && self.params_view()
                is Some && read_params(self.params_view()->0) == Err::<ParamsView, ParamsError>(
                error,
            ),
            NotificationStep::Delegate => !self.is_channel(),
        }
    }
}

impl NotificationStep {
    /// Whether the notification stops here, so that the general handler does not see it.
    pub fn consumed(&self) -> (consumed: bool)
        ensures
            consumed == (*self !is Delegate),
    {
        match self {
            NotificationStep::Delegate => false,
            _ => true,
        }
    }
}

/// Every notification has one outcome: two steps that it leads to are of one kind, deliver
/// parameters that hold the same, and drop it for the same fault.
pub proof fn law_one_outcome(
    notification: ServerNotification,
    a: NotificationStep,
    b: NotificationStep,
)
    requires
        notification.leads_to(a),
        notification.leads_to(b),
    ensures
        (a is Delegate) == (b is Delegate),
        (a is DropWithoutParams) == (b is DropWithoutParams),
        (a is DropMalformed) == (b is DropMalformed),
        a is DropMalformed ==> a == b,
        (a is Deliver) == (b is Deliver),
        a is Deliver ==> a->Deliver_0@ == b->Deliver_0@,
{
}

/// The session is handed nothing but channel notifications, and the general handler gets
/// everything else and nothing of them.
pub proof fn law_channel_notifications_are_consumed(
    notification: ServerNotification,
    step: NotificationStep,
)
    requires
        notification.leads_to(step),
    ensures
        (step !is Delegate) == notification.is_channel(),
        step is Deliver ==> notification.is_channel(),
{
}

/// Parameters read the same whether they give the metadata as `metadata` or as `meta`.
pub proof fn law_meta_is_an_alias(members: Map<Seq<char>, JsonView>, metadata: JsonView)
    requires
        !members.dom().contains("metadata"@),
        !members.dom().contains("meta"@),
    ensures
        read_params(JsonView::Object(members.insert("meta"@, metadata))) == read_params(
            JsonView::Object(members.insert("metadata"@, metadata)),
        ),
{
    reveal_strlit("metadata");
    reveal_strlit("meta");
    reveal_strlit("content");
    reveal_strlit("triggerTurn");
    assert("metadata"@.len() == 8);
    assert("meta"@.len() == 4);
    assert("content"@.len() == 7);
    assert("triggerTurn"@.len() == 11);
}

/// A message wakes the session unless its parameters say otherwise.
pub proof fn law_trigger_turn_defaults_to_true(members: Map<Seq<char>, JsonView>)
    requires
        !members.dom().contains("triggerTurn"@),
    ensures
        read_params(JsonView::Object(members)) matches Ok(params) ==> params.trigger_turn,
{
}

/// Members with other names make no difference.
pub proof fn law_other_members_are_passed_over(
    members: Map<Seq<char>, JsonView>,
    key: Seq<char>,
    value: JsonView,
)
    requires
        key != "content"@,
        key != "metadata"@,
        key != "meta"@,
        key != "triggerTurn"@,
    ensures
        read_params(JsonView::Object(members.insert(key, value))) == read_params(
            JsonView::Object(members),
        ),
{
}

/// What is read from parameters is what stands in them: the content is the text under `content`;
/// `triggerTurn`, where it is given, is kept as given, whatever else is given, and a message wakes
/// the session without it; the metadata is the value under `metadata` or `meta`, of which there is
/// at most one, and null is no metadata.
pub proof fn law_params_are_the_members(value: Value, params: McpChannelNotificationParams)
    requires
        read_params(json_view(value)) == Ok::<ParamsView, ParamsError>(params@),
    ensures
        json_view(value) is Object,
        ({
            let members = json_view(value)->Object_0;
            &&& members.dom().contains("content"@)
            &&& members["content"@] == JsonView::Text(params.content@)
            &&& members.dom().contains("triggerTurn"@) ==> members["triggerTurn"@]
                == JsonView::Bool(params.trigger_turn)
            &&& !members.dom().contains("triggerTurn"@) ==> params.trigger_turn
            &&& !(members.dom().contains("metadata"@) && members.dom().contains("meta"@))
            &&& forall|key: Seq<char>| (key == "metadata"@ || key == "meta"@) && #[trigger]
                members.dom().contains(key) ==> match params.metadata {
                    Some(metadata) => json_view(metadata) == members[key] && members[key]
                        != JsonView::Null,
                    None => members[key] == JsonView::Null,
                }
            &&& !members.dom().contains("metadata"@) && !members.dom().contains("meta"@)
                ==> params.metadata is None
        }),
{
}

/// Parameters are read whenever they are an object with a text as its content, with a boolean as
/// its wish to wake the session if it has one, and with metadata under one name at most.
pub proof fn law_good_params_are_read(members: Map<Seq<char>, JsonView>)
    requires
        members.dom().contains("content"@),
        members["content"@] is Text,
        members.dom().contains("triggerTurn"@) ==> members["triggerTurn"@] is Bool,
        !(members.dom().contains("metadata"@) && members.dom().contains("meta"@)),
    ensures
        read_params(JsonView::Object(members)) is Ok,
{
}

/// Parameters are refused for a fault that they have.
pub proof fn law_refused_params_have_the_fault(json: JsonView, error: ParamsError)
    requires
        read_params(json) == Err::<ParamsView, ParamsError>(error),
    ensures
        match error {
            ParamsError::NotAnObject => json !is Object,
            ParamsError::MetadataTwice => json is Object && json->Object_0.dom().contains(
                "metadata"@,
            ) && json->Object_0.dom().contains("meta"@),
            ParamsError::ContentMissing => json is Object && !json->Object_0.dom().contains(
                "content"@,
            ),
            ParamsError::ContentNotText => json is Object && json->Object_0.dom().contains(
                "content"@,
            ) && json->Object_0["content"@] !is Text,
            ParamsError::TriggerTurnNotBool => json is Object && json->Object_0.dom().contains(
                "triggerTurn"@,
            ) && json->Object_0["triggerTurn"@] !is Bool,
        },
{
}

/// What is delivered to the session comes from a channel notification and is what stands in its
/// parameters: the content, the wish to wake the session and the metadata, each as the server
/// gave it.
pub proof fn law_delivered_as_the_server_said(
    notification: ServerNotification,
    params: McpChannelNotificationParams,
)
    requires
        notification.leads_to(NotificationStep::Deliver(params)),
    ensures
        notification is CustomNotification,
        ({
            let custom = notification->CustomNotification_0;
            let members = json_view(custom.params->0)->Object_0;
            &&& custom.method@ == "notifications/codex/channel"@
            &&& custom.params is Some
            &&& json_view(custom.params->0) is Object
            &&& members.dom().contains("content"@)
            &&& members["content"@] == JsonView::Text(params.content@)
            &&& members.dom().contains("triggerTurn"@) ==> members["triggerTurn"@]
                == JsonView::Bool(params.trigger_turn)
            &&& !members.dom().contains("triggerTurn"@) ==> params.trigger_turn
            &&& forall|key: Seq<char>| (key == "metadata"@ || key == "meta"@) && #[trigger]
                members.dom().contains(key) ==> match params.metadata {
                    Some(metadata) => json_view(metadata) == members[key] && members[key]
                        != JsonView::Null,
                    None => members[key] == JsonView::Null,
                }
            &&& !members.dom().contains("metadata"@) && !members.dom().contains("meta"@)
                ==> params.metadata is None
        }),
{
    law_params_are_the_members(notification->CustomNotification_0.params->0, params);
}

/// A notification is passed on exactly if its method is another than that of a channel
/// notification. A channel notification is dropped for want of parameters exactly if it has none,
/// and is delivered if its parameters are good ones.
pub proof fn law_what_becomes_of_a_notification(
    notification: ServerNotification,
    step: NotificationStep,
)
    requires
        notification.leads_to(step),
    ensures
        match notification {
            ServerNotification::Standard => step is Delegate,
            ServerNotification::CustomNotification(custom) => {
                &&& step is Delegate <==> custom.method@ != "notifications/codex/channel"@
                &&& step is DropWithoutParams <==> custom.method@
                    == "notifications/codex/channel"@ && custom.params is None
                &&& step is Deliver <==> custom.method@ == "notifications/codex/channel"@
                    && custom.params is Some && json_view(custom.params->0) is Object && ({
                    let members = json_view(custom.params->0)->Object_0;
                    &&& members.dom().contains("content"@)
                    &&& members["content"@] is Text
                    &&& members.dom().contains("triggerTurn"@) ==> members["triggerTurn"@] is Bool
                    &&& !(members.dom().contains("metadata"@) && members.dom().contains("meta"@))
                })
            },
        },
{
}

/// A channel notification is dropped as malformed for a fault that its parameters have.
pub proof fn law_dropped_for_its_fault(notification: ServerNotification, error: ParamsError)
    requires
        notification.leads_to(NotificationStep::DropMalformed(error)),
    ensures
        notification is CustomNotification,
        ({
            let custom = notification->CustomNotification_0;
            let json = json_view(custom.params->0);
            let members = json->Object_0;
            &&& custom.method@ == "notifications/codex/channel"@
            &&& custom.params is Some
            &&& match error {
                ParamsError::NotAnObject => json !is Object,
                ParamsError::MetadataTwice => json is Object && members.dom().contains("metadata"@)
                    && members.dom().contains("meta"@),
                ParamsError::ContentMissing => json is Object && !members.dom().contains(
                    "content"@,
                ),
                ParamsError::ContentNotText => json is Object && members.dom().contains("content"@)
                    && members["content"@] !is Text,
                ParamsError::TriggerTurnNotBool => json is Object && members.dom().contains(
                    "triggerTurn"@,
                ) && members["triggerTurn"@] !is Bool,
            }
        }),
{
    law_refused_params_have_the_fault(
        json_view(notification->CustomNotification_0.params->0),
        error,
    );
}

/// Of two channel notifications that are delivered alike, both say the same of everything that is
/// delivered; one that says more or less of the metadata says null.
pub proof fn law_delivered_alike_said_alike(
    a: Map<Seq<char>, JsonView>,
    b: Map<Seq<char>, JsonView>,
)
    requires
        read_params(JsonView::Object(a)) is Ok,
        read_params(JsonView::Object(a)) == read_params(JsonView::Object(b)),
    ensures
        a["content"@] == b["content"@],
        a.dom().contains("triggerTurn"@) && b.dom().contains("triggerTurn"@) ==> a["triggerTurn"@]
            == b["triggerTurn"@],
        a.dom().contains("triggerTurn"@) && !b.dom().contains("triggerTurn"@)
            ==> a["triggerTurn"@] == JsonView::Bool(true),
        a.dom().contains("metadata"@) && b.dom().contains("metadata"@) ==> a["metadata"@]
            == b["metadata"@],
        a.dom().contains("meta"@) && b.dom().contains("metadata"@) ==> a["meta"@]
            == b["metadata"@],
        a.dom().contains("meta"@) && b.dom().contains("meta"@) ==> a["meta"@] == b["meta"@],
        a.dom().contains("metadata"@) && !b.dom().contains("metadata"@) && !b.dom().contains(
            "meta"@,
        ) ==> a["metadata"@] == JsonView::Null,
        a.dom().contains("meta"@) && !b.dom().contains("metadata"@) && !b.dom().contains(
            "meta"@,
        ) ==> a["meta"@] == JsonView::Null,
{
}

} // verus!
