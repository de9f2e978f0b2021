//! Elicitations: requests of an MCP server for input from the user, and the answers to them.

use crate::json::{
    insert_member, json_object, json_string, json_view, new_object, no_members, optional_view,
    JsonObject, JsonView,
};
use rmcp::model::{ElicitationSchema, Meta};
use serde_json::Value;
use std::sync::Arc;
use vstd::prelude::*;

verus! {

/// The key under which the protocol keeps the progress token of a request.
pub const MCP_PROGRESS_TOKEN_META_KEY: &'static str = "progressToken";

/// The code of an internal error.
pub const INTERNAL_ERROR: i32 = -32603;

/// `rmcp::model::Meta`, opaque here; [`meta_view`] says what it holds.
#[verifier::external_type_specification]
#[verifier::external_body]
pub struct ExMeta(Meta);

/// `rmcp::model::ElicitationSchema`, which is carried along and never looked into.
#[verifier::external_type_specification]
#[verifier::external_body]
pub struct ExElicitationSchema(ElicitationSchema);

/// The contents of an `rmcp::model::Meta`, by their keys.
pub uninterp spec fn meta_view(meta: Meta) -> Map<Seq<char>, JsonView>;

/// The contents of metadata that may be missing.
pub open spec fn optional_meta_view(meta: Option<Meta>) -> Option<Map<Seq<char>, JsonView>> {
    match meta {
        Some(meta) => Some(meta_view(meta)),
        None => None,
    }
}

/// `rmcp::model::Meta::new`: metadata without entries.
#[verifier::external_body]
fn new_meta() -> (meta: Meta)
    ensures
        meta_view(meta) == no_members(),
{
    Meta::new()
}

/// `serde_json::Map::remove`, on the map that `rmcp::model::Meta` dereferences to: the key is
/// gone, and no other key changes.
#[verifier::external_body]
fn remove_entry(meta: &mut Meta, key: &str)
    ensures
        meta_view(*final(meta)) == meta_view(*old(meta)).remove(key@),
{
    meta.remove(key);
}

/// `serde_json::Map::is_empty`, on the map that `rmcp::model::Meta` dereferences to: whether
/// there are no entries.
#[verifier::external_body]
fn has_no_entries(meta: &Meta) -> (empty: bool)
    ensures
        empty == (meta_view(*meta) == no_members()),
{
    meta.is_empty()
}

/// `rmcp::model::Meta::extend`: every entry of the other metadata is added, in place of one with
/// the same key.
#[verifier::external_body]
fn extend_meta(meta: &mut Meta, other: Meta)
    ensures
        meta_view(*final(meta)) == meta_view(*old(meta)).union_prefer_right(meta_view(other)),
{
    meta.extend(other);
}

/// The identity of a request.
#[derive(Debug, Clone, PartialEq)]
pub enum RequestId {
    Number(i64),
    String(String),
}

/// What a server asks of the user.
#[derive(Debug, PartialEq)]
pub enum Elicitation {
    /// That a form be filled in.
    Form { meta: Option<Meta>, message: String, requested_schema: ElicitationSchema },
    /// That a page be visited.
    Url { meta: Option<Meta>, message: String, url: String, elicitation_id: String },
}

impl Elicitation {
    /// The metadata of the request.
    pub open spec fn meta(self) -> Option<Meta> {
        match self {
            Elicitation::Form { meta, .. } => meta,
            Elicitation::Url { meta, .. } => meta,
        }
    }

    /// The request with other metadata.
    pub open spec fn with_meta(self, meta: Option<Meta>) -> Elicitation {
        match self {
            Elicitation::Form { message, requested_schema, .. } => Elicitation::Form {
                meta,
                message,
                requested_schema,
            },
            Elicitation::Url { message, url, elicitation_id, .. } => Elicitation::Url {
                meta,
                message,
                url,
                elicitation_id,
            },
        }
    }
}

/// The metadata of a request after that of its context has been put back: the progress token of
/// the context is left out, and what else the context holds wins over what the request holds.
pub open spec fn restored_meta(
    own: Option<Map<Seq<char>, JsonView>>,
    context: Map<Seq<char>, JsonView>,
) -> Option<Map<Seq<char>, JsonView>> {
    let rest = context.remove(MCP_PROGRESS_TOKEN_META_KEY@);
    if rest == no_members() {
        own
    } else {
        match own {
            Some(own) => Some(own.union_prefer_right(rest)),
            None => Some(rest),
        }
    }
}

/// Adds the metadata of its context to that of a request.
fn extend_optional_meta(own: Option<Meta>, context_meta: Meta) -> (meta: Option<Meta>)
    ensures
        meta is Some,
        meta_view(meta->0) == match optional_meta_view(own) {
            Some(own) => own.union_prefer_right(meta_view(context_meta)),
            None => meta_view(context_meta),
        },
{
    let mut meta = match own {
        Some(own) => own,
        None => new_meta(),
    };
    extend_meta(&mut meta, context_meta);
    proof {
        if own is None {
            assert(meta_view(meta) =~= meta_view(context_meta));
        }
    }
    Some(meta)
}

/// Puts the metadata that came with a request, and that the transport moved into its context,
/// back into the request; see [`restored_meta`].
pub fn restore_context_meta(request: Elicitation, context_meta: Meta) -> (restored: Elicitation)
    ensures
        restored == request.with_meta(restored.meta()),
        optional_meta_view(restored.meta()) == restored_meta(
            optional_meta_view(request.meta()),
            meta_view(context_meta),
        ),
        meta_view(context_meta).remove(MCP_PROGRESS_TOKEN_META_KEY@) == no_members() ==> restored
            == request,
{
    let mut context_meta = context_meta;
    remove_entry(&mut context_meta, MCP_PROGRESS_TOKEN_META_KEY);
    if has_no_entries(&context_meta) {
        return request;
    }
    match request {
        Elicitation::Form { meta, message, requested_schema } => Elicitation::Form {
            meta: extend_optional_meta(meta, context_meta),
            message,
            requested_schema,
        },
        Elicitation::Url { meta, message, url, elicitation_id } => Elicitation::Url {
            meta: extend_optional_meta(meta, context_meta),
            message,
            url,
            elicitation_id,
        },
    }
}

/// The user's decision.
#[derive(Debug, Clone, Copy, PartialEq, Eq)]
pub enum ElicitationAction {
    Accept,
    Decline,
    Cancel,
}

impl ElicitationAction {
    /// The name of the decision in the protocol.
    pub open spec fn name(self) -> Seq<char> {
        match self {
            ElicitationAction::Accept => "accept"@,
            ElicitationAction::Decline => "decline"@,
            ElicitationAction::Cancel => "cancel"@,
        }
    }

    /// The name of the decision in the protocol.
    pub fn as_str(&self) -> (name: &'static str)
        ensures
            name@ == self.name(),
    {
        match self {
            ElicitationAction::Accept => "accept",
            ElicitationAction::Decline => "decline",
            ElicitationAction::Cancel => "cancel",
        }
    }
}

/// The user's answer.
#[derive(Debug, Clone, PartialEq)]
pub struct ElicitationResponse {
    /// The decision.
    pub action: ElicitationAction,
    /// What the user entered.
    pub content: Option<Value>,
    /// What the client says about the answer.
    pub meta: Option<Value>,
}

/// A result whose shape the protocol library does not define.
#[derive(Debug, Clone, PartialEq)]
pub struct CustomResult(pub Value);

/// An error that answers a request.
#[derive(Debug, Clone, PartialEq)]
pub struct ErrorData {
    /// The kind of the error.
    pub code: i32,
    /// What went wrong.
    pub message: String,
    /// More about it.
    pub data: Option<Value>,
}

impl ErrorData {
    /// It is an internal error with this message and no more about it.
    pub open spec fn is_internal(self, message: Seq<char>) -> bool {
        self.code == INTERNAL_ERROR && self.message@ == message && self.data is None
    }

    /// An internal error.
    pub fn internal_error(message: String) -> (error: ErrorData)
        ensures
            error.is_internal(message@),
    {
        ErrorData { code: INTERNAL_ERROR, message, data: None }
    }
}

/// `members` with the value under `key`, if there is a value.
pub open spec fn insert_optional(
    members: Map<Seq<char>, JsonView>,
    key: Seq<char>,
    value: Option<JsonView>,
) -> Map<Seq<char>, JsonView> {
    match value {
        Some(value) => members.insert(key, value),
        None => members,
    }
}

/// The members of an answer on the wire. What the answer does not have is left out.
pub open spec fn response_members(
    action: ElicitationAction,
    content: Option<JsonView>,
    meta: Option<JsonView>,
) -> Map<Seq<char>, JsonView> {
    insert_optional(
        insert_optional(
            no_members().insert("action"@, JsonView::Text(action.name())),
            "content"@,
            content,
        ),
        "_meta"@,
        meta,
    )
}

/// The answer as it goes to the server.
pub fn elicitation_response_result(response: ElicitationResponse) -> (result: Result<
    CustomResult,
    ErrorData,
>)
    ensures
        result matches Ok(custom) && json_view(custom.0) == JsonView::Object(
            response_members(
                response.action,
                optional_view(response.content),
                optional_view(response.meta),
            ),
        ),
{
    let mut members: JsonObject = new_object();
    insert_member(&mut members, "action", json_string(response.action.as_str().to_owned()));
    if let Some(content) = response.content {
        insert_member(&mut members, "content", content);
    }
    if let Some(meta) = response.meta {
        insert_member(&mut members, "_meta", meta);
    }
    Ok(CustomResult(json_object(members)))
}

/// A sender that hands every request on to the shared one, and gives back its reply.
pub fn clone_send_elicitation<R, F: Fn(RequestId, Elicitation) -> R>(
    send_elicitation: Arc<F>,
) -> (forward: impl Fn(RequestId, Elicitation) -> R)
    ensures
        forall|id: RequestId, request: Elicitation| #[trigger]
            call_requires(*send_elicitation, (id, request)) ==> call_requires(
                forward,
                (id, request),
            ),
        forall|id: RequestId, request: Elicitation, reply: R| #[trigger]
            call_ensures(forward, (id, request), reply) ==> call_ensures(
                *send_elicitation,
                (id, request),
                reply,
            ),
{
    move |id: RequestId, request: Elicitation| -> (reply: R)
        requires
            call_requires(*send_elicitation, (id, request)),
        ensures
            call_ensures(*send_elicitation, (id, request), reply),
        { send_elicitation(id, request) }
}

/// The metadata that is put back holds every entry of the context but its progress token, and
/// every entry of the request that the context does not replace, and nothing else.
pub proof fn law_restored_meta_entries(
    own: Option<Map<Seq<char>, JsonView>>,
    context: Map<Seq<char>, JsonView>,
    key: Seq<char>,
)
    ensures
        ({
            let restored = match restored_meta(own, context) {
                Some(restored) => restored,
                None => no_members(),
            };
            let own = match own {
                Some(own) => own,
                None => no_members(),
            };
            if context.dom().contains(key) && key != MCP_PROGRESS_TOKEN_META_KEY@ {
                restored.dom().contains(key) && restored[key] == context[key]
            } else {
                restored.dom().contains(key) == own.dom().contains(key) && (own.dom().contains(key)
                    ==> restored[key] == own[key])
            }
        }),
{
    let rest = context.remove(MCP_PROGRESS_TOKEN_META_KEY@);
    if rest == no_members() {
        assert(!rest.dom().contains(key));
    }
}

/// Putting the same metadata back twice changes nothing more.
pub proof fn law_restoring_twice(
    own: Option<Map<Seq<char>, JsonView>>,
    context: Map<Seq<char>, JsonView>,
)
    ensures
        restored_meta(restored_meta(own, context), context) == restored_meta(own, context),
{
    let rest = context.remove(MCP_PROGRESS_TOKEN_META_KEY@);
    if rest != no_members() {
        let once = restored_meta(own, context)->0;
        assert(once.union_prefer_right(rest) =~= once);
    }
}

/// What goes to the server has the decision, what the user entered and the metadata under their
/// names, each if the answer has it, and nothing else.
pub proof fn law_response_members(
    action: ElicitationAction,
    content: Option<JsonView>,
    meta: Option<JsonView>,
)
    ensures
        ({
            let members = response_members(action, content, meta);
            &&& members.dom().contains("action"@)
            &&& members["action"@] == JsonView::Text(action.name())
            &&& members.dom().contains("content"@) == (content is Some)
            &&& content is Some ==> members["content"@] == content->0
            &&& members.dom().contains("_meta"@) == (meta is Some)
            &&& meta is Some ==> members["_meta"@] == meta->0
            &&& forall|key: Seq<char>| #[trigger]
                members.dom().contains(key) ==> key == "action"@ || key == "content"@ || key
                    == "_meta"@
        }),
{
    reveal_strlit("action");
    reveal_strlit("content");
    reveal_strlit("_meta");
    assert("action"@[0] == 'a');
    assert("content"@[0] == 'c');
    assert("_meta"@[0] == '_');
}

/// Different answers look different to the server.
pub proof fn law_responses_are_told_apart(
    a: ElicitationAction,
    a_content: Option<JsonView>,
    a_meta: Option<JsonView>,
    b: ElicitationAction,
    b_content: Option<JsonView>,
    b_meta: Option<JsonView>,
)
    requires
        response_members(a, a_content, a_meta) == response_members(b, b_content, b_meta),
    ensures
        a == b,
        a_content == b_content,
        a_meta == b_meta,
{
    law_response_members(a, a_content, a_meta);
    law_response_members(b, b_content, b_meta);
    reveal_strlit("accept");
    reveal_strlit("decline");
    reveal_strlit("cancel");
    assert("accept"@[0] == 'a');
    assert("decline"@[0] == 'd');
    assert("cancel"@[0] == 'c');
}

/// Putting metadata back changes nothing but the metadata: the request stays of its kind, a form
/// with its message and its schema, a page with its message, its address and its identity.
pub proof fn law_restoring_keeps_the_request(
    request: Elicitation,
    restored: Elicitation,
    context_meta: Meta,
)
    requires
        restored == request.with_meta(restored.meta()),
        optional_meta_view(restored.meta()) == restored_meta(
            optional_meta_view(request.meta()),
            meta_view(context_meta),
        ),
    ensures
        request is Form <==> restored is Form,
        request is Form ==> restored->Form_message == request->Form_message,
        request is Form ==> restored->requested_schema == request->requested_schema,
        request is Url ==> restored->Url_message == request->Url_message,
        request is Url ==> restored->url == request->url,
        request is Url ==> restored->elicitation_id == request->elicitation_id,
{
}

/// Under each key a request has, after metadata was put back, what its context holds there, but
/// for the progress token, and else what it held there itself. Where the context holds nothing
/// else, the request has metadata exactly if it had, with the same entries.
pub proof fn law_restored_request_entries(
    request: Elicitation,
    restored: Elicitation,
    context_meta: Meta,
    key: Seq<char>,
)
    requires
        restored == request.with_meta(restored.meta()),
        optional_meta_view(restored.meta()) == restored_meta(
            optional_meta_view(request.meta()),
            meta_view(context_meta),
        ),
    ensures
        ({
            let own = match request {
                Elicitation::Form { meta, .. } => meta,
                Elicitation::Url { meta, .. } => meta,
            };
            let kept = match restored {
                Elicitation::Form { meta, .. } => meta,
                Elicitation::Url { meta, .. } => meta,
            };
            let context = meta_view(context_meta);
            &&& own is Some ==> kept is Some
            &&& if context.dom().contains(key) && key != "progressToken"@ {
                &&& kept is Some
                &&& meta_view(kept->0).dom().contains(key)
                &&& meta_view(kept->0)[key] == context[key]
            } else {
                &&& (kept is Some && meta_view(kept->0).dom().contains(key)) == (own is Some
                    && meta_view(own->0).dom().contains(key))
                &&& own is Some && meta_view(own->0).dom().contains(key) ==> meta_view(
                    kept->0,
                )[key] == meta_view(own->0)[key]
            }
            &&& (forall|k: Seq<char>| #[trigger]
                context.dom().contains(k) ==> k == "progressToken"@) ==> {
                &&& kept is Some <==> own is Some
                &&& own is Some ==> meta_view(kept->0) == meta_view(own->0)
            }
        }),
{
    let context = meta_view(context_meta);
    let rest = context.remove("progressToken"@);
    assert(MCP_PROGRESS_TOKEN_META_KEY@ == "progressToken"@);
    law_restored_meta_entries(
        optional_meta_view(request.meta()),
        context,
        key,
    );
    if forall|k: Seq<char>| #[trigger] context.dom().contains(k) ==> k == "progressToken"@ {
        assert(rest =~= no_members());
    }
}

/// On the wire an answer is an object that holds the decision by its name in the protocol, what
/// the user entered and the metadata, each of the two exactly if the answer has it, and nothing
/// else.
pub proof fn law_response_on_the_wire(response: ElicitationResponse, value: Value)
    requires
        json_view(value) == JsonView::Object(
            response_members(
                response.action,
                optional_view(response.content),
                optional_view(response.meta),
            ),
        ),
    ensures
        json_view(value) is Object,
        ({
            let members = json_view(value)->Object_0;
            &&& members.dom().contains("action"@)
            &&& match response.action {
                ElicitationAction::Accept => members["action"@] == JsonView::Text("accept"@),
                ElicitationAction::Decline => members["action"@] == JsonView::Text("decline"@),
                ElicitationAction::Cancel => members["action"@] == JsonView::Text("cancel"@),
            }
            &&& members.dom().contains("content"@) <==> response.content is Some
            &&& response.content is Some ==> members["content"@] == json_view(response.content->0)
            &&& members.dom().contains("_meta"@) <==> response.meta is Some
            &&& response.meta is Some ==> members["_meta"@] == json_view(response.meta->0)
            &&& forall|key: Seq<char>| #[trigger]
                members.dom().contains(key) ==> key == "action"@ || key == "content"@ || key
                    == "_meta"@
        }),
{
    law_response_members(
        response.action,
        optional_view(response.content),
        optional_view(response.meta),
    );
}

/// The decisions go by their names in the protocol.
pub proof fn law_decisions_by_name(action: ElicitationAction)
    ensures
        action.name() == "accept"@ <==> action is Accept,
        action.name() == "decline"@ <==> action is Decline,
        action.name() == "cancel"@ <==> action is Cancel,
{
    reveal_strlit("accept");
    reveal_strlit("decline");
    reveal_strlit("cancel");
    assert("accept"@[0] == 'a');
    assert("decline"@[0] == 'd');
    assert("cancel"@[0] == 'c');
}

/// An internal error has the code that the protocol gives to internal errors, its message, and
/// nothing more about it.
pub proof fn law_internal_error(error: ErrorData, message: Seq<char>)
    requires
        error.is_internal(message),
    ensures
        error.code == -32603,
        error.message@ == message,
        error.data is None,
{
}

} // verus!
