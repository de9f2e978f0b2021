//! The client of an MCP server: what it does with each request and notification of the server.
//!
//! The client decides; whoever runs it sends what it asks to have sent, and tells it the replies.

use crate::elicitation::{
    elicitation_response_result, law_response_on_the_wire, law_restored_request_entries,
    law_restoring_keeps_the_request, meta_view, optional_meta_view, response_members,
    restore_context_meta, restored_meta, CustomResult, Elicitation, ElicitationAction,
    ElicitationResponse, ErrorData, RequestId,
};
use crate::json::{json_view, optional_view, JsonView};
use crate::notification::{
    McpChannelNotificationParams, NotificationStep, ServerNotification,
    MCP_CHANNEL_NOTIFICATION_METHOD,
};
use rmcp::model::Meta;
use vstd::prelude::*;

verus! {

/// How many elicitations are waiting for the user. While there are any, the clocks that limit the
/// server's other work stand still.
pub struct ElicitationPauseState {
    active: u64,
}

/// What can happen to a pause.
pub enum PauseEvent {
    /// The user is asked something.
    Began,
    /// Something that the user was asked has been answered or given up.
    Ended,
}

/// An event takes the number of elicitations that wait for the user from `before` to `after`.
pub open spec fn pause_step(before: u64, event: PauseEvent, after: u64) -> bool {
    match event {
        PauseEvent::Began => after == before + 1,
        PauseEvent::Ended => after == before - 1,
    }
}

impl ElicitationPauseState {
    /// How many elicitations are waiting for the user.
    pub closed spec fn active(self) -> u64 {
        self.active
    }

    /// Nothing is waiting.
    pub fn new() -> (state: ElicitationPauseState)
        ensures
            state.active() == 0,
    {
        ElicitationPauseState { active: 0 }
    }

    /// How many elicitations are waiting for the user.
    pub fn count(&self) -> (count: u64)
        ensures
            count == self.active(),
    {
        self.active
    }

    /// Whether anything is waiting.
    pub fn is_paused(&self) -> (paused: bool)
        ensures
            paused == (self.active() > 0),
    {
        self.active > 0
    }

    /// One more elicitation is waiting.
    pub fn enter(&mut self)
        requires
            old(self).active() < u64::MAX,
        ensures
            pause_step(old(self).active(), PauseEvent::Began, final(self).active()),
    {
        self.active = self.active + 1;
    }

    /// An elicitation has been answered or given up.
    pub fn leave(&mut self)
        requires
            old(self).active() > 0,
        ensures
            pause_step(old(self).active(), PauseEvent::Ended, final(self).active()),
    {
        self.active = self.active - 1;
    }
}

/// What comes with a request besides its parameters.
#[derive(Debug, PartialEq)]
pub struct RequestContext {
    /// The identity of the request.
    pub id: RequestId,
    /// The metadata that the transport has taken out of the request.
    pub meta: Meta,
}

/// A request from an MCP server.
#[derive(Debug, PartialEq)]
pub enum ServerRequest {
    /// One for input from the user.
    CreateElicitationRequest(Elicitation),
    /// Any other.
    Standard,
}

/// What becomes of a request.
#[derive(Debug, PartialEq)]
pub enum RequestStep {
    /// The user is asked. The pause that has begun ends when the reply is there.
    SendElicitation { id: RequestId, request: Elicitation },
    /// It goes to the general handler.
    Delegate,
}

/// The client of an MCP server. The pause state that it counts in belongs to whoever made the
/// client and may be that of other clients too.
pub struct ElicitationClientService<'a> {
    /// Where the elicitations that are waiting for the user are counted.
    pub pause_state: &'a mut ElicitationPauseState,
}

/// `sent` is what the user is asked: the request, with the metadata of its context put back.
pub open spec fn is_sent_for(sent: Elicitation, request: Elicitation, context_meta: Meta) -> bool {
    &&& sent == request.with_meta(sent.meta())
    &&& optional_meta_view(sent.meta()) == restored_meta(
        optional_meta_view(request.meta()),
        meta_view(context_meta),
    )
}

/// `result` answers the server: with the user's answer, or with the error that kept it from
/// coming.
pub open spec fn answers(
    result: Result<CustomResult, ErrorData>,
    reply: Result<ElicitationResponse, String>,
) -> bool {
    match reply {
        Ok(response) => result matches Ok(custom) && json_view(custom.0) == JsonView::Object(
            response_members(
                response.action,
                optional_view(response.content),
                optional_view(response.meta),
            ),
        ),
        Err(message) => result matches Err(error) && error.is_internal(message@),
    }
}

impl<'a> ElicitationClientService<'a> {
    /// How many elicitations are waiting for the user.
    pub open spec fn waiting(self) -> u64 {
        (*self.pause_state).active()
    }

    /// A client that counts in the given pause state, whatever is counted there already: what the
    /// client leaves there is what the state is in the end.
    pub fn new(pause_state: &'a mut ElicitationPauseState) -> (service: ElicitationClientService<
        'a,
    >)
        ensures
            service.waiting() == old(pause_state).active(),
            *final(service.pause_state) == *final(pause_state),
    {
        ElicitationClientService { pause_state }
    }

    /// How many elicitations are waiting for the user.
    pub fn waiting_count(&self) -> (count: u64)
        ensures
            count == self.waiting(),
    {
        self.pause_state.count()
    }

    /// Whether the clocks stand still because the user is being asked.
    pub fn is_paused(&self) -> (paused: bool)
        ensures
            paused == (self.waiting() > 0),
    {
        self.pause_state.is_paused()
    }

    /// Begins to ask the user: the pause begins, and the request that goes to the user is
    /// returned with its identity.
    pub fn create_elicitation(&mut self, request: Elicitation, context: RequestContext) -> (sent: (
        RequestId,
        Elicitation,
    ))
        requires
            old(self).waiting() < u64::MAX,
        ensures
            pause_step(old(self).waiting(), PauseEvent::Began, final(self).waiting()),
            *final(final(self).pause_state) == *final(old(self).pause_state),
            sent.0 == context.id,
            is_sent_for(sent.1, request, context.meta),
    {
        let request = restore_context_meta(request, context.meta);
        self.pause_state.enter();
        (context.id, request)
    }

    /// The user has replied, or will not: the pause that began with the request ends.
    pub fn end_elicitation(&mut self)
        requires
            old(self).waiting() > 0,
        ensures
            pause_step(old(self).waiting(), PauseEvent::Ended, final(self).waiting()),
            *final(final(self).pause_state) == *final(old(self).pause_state),
    {
        self.pause_state.leave();
    }

    /// The answer to the server, once there is a reply: the user's answer, or else an internal
    /// error that says why there is none.
    pub fn elicitation_answer(reply: Result<ElicitationResponse, String>) -> (result: Result<
        CustomResult,
        ErrorData,
    >)
        ensures
            answers(result, reply),
    {
        match reply {
            Ok(response) => elicitation_response_result(response),
            Err(message) => Err(ErrorData::internal_error(message)),
        }
    }

    /// Decides what becomes of a request.
    pub fn handle_request(&mut self, request: ServerRequest, context: RequestContext) -> (step:
        RequestStep)
        requires
            request is CreateElicitationRequest ==> old(self).waiting() < u64::MAX,
        ensures
            match request {
                ServerRequest::CreateElicitationRequest(request) => {
                    &&& step matches RequestStep::SendElicitation { id, request: sent }
                    &&& id == context.id
                    &&& is_sent_for(sent, request, context.meta)
                    &&& pause_step(old(self).waiting(), PauseEvent::Began, final(self).waiting())
                },
                ServerRequest::Standard => step is Delegate && final(self).waiting() == old(
                    self,
                ).waiting(),
            },
            *final(final(self).pause_state) == *final(old(self).pause_state),
    {
        match request {
            ServerRequest::CreateElicitationRequest(request) => {
                let (id, request) = self.create_elicitation(request, context);
                RequestStep::SendElicitation { id, request }
            },
            ServerRequest::Standard => RequestStep::Delegate,
        }
    }

    /// Decides what becomes of a notification.
    pub fn handle_mcp_channel_notification(&self, notification: &ServerNotification) -> (step:
        NotificationStep)
        ensures
            notification.leads_to(step),
    {
        let custom = match notification {
            ServerNotification::CustomNotification(custom) => custom,
            ServerNotification::Standard => {
                return NotificationStep::Delegate;
            },
        };
        if custom.method != MCP_CHANNEL_NOTIFICATION_METHOD.to_owned() {
            return NotificationStep::Delegate;
        }
        match &custom.params {
            Some(params) => match McpChannelNotificationParams::from_value(params) {
                Ok(params) => NotificationStep::Deliver(params),
                Err(error) => NotificationStep::DropMalformed(error),
            },
            None => NotificationStep::DropWithoutParams,
        }
    }
}

/// `counts` are the numbers of elicitations that wait for the user, before the first of `events`
/// and after each.
pub open spec fn is_pause_run(counts: Seq<u64>, events: Seq<PauseEvent>) -> bool {
    &&& counts.len() == events.len() + 1
    &&& forall|i: int|
        0 <= i < events.len() ==> pause_step(counts[i], #[trigger] events[i], counts[i + 1])
}

/// How many of the pauses that began among `events` have not ended.
pub open spec fn still_open(events: Seq<PauseEvent>) -> int
    decreases events.len(),
{
    if events.len() == 0 {
        0
    } else {
        match events.last() {
            PauseEvent::Began => still_open(events.drop_last()) + 1,
            PauseEvent::Ended => still_open(events.drop_last()) - 1,
        }
    }
}

/// However the pauses of the clients that share a state begin and end, as many elicitations are
/// waiting as waited at first and have begun since without having ended.
pub proof fn law_pause_lasts_while_the_user_is_asked(counts: Seq<u64>, events: Seq<PauseEvent>)
    requires
        is_pause_run(counts, events),
    ensures
        counts.last() == counts[0] + still_open(events),
        counts[0] == 0 ==> (counts.last() > 0 <==> still_open(events) > 0),
    decreases events.len(),
{
    if events.len() > 0 {
        let n = events.len() - 1;
        let earlier = events.drop_last();
        let earlier_counts = counts.drop_last();
        assert forall|i: int| 0 <= i < earlier.len() implies pause_step(
            earlier_counts[i],
            #[trigger] earlier[i],
            earlier_counts[i + 1],
        ) by {
            assert(events[i] == earlier[i]);
        }
        law_pause_lasts_while_the_user_is_asked(earlier_counts, earlier);
        assert(events[n] == events.last());
    }
}

/// A reply has one answer: an error exactly if there was no reply, and the same content for the
/// same reply.
pub proof fn law_one_answer(
    reply: Result<ElicitationResponse, String>,
    a: Result<CustomResult, ErrorData>,
    b: Result<CustomResult, ErrorData>,
)
    requires
        answers(a, reply),
        answers(b, reply),
    ensures
        (a is Ok) == (reply is Ok),
        (b is Ok) == (a is Ok),
        a is Ok ==> json_view(a->Ok_0.0) == json_view(b->Ok_0.0),
        a is Err ==> a->Err_0.code == b->Err_0.code && a->Err_0.message@ == b->Err_0.message@,
{
}

/// What the user is asked is what the server asked: a form with the same message and schema, or a
/// page with the same message, address and identity.
pub proof fn law_user_is_asked_what_the_server_asked(
    sent: Elicitation,
    request: Elicitation,
    context_meta: Meta,
)
    requires
        is_sent_for(sent, request, context_meta),
    ensures
        request is Form <==> sent is Form,
        request is Form ==> sent->Form_message == request->Form_message,
        request is Form ==> sent->requested_schema == request->requested_schema,
        request is Url ==> sent->Url_message == request->Url_message,
        request is Url ==> sent->url == request->url,
        request is Url ==> sent->elicitation_id == request->elicitation_id,
{
    law_restoring_keeps_the_request(request, sent, context_meta);
}

/// The metadata that goes to the user holds under each key what the context of the request holds
/// there, but for the progress token, and else what the request held there itself.
pub proof fn law_user_gets_the_metadata(
    sent: Elicitation,
    request: Elicitation,
    context_meta: Meta,
    key: Seq<char>,
)
    requires
        is_sent_for(sent, request, context_meta),
    ensures
        ({
            let own = match request {
                Elicitation::Form { meta, .. } => meta,
                Elicitation::Url { meta, .. } => meta,
            };
            let kept = match sent {
                Elicitation::Form { meta, .. } => meta,
                Elicitation::Url { meta, .. } => meta,
            };
            let context = meta_view(context_meta);
            &&& own is Some ==> kept is Some
            &&& if context.dom().contains(key) && key != "progressToken"@ {
                &&& kept is Some
                &&& meta_view(kept->0).dom().contains(key)
                &&& meta_view(kept->0)[key] == context[key]
            } else {
                &&& (kept is Some && meta_view(kept->0).dom().contains(key)) == (own is Some
                    && meta_view(own->0).dom().contains(key))
                &&& own is Some && meta_view(own->0).dom().contains(key) ==> meta_view(
                    kept->0,
                )[key] == meta_view(own->0)[key]
            }
            &&& (forall|k: Seq<char>| #[trigger]
                context.dom().contains(k) ==> k == "progressToken"@) ==> {
                &&& kept is Some <==> own is Some
                &&& own is Some ==> meta_view(kept->0) == meta_view(own->0)
            }
        }),
{
    law_restored_request_entries(request, sent, context_meta, key);
}

/// The server gets the whole of the user's reply: an object that holds the decision by its name in
/// the protocol, what the user entered and the metadata of the reply, each of the two exactly if
/// the reply has it, and nothing else.
pub proof fn law_answer_holds_the_reply(
    response: ElicitationResponse,
    result: Result<CustomResult, ErrorData>,
)
    requires
        answers(result, Ok(response)),
    ensures
        result is Ok,
        json_view(result->Ok_0.0) is Object,
        ({
            let members = json_view(result->Ok_0.0)->Object_0;
            &&& members.dom().contains("action"@)
            &&& match response.action {
                ElicitationAction::Accept => members["action"@] == JsonView::Text("accept"@),
                ElicitationAction::Decline => members["action"@] == JsonView::Text("decline"@),
                ElicitationAction::Cancel => members["action"@] == JsonView::Text("cancel"@),
            }
            &&& members.dom().contains("content"@) <==> response.content is Some
            &&& response.content is Some ==> members["content"@] == json_view(response.content->0)
            &&& members.dom().contains("_meta"@) <==> response.meta is Some
            &&& response.meta is Some ==> members["_meta"@] == json_view(response.meta->0)
            &&& forall|key: Seq<char>| #[trigger]
                members.dom().contains(key) ==> key == "action"@ || key == "content"@ || key
                    == "_meta"@
        }),
{
    law_response_on_the_wire(response, result->Ok_0.0);
}

/// Where there is no reply, the server gets an internal error that says why.
pub proof fn law_answer_without_a_reply(message: String, result: Result<CustomResult, ErrorData>)
    requires
        answers(result, Err(message)),
    ensures
        result is Err,
        result->Err_0.code == -32603,
        result->Err_0.message@ == message@,
        result->Err_0.data is None,
{
}

/// Two replies that the server is answered alike have the same decision, the same content and the
/// same metadata.
pub proof fn law_replies_are_told_apart(
    a: ElicitationResponse,
    b: ElicitationResponse,
    a_result: Result<CustomResult, ErrorData>,
    b_result: Result<CustomResult, ErrorData>,
)
    requires
        answers(a_result, Ok(a)),
        answers(b_result, Ok(b)),
        json_view(a_result->Ok_0.0) == json_view(b_result->Ok_0.0),
    ensures
        a.action == b.action,
        a.content is Some <==> b.content is Some,
        a.content is Some ==> json_view(a.content->0) == json_view(b.content->0),
        a.meta is Some <==> b.meta is Some,
        a.meta is Some ==> json_view(a.meta->0) == json_view(b.meta->0),
{
    law_answer_holds_the_reply(a, a_result);
    law_answer_holds_the_reply(b, b_result);
    reveal_strlit("accept");
    reveal_strlit("decline");
    reveal_strlit("cancel");
    assert("accept"@[0] == 'a');
    assert("decline"@[0] == 'd');
    assert("cancel"@[0] == 'c');
}

} // verus!
