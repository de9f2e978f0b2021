use mcp_channel::elicitation::{
    clone_send_elicitation, elicitation_response_result, restore_context_meta, CustomResult,
    Elicitation, ElicitationAction, ElicitationResponse, ErrorData, RequestId,
};
use mcp_channel::service::{
    ElicitationClientService, ElicitationPauseState, RequestContext, RequestStep, ServerRequest,
};
use rmcp::model::{BooleanSchema, ElicitationSchema, Meta, PrimitiveSchema};
use serde_json::Value;
use std::sync::Arc;

fn json(text: &str) -> Value {
    serde_json::from_str(text).expect("JSON")
}

fn form_request(meta: Option<Meta>) -> Elicitation {
    Elicitation::Form {
        meta,
        message: "Confirm?".to_string(),
        requested_schema: ElicitationSchema::builder()
            .required_property("confirmed", PrimitiveSchema::Boolean(BooleanSchema::new()))
            .build()
            .expect("schema should build"),
    }
}

fn url_request(meta: Option<Meta>) -> Elicitation {
    Elicitation::Url {
        meta,
        message: "Visit".to_string(),
        url: "https://example.com/form".to_string(),
        elicitation_id: "e-1".to_string(),
    }
}

fn meta(text: &str) -> Meta {
    let Value::Object(map) = json(text) else {
        panic!("meta must be an object");
    };
    Meta(map)
}

#[test]
fn restore_context_meta_adds_elicitation_meta_and_removes_progress_token() {
    let request = restore_context_meta(
        form_request(/*meta*/ None),
        meta(r#"{"progressToken": "progress-token", "persist": ["session", "always"]}"#),
    );

    assert_eq!(
        request,
        form_request(Some(meta(r#"{"persist": ["session", "always"]}"#)))
    );
}

#[test]
fn elicitation_response_result_serializes_response_meta() {
    let CustomResult(result) = elicitation_response_result(ElicitationResponse {
        action: ElicitationAction::Accept,
        content: Some(json(r#"{ "confirmed": true }"#)),
        meta: Some(json(r#"{ "persist": "always" }"#)),
    })
    .expect("elicitation response should serialize");

    let result = rmcp::model::ClientResult::CustomResult(rmcp::model::CustomResult(result));
    assert_eq!(
        serde_json::to_value(result).expect("client result should serialize"),
        json(
            r#"{
                "action": "accept",
                "content": { "confirmed": true },
                "_meta": { "persist": "always" }
            }"#
        )
    );
}

#[test]
fn empty_context_meta_leaves_the_request_alone() {
    assert_eq!(
        restore_context_meta(form_request(None), meta("{}")),
        form_request(None)
    );
    assert_eq!(
        restore_context_meta(form_request(None), meta(r#"{"progressToken": 7}"#)),
        form_request(None)
    );
    assert_eq!(
        restore_context_meta(url_request(Some(meta("{}"))), meta("{}")),
        url_request(Some(meta("{}")))
    );
}

#[test]
fn context_meta_wins_over_the_request() {
    let restored = restore_context_meta(
        url_request(Some(meta(r#"{"a": 1, "b": 2, "progressToken": "own"}"#))),
        meta(r#"{"b": 3, "c": 4, "progressToken": "context"}"#),
    );
    assert_eq!(
        restored,
        url_request(Some(meta(
            r#"{"a": 1, "b": 3, "c": 4, "progressToken": "own"}"#
        )))
    );
}

#[test]
fn restoring_twice_changes_nothing_more() {
    let context = r#"{"b": 3, "progressToken": "context"}"#;
    let once = restore_context_meta(url_request(Some(meta(r#"{"a": 1}"#))), meta(context));
    let twice = restore_context_meta(
        restore_context_meta(url_request(Some(meta(r#"{"a": 1}"#))), meta(context)),
        meta(context),
    );
    assert_eq!(once, twice);
}

#[test]
fn missing_parts_of_a_response_are_left_out() {
    let result = elicitation_response_result(ElicitationResponse {
        action: ElicitationAction::Decline,
        content: None,
        meta: None,
    });
    assert_eq!(result, Ok(CustomResult(json(r#"{"action": "decline"}"#))));
    let result = elicitation_response_result(ElicitationResponse {
        action: ElicitationAction::Cancel,
        content: None,
        meta: Some(json("null")),
    });
    assert_eq!(
        result,
        Ok(CustomResult(json(r#"{"action": "cancel", "_meta": null}"#)))
    );
}

#[test]
fn a_cloned_sender_reaches_the_shared_one() {
    let shared = Arc::new(|id: RequestId, request: Elicitation| (id, request, "reply"));
    let forward = clone_send_elicitation(Arc::clone(&shared));
    assert_eq!(
        forward(RequestId::Number(3), url_request(None)),
        (RequestId::Number(3), url_request(None), "reply")
    );
    assert_eq!(
        forward(RequestId::String("x".to_string()), form_request(None)),
        shared(RequestId::String("x".to_string()), form_request(None))
    );
}

#[test]
fn the_client_pauses_while_the_user_is_asked() {
    let mut pause_state = ElicitationPauseState::new();
    let mut service = ElicitationClientService::new(&mut pause_state);
    assert!(!service.is_paused());
    let step = service.handle_request(
        ServerRequest::CreateElicitationRequest(form_request(None)),
        RequestContext {
            id: RequestId::Number(1),
            meta: meta(r#"{"progressToken": 1, "persist": true}"#),
        },
    );
    assert_eq!(
        step,
        RequestStep::SendElicitation {
            id: RequestId::Number(1),
            request: form_request(Some(meta(r#"{"persist": true}"#))),
        }
    );
    assert!(service.is_paused());
    let (id, request) = service.create_elicitation(
        url_request(None),
        RequestContext {
            id: RequestId::String("two".to_string()),
            meta: meta("{}"),
        },
    );
    assert_eq!(id, RequestId::String("two".to_string()));
    assert_eq!(request, url_request(None));
    service.end_elicitation();
    assert!(service.is_paused());
    service.end_elicitation();
    assert!(!service.is_paused());
}

#[test]
fn other_requests_are_passed_on() {
    let mut pause_state = ElicitationPauseState::new();
    let mut service = ElicitationClientService::new(&mut pause_state);
    let step = service.handle_request(
        ServerRequest::Standard,
        RequestContext {
            id: RequestId::Number(1),
            meta: meta("{}"),
        },
    );
    assert_eq!(step, RequestStep::Delegate);
    assert!(!service.is_paused());
}

#[test]
fn the_client_counts_in_the_state_it_is_given() {
    let mut pause_state = ElicitationPauseState::new();
    pause_state.enter();
    pause_state.enter();
    let mut service = ElicitationClientService::new(&mut pause_state);
    assert_eq!(service.waiting_count(), 2);
    assert!(service.is_paused());
    service.create_elicitation(
        url_request(None),
        RequestContext {
            id: RequestId::Number(1),
            meta: meta("{}"),
        },
    );
    assert_eq!(service.waiting_count(), 3);
    assert_eq!(pause_state.count(), 3);
}

#[test]
fn clients_share_a_pause_state() {
    let mut pause_state = ElicitationPauseState::new();
    let ask = |pause_state: &mut ElicitationPauseState| {
        ElicitationClientService::new(pause_state).handle_request(
            ServerRequest::CreateElicitationRequest(form_request(None)),
            RequestContext {
                id: RequestId::Number(1),
                meta: meta("{}"),
            },
        );
    };
    ask(&mut pause_state);
    ask(&mut pause_state);
    assert_eq!(pause_state.count(), 2);
    ElicitationClientService::new(&mut pause_state).end_elicitation();
    assert!(pause_state.is_paused());
    ElicitationClientService::new(&mut pause_state).end_elicitation();
    assert!(!pause_state.is_paused());
}

#[test]
fn a_reply_becomes_the_answer() {
    assert_eq!(
        ElicitationClientService::elicitation_answer(Ok(ElicitationResponse {
            action: ElicitationAction::Accept,
            content: Some(json("[1]")),
            meta: None,
        })),
        Ok(CustomResult(json(
            r#"{"action": "accept", "content": [1]}"#
        )))
    );
    assert_eq!(
        ElicitationClientService::elicitation_answer(Err("session closed".to_string())),
        Err(ErrorData {
            code: -32603,
            message: "session closed".to_string(),
            data: None,
        })
    );
}

#[test]
fn the_pause_counts() {
    let mut state = ElicitationPauseState::new();
    assert!(!state.is_paused());
    state.enter();
    state.enter();
    state.leave();
    assert!(state.is_paused());
    state.leave();
    assert!(!state.is_paused());
}

#[test]
fn internal_error_code_is_that_of_the_protocol() {
    let error = ErrorData::internal_error("x".to_string());
    assert_eq!(
        error.code,
        rmcp::ErrorData::internal_error("x", None).code.0
    );
}
