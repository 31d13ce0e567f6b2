use obs_mock::auth::compute_auth_response;
use obs_mock::json::{array, field, object, text, uint, JsonValue};
use obs_mock::protocol::{
    Identify, Message, Request, RequestBatch, OP_HELLO, OP_IDENTIFIED, OP_IDENTIFY, OP_REIDENTIFY, OP_REQUEST,
    OP_REQUEST_BATCH, OP_REQUEST_BATCH_RESPONSE, OP_REQUEST_RESPONSE,
};
use obs_mock::session::{handle_batch, Action, Phase, Session};
use obs_mock::state::ObsState;

fn identify(rpc: u64, auth: Option<&str>) -> Message {
    let mut es = vec![field("rpcVersion", uint(rpc))];
    if let Some(a) = auth {
        es.push(field("authentication", text(a)));
    }
    Message::new(OP_IDENTIFY, object(es))
}

fn request(rt: &str, id: &str, data: Option<JsonValue>) -> JsonValue {
    let mut es = vec![field("requestType", text(rt)), field("requestId", text(id))];
    if let Some(d) = data {
        es.push(field("requestData", d));
    }
    object(es)
}

fn sent(a: Action) -> Message {
    match a {
        Action::Send(m) => m,
        other => panic!("expected a message, got {:?}", other),
    }
}

fn identified(password: Option<&str>) -> Session {
    let (mut s, _) = Session::start(password.map(|p| p.to_string()));
    let auth = password.map(|p| compute_auth_response(p, &s.auth.salt, &s.auth.challenge));
    let m = sent(s.on_message(&identify(1, auth.as_deref())));
    assert_eq!(m.op, OP_IDENTIFIED);
    s
}

#[test]
fn hello_without_password_has_no_authentication() {
    let (s, hello) = Session::start(None);
    assert_eq!(hello.op, OP_HELLO);
    assert_eq!(hello.d.get("obsWebSocketVersion").and_then(|v| v.as_str()), Some("5.5.4"));
    assert_eq!(hello.d.get("rpcVersion").and_then(|v| v.as_u64()), Some(1));
    assert!(hello.d.get("authentication").is_none());
    assert_eq!(s.phase, Phase::AwaitingIdentify);
    assert!(!s.answers_ping());
}

#[test]
fn hello_with_password_carries_challenge_and_salt() {
    let (s, hello) = Session::start(Some("secret".to_string()));
    let a = hello.d.get("authentication").expect("authentication");
    assert_eq!(a.get("challenge").and_then(|v| v.as_str()), Some(s.auth.challenge.as_str()));
    assert_eq!(a.get("salt").and_then(|v| v.as_str()), Some(s.auth.salt.as_str()));
}

#[test]
fn identify_with_right_password() {
    let s = identified(Some("secret"));
    assert_eq!(s.phase, Phase::Identified);
    assert!(s.answers_ping());
}

#[test]
fn identify_with_wrong_password_closes() {
    let (mut s, _) = Session::start(Some("secret".to_string()));
    let wrong = compute_auth_response("guess", &s.auth.salt, &s.auth.challenge);
    let a = s.on_message(&identify(1, Some(&wrong)));
    assert_eq!(a, Action::Close);
    assert_eq!(s.phase, Phase::Closed);
    assert_eq!(s.on_message(&identify(1, None)), Action::Ignore);
}

#[test]
fn identify_without_authentication_when_required_closes() {
    let (mut s, _) = Session::start(Some("secret".to_string()));
    assert_eq!(s.on_message(&identify(1, None)), Action::Close);
}

#[test]
fn negotiated_version_is_the_smaller() {
    let (mut s, _) = Session::start(None);
    let m = sent(s.on_message(&identify(0, None)));
    assert_eq!(m.d.get("negotiatedRpcVersion").and_then(|v| v.as_u64()), Some(0));
    let (mut s, _) = Session::start(None);
    let m = sent(s.on_message(&identify(7, None)));
    assert_eq!(m.d.get("negotiatedRpcVersion").and_then(|v| v.as_u64()), Some(1));
}

#[test]
fn requests_before_identify_are_ignored() {
    let (mut s, _) = Session::start(None);
    let m = Message::new(OP_REQUEST, request("GetVersion", "1", None));
    assert_eq!(s.on_message(&m), Action::Ignore);
    assert_eq!(s.phase, Phase::AwaitingIdentify);
    let bad = Message::new(OP_IDENTIFY, object(vec![field("rpcVersion", text("one"))]));
    assert_eq!(s.on_message(&bad), Action::Ignore);
}

#[test]
fn request_is_answered_after_identify() {
    let mut s = identified(None);
    let m = sent(s.on_message(&Message::new(OP_REQUEST, request("ToggleStream", "abc", None))));
    assert_eq!(m.op, OP_REQUEST_RESPONSE);
    assert_eq!(m.d.get("requestType").and_then(|v| v.as_str()), Some("ToggleStream"));
    assert_eq!(m.d.get("requestId").and_then(|v| v.as_str()), Some("abc"));
    let status = m.d.get("requestStatus").expect("status");
    assert_eq!(status.get("result").and_then(|v| v.as_bool()), Some(true));
    assert_eq!(status.get("code").and_then(|v| v.as_u64()), Some(100));
    assert!(status.get("comment").is_none());
    assert!(s.state.streaming);
}

#[test]
fn undecodable_request_fails_the_connection() {
    let mut s = identified(None);
    let m = Message::new(OP_REQUEST, object(vec![field("requestType", uint(5))]));
    assert_eq!(s.on_message(&m), Action::Fail);
    assert_eq!(s.phase, Phase::Closed);
}

#[test]
fn reidentify_answers_with_our_version() {
    let mut s = identified(None);
    let m = sent(s.on_message(&Message::new(OP_REIDENTIFY, object(vec![]))));
    assert_eq!(m.op, OP_IDENTIFIED);
    assert_eq!(m.d.get("negotiatedRpcVersion").and_then(|v| v.as_u64()), Some(1));
    assert_eq!(s.phase, Phase::Identified);
}

#[test]
fn unanswerable_request_aborts() {
    let mut s = identified(None);
    s.state.current_program_scene = 9;
    let m = Message::new(OP_REQUEST, request("GetCurrentProgramScene", "x", None));
    assert_eq!(s.on_message(&m), Action::Abort);
    assert_eq!(s.phase, Phase::Closed);
}

#[test]
fn batch_without_halt_answers_every_request() {
    let mut s = identified(None);
    let reqs = array(vec![
        request("ToggleStream", "a", None),
        request("NoSuchRequest", "b", None),
        request("ToggleRecord", "c", None),
    ]);
    let d = object(vec![field("requestId", text("batch-1")), field("requests", reqs)]);
    let m = sent(s.on_message(&Message::new(OP_REQUEST_BATCH, d)));
    assert_eq!(m.op, OP_REQUEST_BATCH_RESPONSE);
    assert_eq!(m.d.get("requestId").and_then(|v| v.as_str()), Some("batch-1"));
    match m.d.get("results") {
        Some(JsonValue::Array(rs)) => {
            assert_eq!(rs.len(), 3);
            assert_eq!(rs[1].get("requestId").and_then(|v| v.as_str()), Some("b"));
            assert_eq!(rs[1].get("requestStatus").and_then(|v| v.get("code")).and_then(|v| v.as_u64()), Some(600));
            assert_eq!(rs[2].get("requestType").and_then(|v| v.as_str()), Some("ToggleRecord"));
        },
        other => panic!("results: {:?}", other),
    }
    assert!(s.state.streaming);
    assert!(s.state.recording);
}

#[test]
fn batch_with_halt_stops_at_first_failure() {
    let mut s = identified(None);
    let reqs = array(vec![
        request("ToggleStream", "a", None),
        request("NoSuchRequest", "b", None),
        request("ToggleRecord", "c", None),
    ]);
    let d = object(vec![
        field("requestId", text("batch-2")),
        field("haltOnFailure", JsonValue::Bool(true)),
        field("requests", reqs),
    ]);
    let m = sent(s.on_message(&Message::new(OP_REQUEST_BATCH, d)));
    match m.d.get("results") {
        Some(JsonValue::Array(rs)) => {
            assert_eq!(rs.len(), 2);
            assert_eq!(rs[1].get("requestStatus").and_then(|v| v.get("result")).and_then(|v| v.as_bool()), Some(false));
        },
        other => panic!("results: {:?}", other),
    }
    assert!(s.state.streaming);
    assert!(!s.state.recording);
}

#[test]
fn handle_batch_directly() {
    let mut st = ObsState::new();
    let batch = RequestBatch {
        request_id: "b".to_string(),
        halt_on_failure: None,
        execution_type: None,
        requests: vec![
            Request { request_type: "StartStream".to_string(), request_id: "1".to_string(), request_data: None },
            Request { request_type: "GetStreamStatus".to_string(), request_id: "2".to_string(), request_data: None },
        ],
    };
    let r = handle_batch(&mut st, &batch).expect("complete");
    assert_eq!(r.request_id, "b");
    assert_eq!(r.results.len(), 2);
    let d = r.results[1].response_data.as_ref().unwrap();
    assert_eq!(d.get("outputActive").and_then(|v| v.as_bool()), Some(true));
}

#[test]
fn identify_parses_object_payload() {
    let d = object(vec![
        field("rpcVersion", uint(1)),
        field("authentication", text("xyz")),
        field("eventSubscriptions", uint(33)),
    ]);
    let id = Identify::from_json(&d).expect("identify");
    assert_eq!(id.rpc_version, 1);
    assert_eq!(id.authentication.as_deref(), Some("xyz"));
    assert_eq!(id.event_subscriptions, Some(33));
    assert!(Identify::from_json(&object(vec![])).is_none());
    assert!(Identify::from_json(&text("nope")).is_none());
}

#[test]
fn request_parses_and_rejects() {
    let d = request("GetVersion", "7", Some(object(vec![field("k", uint(1))])));
    let r = Request::from_json(&d).expect("request");
    assert_eq!(r.request_type, "GetVersion");
    assert_eq!(r.request_id, "7");
    assert!(r.request_data.is_some());
    assert!(Request::from_json(&object(vec![field("requestType", text("X"))])).is_none());
}

#[test]
fn removing_every_scene_then_listing_aborts() {
    let mut s = identified(None);
    for name in ["Main", "Screen Share", "BRB", "Starting Soon", "Ending"] {
        let d = object(vec![field("sceneName", text(name))]);
        let m = sent(s.on_message(&Message::new(OP_REQUEST, request("RemoveScene", "r", Some(d)))));
        assert_eq!(m.op, OP_REQUEST_RESPONSE);
    }
    assert!(s.state.scenes.is_empty());
    assert_eq!(s.state.current_program_scene, 0);
    let m = Message::new(OP_REQUEST, request("GetSceneList", "x", None));
    assert_eq!(s.on_message(&m), Action::Abort);
}

#[test]
fn duplicating_an_existing_item_at_the_id_limit_aborts() {
    let mut s = identified(None);
    s.state.scenes[0].items[0].id = u32::MAX;
    let d = object(vec![field("sceneName", text("Main")), field("sceneItemId", uint(2))]);
    let m = Message::new(OP_REQUEST, request("DuplicateSceneItem", "d", Some(d)));
    assert_eq!(s.on_message(&m), Action::Abort);
}

fn looks_like_v4(u: &str) -> bool {
    let b = u.as_bytes();
    b.len() == 36 && b[8] == b'-' && b[13] == b'-' && b[14] == b'4' && matches!(b[19], b'8' | b'9' | b'a' | b'b')
}

#[test]
fn scenes_created_in_a_session_and_a_batch_get_v4_uuids() {
    let mut s = identified(None);
    let d = object(vec![field("sceneName", text("One"))]);
    let m = sent(s.on_message(&Message::new(OP_REQUEST, request("CreateScene", "1", Some(d)))));
    let u = m.d.get("responseData").and_then(|r| r.get("sceneUuid")).and_then(|v| v.as_str()).unwrap().to_string();
    assert!(looks_like_v4(&u));
    let reqs = array(vec![request("CreateScene", "a", Some(object(vec![field("sceneName", text("Two"))])))]);
    let b = object(vec![field("requestId", text("b")), field("requests", reqs)]);
    let m = sent(s.on_message(&Message::new(OP_REQUEST_BATCH, b)));
    match m.d.get("results") {
        Some(JsonValue::Array(rs)) => {
            let u2 = rs[0].get("responseData").and_then(|r| r.get("sceneUuid")).and_then(|v| v.as_str()).unwrap();
            assert!(looks_like_v4(u2));
            assert_ne!(u2, u);
        },
        other => panic!("results: {:?}", other),
    }
    assert_eq!(s.state.scenes.len(), 7);
}
