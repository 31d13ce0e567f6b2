//! Answers to requests, each with the change it makes to the state.
pub mod config;
pub mod general;
pub mod inputs;
pub mod items;
pub mod outputs;
pub mod payloads;
pub mod scenes;

use vstd::prelude::*;
use vstd::string::StringExecFns;
use crate::handler::config::{config_spec, handle_config};
use crate::handler::general::{general_spec, handle_general};
use crate::handler::inputs::{handle_inputs, inputs_spec};
use crate::handler::items::{handle_items, items_spec, needs_next_id};
use crate::handler::outputs::{handle_outputs, outputs_spec};
use crate::handler::scenes::{current_scenes_exist, handle_scenes, scenes_spec};
use crate::json::{empty_object, jempty, JsonValue, JsonView};
use crate::protocol::{error_view, success_view, RequestResponse, ResponseView, REQUEST_STATUS_UNKNOWN};
use crate::state::{is_uuid_text, max_scene_item_id, new_uuid, resolve_scene_spec, ObsState, StateView};
use crate::text::str_eq;

verus! {

/// What a request comes to: success, with data or without, or failure, with a
/// status code and a comment.
pub enum Outcome {
    Success(Option<JsonValue>),
    Failure(u16, String),
}

/// The model of an `Outcome`.
pub enum OutcomeView {
    Success(Option<JsonView>),
    Failure(u16, Seq<char>),
}

impl View for Outcome {
    type V = OutcomeView;

    open spec fn view(&self) -> OutcomeView {
        match self {
            Outcome::Success(Some(d)) => OutcomeView::Success(Some(d.deep())),
            Outcome::Success(None) => OutcomeView::Success(None),
            Outcome::Failure(c, m) => OutcomeView::Failure(*c, m@),
        }
    }
}

/// The state after a request and what the request comes to.
pub type Step = (StateView, OutcomeView);

/// Success with data, in state `st`.
pub open spec fn step(st: StateView, d: JsonView) -> Step {
    (st, OutcomeView::Success(Some(d)))
}

/// Success without data, in state `st`.
pub open spec fn step_empty(st: StateView) -> Step {
    (st, OutcomeView::Success(None))
}

/// Failure with status 600 and comment `msg`, in state `st`.
pub open spec fn step_not_found(st: StateView, msg: Seq<char>) -> Step {
    (st, OutcomeView::Failure(600, msg))
}

/// Success with data, in state `st`.
pub open spec fn reply(st: StateView, d: JsonView) -> Option<Step> {
    Some((st, OutcomeView::Success(Some(d))))
}

/// Success without data, in state `st`.
pub open spec fn reply_empty(st: StateView) -> Option<Step> {
    Some((st, OutcomeView::Success(None)))
}

/// Failure with status 600 and comment `msg`, in state `st`.
pub open spec fn reply_not_found(st: StateView, msg: Seq<char>) -> Option<Step> {
    Some((st, OutcomeView::Failure(600, msg)))
}

/// A group of requests answered as `spec` says: where `spec` does not answer,
/// the state is unchanged and nothing comes back.
pub open spec fn answers(r: Option<Outcome>, spec: Option<Step>, before: StateView, after: StateView) -> bool {
    match spec {
        None => r is None && after == before,
        Some((s, o)) => r is Some && r->0@ == o && after == s,
    }
}

pub fn done(d: JsonValue) -> (o: Outcome)
    ensures
        o@ == OutcomeView::Success(Some(d.deep())),
{
    Outcome::Success(Some(d))
}

pub fn done_empty() -> (o: Outcome)
    ensures
        o@ == OutcomeView::Success(None),
{
    Outcome::Success(None)
}

pub fn not_found(msg: &str) -> (o: Outcome)
    ensures
        o@ == OutcomeView::Failure(600, msg@),
{
    Outcome::Failure(REQUEST_STATUS_UNKNOWN, msg.to_string())
}

/// The data of a request: what it carries, or the empty object.
pub open spec fn data_view(data: Option<&JsonValue>) -> JsonView {
    match data {
        Some(d) => d.deep(),
        None => jempty(),
    }
}

/// How many fresh UUIDs a request reports or gives to what it creates.
pub open spec fn uuids_needed(rt: Seq<char>) -> nat {
    if rt == "GetSceneTransitionList"@ {
        3
    } else if rt == "CreateScene"@ || rt == "CreateInput"@ || rt == "CreateSceneItem"@ || rt
        == "DuplicateSceneItem"@ || rt == "GetCurrentSceneTransition"@ {
        1
    } else {
        0
    }
}

/// The inputs on which a request can be answered: the scene list needs the
/// program and preview scenes to exist, and each of their own listings the
/// scene it names; creating an item in an existing scene, or duplicating an
/// existing item, needs the largest item id to be below `u32::MAX`.
pub open spec fn can_handle(st: StateView, rt: Seq<char>, data: JsonView) -> bool {
    &&& rt == "GetSceneList"@ ==> current_scenes_exist(st)
    &&& rt == "GetCurrentProgramScene"@ ==> st.current_program_scene < st.scenes.len()
    &&& rt == "GetCurrentPreviewScene"@ ==> st.current_preview_scene < st.scenes.len()
    &&& needs_next_id(st, rt, data) ==> max_scene_item_id(st.scenes) < u32::MAX
}

/// What a request does to the state and what it comes to. `fresh` holds the
/// fresh UUIDs that the request uses, in order. A request type that no group
/// knows fails with status 600 and a comment that names it.
#[verifier::opaque]
pub open spec fn handle_spec(st: StateView, rt: Seq<char>, data: JsonView, fresh: Seq<Seq<char>>) -> Step {
    match general_spec(st, rt, data, fresh) {
        Some(x) => x,
        None => match config_spec(st, rt, data) {
            Some(x) => x,
            None => match scenes_spec(st, rt, data, fresh) {
                Some(x) => x,
                None => match inputs_spec(st, rt, data, fresh) {
                    Some(x) => x,
                    None => match items_spec(st, rt, data, fresh) {
                        Some(x) => x,
                        None => match outputs_spec(st, rt) {
                            Some(x) => x,
                            None => (st, OutcomeView::Failure(600, "Unknown request type: "@ + rt)),
                        },
                    },
                },
            },
        },
    }
}

/// The response that an outcome gives.
pub open spec fn response_view(rt: Seq<char>, rid: Seq<char>, o: OutcomeView) -> ResponseView {
    match o {
        OutcomeView::Success(d) => success_view(rt, rid, d),
        OutcomeView::Failure(c, m) => error_view(rt, rid, c, m),
    }
}

/// The state after a request.
pub open spec fn next_state(st: StateView, rt: Seq<char>, data: JsonView, fresh: Seq<Seq<char>>) -> StateView {
    handle_spec(st, rt, data, fresh).0
}

/// The response to a request.
pub open spec fn response_to(
    st: StateView,
    rt: Seq<char>,
    rid: Seq<char>,
    data: JsonView,
    fresh: Seq<Seq<char>>,
) -> ResponseView {
    response_view(rt, rid, handle_spec(st, rt, data, fresh).1)
}

/// Answers a request with the fresh UUIDs `fresh`, as `handle_spec` says.
pub fn respond(
    state: &mut ObsState,
    request_type: &str,
    request_id: &str,
    data: Option<&JsonValue>,
    fresh: &Vec<String>,
) -> (r: RequestResponse)
    requires
        can_handle(old(state)@, request_type@, data_view(data)),
        fresh.len() >= uuids_needed(request_type@),
    ensures
        final(state)@ == next_state(old(state)@, request_type@, data_view(data), fresh@.map_values(|u: String| u@)),
        r@ == response_to(
            old(state)@,
            request_type@,
            request_id@,
            data_view(data),
            fresh@.map_values(|u: String| u@),
        ),
{
    reveal(handle_spec);
    let empty = empty_object();
    let data = match data {
        Some(d) => d,
        None => &empty,
    };
    let outcome = if let Some(o) = handle_general(state, request_type, data, fresh) {
        o
    } else if let Some(o) = handle_config(state, request_type, data) {
        o
    } else if let Some(o) = handle_scenes(state, request_type, data, fresh) {
        o
    } else if let Some(o) = handle_inputs(state, request_type, data, fresh) {
        o
    } else if let Some(o) = handle_items(state, request_type, data, fresh) {
        o
    } else if let Some(o) = handle_outputs(state, request_type) {
        o
    } else {
        let mut comment = "Unknown request type: ".to_string();
        comment.append(request_type);
        Outcome::Failure(REQUEST_STATUS_UNKNOWN, comment)
    };
    match outcome {
        Outcome::Success(d) => RequestResponse::success(request_type.to_string(), request_id.to_string(), d),
        Outcome::Failure(code, comment) => RequestResponse::error(
            request_type.to_string(),
            request_id.to_string(),
            code,
            comment,
        ),
    }
}

/// How many fresh UUIDs a request needs, as `uuids_needed` says.
pub fn count_uuids(rt: &str) -> (n: usize)
    ensures
        n == uuids_needed(rt@),
{
    if str_eq(rt, "GetSceneTransitionList") {
        3
    } else if str_eq(rt, "CreateScene") || str_eq(rt, "CreateInput") || str_eq(rt, "CreateSceneItem") || str_eq(
        rt,
        "DuplicateSceneItem",
    ) || str_eq(rt, "GetCurrentSceneTransition") {
        1
    } else {
        0
    }
}

/// Answers a request, drawing the fresh UUIDs that it needs: the state and
/// the response are those that `handle_spec` gives for some version-4 UUIDs.
pub fn handle_request(
    state: &mut ObsState,
    request_type: &str,
    request_id: &str,
    data: Option<&JsonValue>,
) -> (r: RequestResponse)
    requires
        can_handle(old(state)@, request_type@, data_view(data)),
    ensures
        exists|fresh: Seq<Seq<char>>|
            {
                &&& fresh.len() == uuids_needed(request_type@)
                &&& forall|i: int| 0 <= i < fresh.len() ==> is_uuid_text(#[trigger] fresh[i])
                &&& final(state)@ == next_state(old(state)@, request_type@, data_view(data), fresh)
                &&& r@ == response_to(old(state)@, request_type@, request_id@, data_view(data), fresh)
            },
{
    let n = count_uuids(request_type);
    let mut fresh: Vec<String> = Vec::new();
    while fresh.len() < n
        invariant
            fresh.len() <= n,
            forall|i: int| 0 <= i < fresh.len() ==> is_uuid_text(#[trigger] fresh[i]@),
        decreases n - fresh.len(),
    {
        fresh.push(new_uuid());
    }
    let r = respond(state, request_type, request_id, data, &fresh);
    let ghost f = fresh@.map_values(|u: String| u@);
    assert(forall|i: int| 0 <= i < f.len() ==> is_uuid_text(#[trigger] f[i]));
    r
}

} // verus!
