//! One client connection: the handshake, then requests and request batches,
//! as a machine that takes a decoded message and tells what to do next.
use vstd::prelude::*;
use crate::auth::{accepts, is_token, AuthConfig};
use crate::handler::{can_handle, data_view, next_state, respond, response_to, uuids_needed};
use crate::json::{empty_object, get_u64, jempty, JsonValue, JsonView};
use crate::protocol::{
    batch_from, batch_response_json, hello_json, identified_json, identify_from, request_from,
    response_json, responses_view, AuthChallenge, Hello, Identified, Identify, Message, Request,
    RequestBatch, RequestBatchResponse, RequestResponse, RequestView, ResponseView, OP_HELLO,
    OP_IDENTIFIED, OP_IDENTIFY, OP_REIDENTIFY, OP_REQUEST, OP_REQUEST_BATCH, OP_REQUEST_BATCH_RESPONSE,
    OP_REQUEST_RESPONSE, RPC_VERSION,
};
use crate::state::{initial_state, is_uuid_text, max_scene_item_id, new_uuid, resolve_scene_spec, ObsState, StateView};
use crate::text::str_eq;

verus! {

broadcast use vstd::std_specs::vec::group_vec_axioms;

/// Whether a request can be answered, as `can_handle` says.
pub fn check_request(state: &ObsState, rt: &str, data: Option<&JsonValue>) -> (r: bool)
    ensures
        r == can_handle(state@, rt@, data_view(data)),
{
    let n = state.scenes.len();
    if str_eq(rt, "GetSceneList") && !(state.current_program_scene < n && state.current_preview_scene < n) {
        return false;
    }
    if str_eq(rt, "GetCurrentProgramScene") && !(state.current_program_scene < n) {
        return false;
    }
    if str_eq(rt, "GetCurrentPreviewScene") && !(state.current_preview_scene < n) {
        return false;
    }
    let create = str_eq(rt, "CreateSceneItem");
    let duplicate = str_eq(rt, "DuplicateSceneItem");
    if create || duplicate {
        let empty = empty_object();
        let d = match data {
            Some(d) => d,
            None => &empty,
        };
        if let Some(s) = state.resolve_scene(d) {
            let takes_id = if create {
                true
            } else {
                let item_id = (match get_u64(d, "sceneItemId") {
                    Some(k) => k,
                    None => 0,
                }) as u32;
                state.find_scene_item(s, item_id).is_some()
            };
            if takes_id && state.largest_item_id() == u32::MAX {
                return false;
            }
        }
    }
    true
}

/// The data of a request: what it carries, or the empty object.
pub open spec fn request_data(r: RequestView) -> JsonView {
    match r.request_data {
        Some(d) => d,
        None => jempty(),
    }
}

/// The data that a request carries.
fn data_of(r: &Request) -> (d: Option<&JsonValue>)
    ensures
        data_view(d) == request_data(r@),
{
    match &r.request_data {
        Some(d) => Some(d),
        None => None,
    }
}

/// What running the requests of a batch gives, with `fresh[i]` the fresh
/// UUIDs of request `i`: the state after, the responses in order, and whether
/// the run completed. With `halt`, the run stops after the first response that
/// is not a success. It stops short, incomplete, at a request that cannot be
/// answered.
pub open spec fn batch_run(
    st: StateView,
    reqs: Seq<RequestView>,
    halt: bool,
    fresh: Seq<Seq<Seq<char>>>,
) -> (StateView, Seq<ResponseView>, bool)
    decreases reqs.len(),
{
    if reqs.len() == 0 {
        (st, Seq::empty(), true)
    } else {
        let r = reqs[0];
        let d = request_data(r);
        if !can_handle(st, r.request_type, d) {
            (st, Seq::empty(), false)
        } else {
            let next = next_state(st, r.request_type, d, fresh[0]);
            let resp = response_to(st, r.request_type, r.request_id, d, fresh[0]);
            if halt && !resp.result {
                (next, seq![resp], true)
            } else {
                let rest = batch_run(next, reqs.drop_first(), halt, fresh.drop_first());
                (rest.0, seq![resp] + rest.1, rest.2)
            }
        }
    }
}

/// The fresh UUIDs of each request, as models.
pub open spec fn fresh_view(f: Seq<Vec<String>>) -> Seq<Seq<Seq<char>>> {
    f.map_values(|v: Vec<String>| v@.map_values(|u: String| u@))
}

/// Every entry of `fresh` is a version-4 UUID.
pub open spec fn all_uuids(fresh: Seq<Seq<Seq<char>>>) -> bool {
    forall|i: int, j: int| 0 <= i < fresh.len() && 0 <= j < fresh[i].len() ==> is_uuid_text(#[trigger] fresh[i][j])
}

/// Each request has as many fresh UUIDs as it needs.
pub open spec fn fresh_fits(reqs: Seq<RequestView>, fresh: Seq<Seq<Seq<char>>>) -> bool {
    &&& fresh.len() == reqs.len()
    &&& forall|i: int| 0 <= i < reqs.len() ==> #[trigger] fresh[i].len() == uuids_needed(reqs[i].request_type)
}

/// The fresh UUIDs that an identified connection hands a message: for a
/// request that can be answered, one list of as many as it needs; for a
/// batch, one such list for each of its requests.
pub open spec fn uuids_fit(phase: Phase, st: StateView, op: u8, d: JsonView, fresh: Seq<Seq<Seq<char>>>) -> bool {
    phase == Phase::Identified ==> {
        &&& op == OP_REQUEST ==> (request_from(d) matches Some(r) ==> (can_handle(
            st,
            r.request_type,
            request_data(r),
        ) ==> fresh.len() == 1 && fresh[0].len() == uuids_needed(r.request_type)))
        &&& op == OP_REQUEST_BATCH ==> (batch_from(d) matches Some(b) ==> fresh_fits(b.requests, fresh))
    }
}

/// Runs the requests of `reqs` as `batch_run` says, with the fresh UUIDs
/// `fresh`.
pub fn run_batch(state: &mut ObsState, reqs: &Vec<Request>, halt: bool, fresh: &Vec<Vec<String>>) -> (r: (
    Vec<RequestResponse>,
    bool,
))
    requires
        fresh.len() == reqs.len(),
        forall|i: int| 0 <= i < reqs.len() ==> #[trigger] fresh[i].len() >= uuids_needed(reqs[i].request_type@),
    ensures
        (final(state)@, responses_view(r.0@), r.1) == batch_run(
            old(state)@,
            crate::protocol::requests_view(reqs@),
            halt,
            fresh_view(fresh@),
        ),
{
    let ghost rv = crate::protocol::requests_view(reqs@);
    let ghost fv = fresh_view(fresh@);
    let ghost total = batch_run(state@, rv, halt, fv);
    let mut results: Vec<RequestResponse> = Vec::new();
    let mut i: usize = 0;
    assert(rv.skip(0) =~= rv);
    assert(fv.skip(0) =~= fv);
    assert(responses_view(results@) + total.1 =~= total.1);
    while i < reqs.len()
        invariant
            i <= reqs.len(),
            total == batch_run(old(state)@, rv, halt, fv),
            fresh.len() == reqs.len(),
            forall|k: int| 0 <= k < reqs.len() ==> #[trigger] fresh[k].len() >= uuids_needed(reqs[k].request_type@),
            rv == crate::protocol::requests_view(reqs@),
            fv == fresh_view(fresh@),
            ({
                let rest = batch_run(state@, rv.skip(i as int), halt, fv.skip(i as int));
                total == (rest.0, responses_view(results@) + rest.1, rest.2)
            }),
        decreases reqs.len() - i,
    {
        let req = &reqs[i];
        let ghost st = state@;
        proof {
            assert(rv.skip(i as int)[0] == req@);
            assert(rv.skip(i as int).drop_first() =~= rv.skip(i + 1));
            assert(fv.skip(i as int)[0] == fresh[i as int]@.map_values(|u: String| u@));
            assert(fv.skip(i as int).drop_first() =~= fv.skip(i + 1));
        }
        let data = data_of(req);
        if !check_request(state, req.request_type.as_str(), data) {
            assert(responses_view(results@) + Seq::empty() =~= responses_view(results@));
            return (results, false);
        }
        let resp = respond(state, req.request_type.as_str(), req.request_id.as_str(), data, &fresh[i]);
        let failed = !resp.request_status.result;
        let ghost before = results@;
        results.push(resp);
        proof {
            assert(responses_view(results@) =~= responses_view(before).push(resp@));
        }
        if halt && failed {
            assert(responses_view(before) + seq![resp@] =~= responses_view(results@));
            return (results, true);
        }
        proof {
            let rest = batch_run(state@, rv.skip(i + 1), halt, fv.skip(i + 1));
            assert(responses_view(before) + (seq![resp@] + rest.1) =~= responses_view(results@) + rest.1);
        }
        i = i + 1;
    }
    proof {
        assert(rv.skip(i as int) =~= Seq::<RequestView>::empty());
        assert(responses_view(results@) + Seq::empty() =~= responses_view(results@));
    }
    (results, true)
}

/// Fresh UUIDs for each of `reqs`, as many as each needs.
fn draw_uuids(reqs: &Vec<Request>) -> (f: Vec<Vec<String>>)
    ensures
        f.len() == reqs.len(),
        forall|i: int| 0 <= i < reqs.len() ==> #[trigger] f[i].len() == uuids_needed(reqs[i].request_type@),
        all_uuids(fresh_view(f@)),
{
    let mut f: Vec<Vec<String>> = Vec::new();
    let mut i: usize = 0;
    while i < reqs.len()
        invariant
            i <= reqs.len(),
            f.len() == i,
            forall|k: int| 0 <= k < i ==> #[trigger] f[k].len() == uuids_needed(reqs[k].request_type@),
            forall|k: int, j: int| 0 <= k < i && 0 <= j < f[k].len() ==> is_uuid_text(#[trigger] f[k][j]@),
        decreases reqs.len() - i,
    {
        let n = crate::handler::count_uuids(reqs[i].request_type.as_str());
        let mut one: Vec<String> = Vec::new();
        while one.len() < n
            invariant
                one.len() <= n,
                forall|j: int| 0 <= j < one.len() ==> is_uuid_text(#[trigger] one[j]@),
            decreases n - one.len(),
        {
            one.push(new_uuid());
        }
        f.push(one);
        i = i + 1;
    }
    let ghost fv = fresh_view(f@);
    assert forall|k: int, j: int| 0 <= k < fv.len() && 0 <= j < fv[k].len() implies is_uuid_text(#[trigger] fv[k][j]) by {
        assert(fv[k][j] == f[k][j]@);
    }
    f
}

/// Answers a request batch, drawing the fresh UUIDs that its requests need;
/// the responses are those of `batch_run` for some such UUIDs. Nothing comes
/// back where the run stopped at a request that cannot be answered.
pub fn handle_batch(state: &mut ObsState, batch: &RequestBatch) -> (r: Option<RequestBatchResponse>)
    ensures
        exists|fresh: Seq<Seq<Seq<char>>>|
            {
                let run = batch_run(
                    old(state)@,
                    batch@.requests,
                    match batch.halt_on_failure {
                        Some(h) => h,
                        None => false,
                    },
                    fresh,
                );
                &&& #[trigger] all_uuids(fresh)
                &&& fresh_fits(batch@.requests, fresh)
                &&& final(state)@ == run.0
                &&& match r {
                    Some(b) => run.2 && b.request_id@ == batch.request_id@ && responses_view(b.results@) == run.1,
                    None => !run.2,
                }
            },
{
    let halt = match batch.halt_on_failure {
        Some(h) => h,
        None => false,
    };
    let fresh = draw_uuids(&batch.requests);
    let (results, complete) = run_batch(state, &batch.requests, halt, &fresh);
    let ghost fv = fresh_view(fresh@);
    assert(fv.len() == batch.requests.len());
    assert(fresh_fits(batch@.requests, fv)) by {
        assert forall|i: int| 0 <= i < batch@.requests.len() implies #[trigger] fv[i].len()
            == uuids_needed(batch@.requests[i].request_type) by {
            assert(fv[i].len() == fresh[i].len());
        }
    }
    if complete {
        Some(RequestBatchResponse { request_id: batch.request_id.clone(), results })
    } else {
        None
    }
}


/// Where a connection stands.
#[derive(Debug, PartialEq)]
pub enum Phase {
    /// `Hello` was sent; an `Identify` is awaited.
    AwaitingIdentify,
    /// The client identified; requests are answered.
    Identified,
    /// The connection is to be ended.
    Closed,
}

/// What to do after a message.
#[derive(Debug, PartialEq)]
pub enum Action {
    /// Send this message.
    Send(Message),
    /// Close the connection in good order.
    Close,
    /// Do nothing.
    Ignore,
    /// End the connection with an error: a request or batch payload could not
    /// be decoded.
    Fail,
    /// End the connection: a request cannot be answered.
    Abort,
}

/// The model of an `Action`.
pub enum ActionView {
    Send(u8, JsonView),
    Close,
    Ignore,
    Fail,
    Abort,
}

impl View for Action {
    type V = ActionView;

    open spec fn view(&self) -> ActionView {
        match self {
            Action::Send(m) => ActionView::Send(m.op, m.d.deep()),
            Action::Close => ActionView::Close,
            Action::Ignore => ActionView::Ignore,
            Action::Fail => ActionView::Fail,
            Action::Abort => ActionView::Abort,
        }
    }
}

/// One connection: its credentials, where it stands, and the state of the
/// mock instance that its requests see.
pub struct Session {
    pub auth: AuthConfig,
    pub phase: Phase,
    pub state: ObsState,
}

/// The version of obs-websocket that the server reports.
pub open spec fn server_version() -> Seq<char> {
    "5.5.4"@
}

/// The smaller of two versions.
pub open spec fn min_version(a: u32, b: u32) -> u32 {
    if a < b { a } else { b }
}

/// The payload of the `Hello` that a connection opens with.
pub open spec fn hello_payload(auth: AuthConfig) -> JsonView {
    hello_json(
        server_version(),
        RPC_VERSION,
        match auth.password {
            Some(_) => Some((auth.challenge@, auth.salt@)),
            None => None,
        },
    )
}

/// What a message does to a connection: the phase after, the state after and
/// the action. `fresh` holds the fresh UUIDs of each request that the message
/// carries. Before identification only `Identify` counts: a payload that is
/// not one is ignored, a wrong password closes the connection, and otherwise
/// the negotiated RPC version is the smaller of the client's and ours. After
/// it, requests and batches are answered, a payload that is not one ends the
/// connection with an error, and `Reidentify` is answered with our version.
pub open spec fn session_step(
    phase: Phase,
    auth: AuthConfig,
    st: StateView,
    op: u8,
    d: JsonView,
    fresh: Seq<Seq<Seq<char>>>,
) -> (Phase, StateView, ActionView) {
    match phase {
        Phase::AwaitingIdentify => if op == OP_IDENTIFY {
            match identify_from(d) {
                None => (phase, st, ActionView::Ignore),
                Some(id) => {
                    let given = match id.authentication {
                        Some(a) => a,
                        None => ""@,
                    };
                    if auth.password is Some && !accepts(auth, given) {
                        (Phase::Closed, st, ActionView::Close)
                    } else {
                        (
                            Phase::Identified,
                            st,
                            ActionView::Send(OP_IDENTIFIED, identified_json(min_version(id.rpc_version, RPC_VERSION))),
                        )
                    }
                },
            }
        } else {
            (phase, st, ActionView::Ignore)
        },
        Phase::Identified => if op == OP_REQUEST {
            match request_from(d) {
                None => (Phase::Closed, st, ActionView::Fail),
                Some(r) => {
                    let data = request_data(r);
                    if !can_handle(st, r.request_type, data) {
                        (Phase::Closed, st, ActionView::Abort)
                    } else {
                        (
                            phase,
                            next_state(st, r.request_type, data, fresh[0]),
                            ActionView::Send(
                                OP_REQUEST_RESPONSE,
                                response_json(response_to(st, r.request_type, r.request_id, data, fresh[0])),
                            ),
                        )
                    }
                },
            }
        } else if op == OP_REQUEST_BATCH {
            match batch_from(d) {
                None => (Phase::Closed, st, ActionView::Fail),
                Some(b) => {
                    let halt = match b.halt_on_failure {
                        Some(h) => h,
                        None => false,
                    };
                    let run = batch_run(st, b.requests, halt, fresh);
                    if run.2 {
                        (phase, run.0, ActionView::Send(OP_REQUEST_BATCH_RESPONSE, batch_response_json(b.request_id, run.1)))
                    } else {
                        (Phase::Closed, run.0, ActionView::Abort)
                    }
                },
            }
        } else if op == OP_REIDENTIFY {
            (phase, st, ActionView::Send(OP_IDENTIFIED, identified_json(RPC_VERSION)))
        } else {
            (phase, st, ActionView::Ignore)
        },
        Phase::Closed => (phase, st, ActionView::Ignore),
    }
}

impl Session {
    /// A new connection with the given password, and the `Hello` message that
    /// opens it: the salt and challenge are fresh tokens, and the state is the
    /// initial one for some fresh UUIDs.
    pub fn start(password: Option<String>) -> (r: (Session, Message))
        ensures
            r.0.auth.password == password,
            is_token(r.0.auth.salt@, 32),
            is_token(r.0.auth.challenge@, 32),
            r.0.phase == Phase::AwaitingIdentify,
            exists|ids: Seq<Seq<char>>|
                ids.len() == 20 && (forall|i: int| 0 <= i < 20 ==> is_uuid_text(#[trigger] ids[i])) && r.0.state@
                    == initial_state(ids),
            r.1.op == OP_HELLO,
            r.1.d.deep() == hello_payload(r.0.auth),
    {
        let auth = AuthConfig::new(password);
        let authentication = if auth.requires_auth() {
            Some(AuthChallenge { challenge: auth.challenge.clone(), salt: auth.salt.clone() })
        } else {
            None
        };
        let hello = Hello {
            obs_web_socket_version: "5.5.4".to_string(),
            rpc_version: RPC_VERSION,
            authentication,
        };
        let d = hello.to_json();
        let state = ObsState::new();
        (Session { auth, phase: Phase::AwaitingIdentify, state }, Message::new(OP_HELLO, d))
    }

    /// Whether a ping is answered: only once the client has identified.
    pub fn answers_ping(&self) -> (r: bool)
        ensures
            r == (self.phase == Phase::Identified),
    {
        match self.phase {
            Phase::Identified => true,
            _ => false,
        }
    }

    fn on_identify(&mut self, d: &JsonValue) -> (a: Action)
        requires
            old(self).phase == Phase::AwaitingIdentify,
        ensures
            final(self).auth == old(self).auth,
            final(self).state == old(self).state,
            (final(self).phase, final(self).state@, a@) == session_step(
                old(self).phase,
                old(self).auth,
                old(self).state@,
                OP_IDENTIFY,
                d.deep(),
                Seq::empty(),
            ),
    {
        match Identify::from_json(d) {
            None => Action::Ignore,
            Some(id) => {
                let given = match &id.authentication {
                    Some(a) => a.as_str(),
                    None => "",
                };
                if self.auth.requires_auth() && !self.auth.verify(given) {
                    self.phase = Phase::Closed;
                    Action::Close
                } else {
                    self.phase = Phase::Identified;
                    let v = if id.rpc_version < RPC_VERSION { id.rpc_version } else { RPC_VERSION };
                    let reply = Identified { negotiated_rpc_version: v };
                    Action::Send(Message::new(OP_IDENTIFIED, reply.to_json()))
                }
            },
        }
    }

    fn on_request(&mut self, d: &JsonValue) -> (a: Action)
        requires
            old(self).phase == Phase::Identified,
        ensures
            final(self).auth == old(self).auth,
            exists|fresh: Seq<Seq<Seq<char>>>|
                #[trigger] all_uuids(fresh) && uuids_fit(old(self).phase, old(self).state@, OP_REQUEST, d.deep(), fresh)
                    && (final(self).phase, final(self).state@, a@) == session_step(
                    old(self).phase,
                    old(self).auth,
                    old(self).state@,
                    OP_REQUEST,
                    d.deep(),
                    fresh,
                ),
    {
        match Request::from_json(d) {
            None => {
                self.phase = Phase::Closed;
                assert(all_uuids(Seq::empty()));
                Action::Fail
            },
            Some(req) => {
                let data = data_of(&req);
                if !check_request(&self.state, req.request_type.as_str(), data) {
                    self.phase = Phase::Closed;
                    assert(all_uuids(Seq::empty()));
                    return Action::Abort;
                }
                let n = crate::handler::count_uuids(req.request_type.as_str());
                let mut one: Vec<String> = Vec::new();
                while one.len() < n
                    invariant
                        one.len() <= n,
                        forall|j: int| 0 <= j < one.len() ==> is_uuid_text(#[trigger] one[j]@),
                    decreases n - one.len(),
                {
                    one.push(new_uuid());
                }
                let resp = respond(&mut self.state, req.request_type.as_str(), req.request_id.as_str(), data, &one);
                let ghost f = seq![one@.map_values(|u: String| u@)];
                assert(all_uuids(f)) by {
                    assert forall|i: int, j: int| 0 <= i < f.len() && 0 <= j < f[i].len() implies is_uuid_text(#[trigger] f[i][j]) by {
                        assert(f[i][j] == one[j]@);
                    }
                }
                Action::Send(Message::new(OP_REQUEST_RESPONSE, resp.to_json()))
            },
        }
    }

    fn on_batch(&mut self, d: &JsonValue) -> (a: Action)
        requires
            old(self).phase == Phase::Identified,
        ensures
            final(self).auth == old(self).auth,
            exists|fresh: Seq<Seq<Seq<char>>>|
                #[trigger] all_uuids(fresh) && uuids_fit(old(self).phase, old(self).state@, OP_REQUEST_BATCH, d.deep(), fresh)
                    && (final(self).phase, final(self).state@, a@) == session_step(
                    old(self).phase,
                    old(self).auth,
                    old(self).state@,
                    OP_REQUEST_BATCH,
                    d.deep(),
                    fresh,
                ),
    {
        match RequestBatch::from_json(d) {
            None => {
                self.phase = Phase::Closed;
                assert(all_uuids(Seq::empty()));
                Action::Fail
            },
            Some(batch) => {
                match handle_batch(&mut self.state, &batch) {
                    Some(r) => Action::Send(Message::new(OP_REQUEST_BATCH_RESPONSE, r.to_json())),
                    None => {
                        self.phase = Phase::Closed;
                        Action::Abort
                    },
                }
            },
        }
    }

    /// Takes one decoded message and tells what to do, as `session_step` says
    /// for some fresh version-4 UUIDs, as many for each request as it needs.
    pub fn on_message(&mut self, msg: &Message) -> (a: Action)
        ensures
            final(self).auth == old(self).auth,
            exists|fresh: Seq<Seq<Seq<char>>>|
                #[trigger] all_uuids(fresh) && uuids_fit(old(self).phase, old(self).state@, msg.op, msg.d.deep(), fresh)
                    && (final(self).phase, final(self).state@, a@) == session_step(
                    old(self).phase,
                    old(self).auth,
                    old(self).state@,
                    msg.op,
                    msg.d.deep(),
                    fresh,
                ),
    {
        match self.phase {
            Phase::AwaitingIdentify => {
                if msg.op == OP_IDENTIFY {
                    let a = self.on_identify(&msg.d);
                    assert(all_uuids(Seq::empty()));
                    a
                } else {
                    assert(all_uuids(Seq::empty()));
                    Action::Ignore
                }
            },
            Phase::Identified => {
                if msg.op == OP_REQUEST {
                    self.on_request(&msg.d)
                } else if msg.op == OP_REQUEST_BATCH {
                    self.on_batch(&msg.d)
                } else if msg.op == OP_REIDENTIFY {
                    let reply = Identified { negotiated_rpc_version: RPC_VERSION };
                    assert(all_uuids(Seq::empty()));
                    Action::Send(Message::new(OP_IDENTIFIED, reply.to_json()))
                } else {
                    assert(all_uuids(Seq::empty()));
                    Action::Ignore
                }
            },
            Phase::Closed => {
                assert(all_uuids(Seq::empty()));
                Action::Ignore
            },
        }
    }
}

} // verus!
