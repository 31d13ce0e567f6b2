//! The obs-websocket 5.x messages: op codes, status codes and the payloads of
//! the handshake and of requests.
use vstd::prelude::*;
use crate::json::{
    array, entries_view, field, items_view as json_items, lemma_entries_view, lemma_items_view, lookup,
    object, text, uint, Entries, JsonNumber, JsonValue, JsonView,
};

verus! {

pub const OP_HELLO: u8 = 0;
pub const OP_IDENTIFY: u8 = 1;
pub const OP_IDENTIFIED: u8 = 2;
pub const OP_REIDENTIFY: u8 = 3;
pub const OP_EVENT: u8 = 5;
pub const OP_REQUEST: u8 = 6;
pub const OP_REQUEST_RESPONSE: u8 = 7;
pub const OP_REQUEST_BATCH: u8 = 8;
pub const OP_REQUEST_BATCH_RESPONSE: u8 = 9;

pub const REQUEST_STATUS_SUCCESS: u16 = 100;
pub const REQUEST_STATUS_UNKNOWN: u16 = 600;

pub const RPC_VERSION: u32 = 1;

/// A message on the wire: an op code and its payload.
#[derive(Debug, PartialEq)]
pub struct Message {
    pub op: u8,
    pub d: JsonValue,
}

#[derive(Debug, PartialEq)]
pub struct Hello {
    pub obs_web_socket_version: String,
    pub rpc_version: u32,
    pub authentication: Option<AuthChallenge>,
}

#[derive(Debug, PartialEq)]
pub struct AuthChallenge {
    pub challenge: String,
    pub salt: String,
}

#[derive(Debug, PartialEq)]
pub struct Identify {
    pub rpc_version: u32,
    pub authentication: Option<String>,
    pub event_subscriptions: Option<u32>,
}

#[derive(Debug, PartialEq)]
pub struct Identified {
    pub negotiated_rpc_version: u32,
}

#[derive(Debug, PartialEq)]
pub struct Request {
    pub request_type: String,
    pub request_id: String,
    pub request_data: Option<JsonValue>,
}

#[derive(Debug, PartialEq)]
pub struct RequestResponse {
    pub request_type: String,
    pub request_id: String,
    pub request_status: RequestStatus,
    pub response_data: Option<JsonValue>,
}

#[derive(Debug, PartialEq)]
pub struct RequestStatus {
    pub result: bool,
    pub code: u16,
    pub comment: Option<String>,
}

#[derive(Debug, PartialEq)]
pub struct RequestBatch {
    pub request_id: String,
    pub halt_on_failure: Option<bool>,
    pub execution_type: Option<u8>,
    pub requests: Vec<Request>,
}

#[derive(Debug, PartialEq)]
pub struct RequestBatchResponse {
    pub request_id: String,
    pub results: Vec<RequestResponse>,
}

/// The model of an optional JSON value.
pub open spec fn opt_json(v: Option<JsonValue>) -> Option<JsonView> {
    match v {
        Some(j) => Some(j.deep()),
        None => None,
    }
}

/// The model of an optional string.
pub open spec fn opt_str(v: Option<String>) -> Option<Seq<char>> {
    match v {
        Some(s) => Some(s@),
        None => None,
    }
}

/// The model of a response to one request.
pub struct ResponseView {
    pub request_type: Seq<char>,
    pub request_id: Seq<char>,
    pub result: bool,
    pub code: u16,
    pub comment: Option<Seq<char>>,
    pub data: Option<JsonView>,
}

impl View for RequestResponse {
    type V = ResponseView;

    open spec fn view(&self) -> ResponseView {
        ResponseView {
            request_type: self.request_type@,
            request_id: self.request_id@,
            result: self.request_status.result,
            code: self.request_status.code,
            comment: opt_str(self.request_status.comment),
            data: opt_json(self.response_data),
        }
    }
}

/// A successful response, with its data if any.
pub open spec fn success_view(request_type: Seq<char>, request_id: Seq<char>, data: Option<JsonView>) -> ResponseView {
    ResponseView { request_type, request_id, result: true, code: REQUEST_STATUS_SUCCESS, comment: None, data }
}

/// A failed response with its code and comment.
pub open spec fn error_view(request_type: Seq<char>, request_id: Seq<char>, code: u16, comment: Seq<char>) -> ResponseView {
    ResponseView { request_type, request_id, result: false, code, comment: Some(comment), data: None }
}

impl Message {
    /// A message with op code `op` and payload `d`.
    pub fn new(op: u8, d: JsonValue) -> (m: Self)
        ensures
            m.op == op,
            m.d == d,
    {
        Message { op, d }
    }
}

impl RequestResponse {
    /// A successful response carrying `response_data`.
    pub fn success(request_type: String, request_id: String, response_data: Option<JsonValue>) -> (r: Self)
        ensures
            r@ == success_view(request_type@, request_id@, opt_json(response_data)),
    {
        RequestResponse {
            request_type,
            request_id,
            request_status: RequestStatus { result: true, code: REQUEST_STATUS_SUCCESS, comment: None },
            response_data,
        }
    }

    /// A failed response with status `code` and `comment`.
    pub fn error(request_type: String, request_id: String, code: u16, comment: String) -> (r: Self)
        ensures
            r@ == error_view(request_type@, request_id@, code, comment@),
    {
        RequestResponse {
            request_type,
            request_id,
            request_status: RequestStatus { result: false, code, comment: Some(comment) },
            response_data: None,
        }
    }
}


// ---------------------------------------------------------------------------
// Outgoing payloads
// ---------------------------------------------------------------------------

/// The entries of `Hello`: the version, the RPC version and, where a password
/// is set, the challenge and salt.
pub open spec fn hello_json(version: Seq<char>, rpc_version: u32, auth: Option<(Seq<char>, Seq<char>)>) -> JsonView {
    let es = seq![("obsWebSocketVersion"@, JsonView::Str(version)), ("rpcVersion"@, JsonView::Number(JsonNumber::PosInt(rpc_version as u64)))];
    JsonView::Object(
        match auth {
            Some((challenge, salt)) => es.push(
                ("authentication"@, JsonView::Object(seq![("challenge"@, JsonView::Str(challenge)), ("salt"@, JsonView::Str(salt))])),
            ),
            None => es,
        },
    )
}

impl Hello {
    pub open spec fn auth_view(&self) -> Option<(Seq<char>, Seq<char>)> {
        match self.authentication {
            Some(a) => Some((a.challenge@, a.salt@)),
            None => None,
        }
    }

    /// The JSON payload of this message; the authentication entry is left out
    /// where there is none.
    pub fn to_json(&self) -> (j: JsonValue)
        ensures
            j.deep() == hello_json(self.obs_web_socket_version@, self.rpc_version, self.auth_view()),
    {
        let mut es: Vec<(String, JsonValue)> = vec![
            field("obsWebSocketVersion", text(self.obs_web_socket_version.as_str())),
            field("rpcVersion", uint(self.rpc_version as u64)),
        ];
        let ghost base = seq![("obsWebSocketVersion"@, JsonView::Str(self.obs_web_socket_version@)), ("rpcVersion"@, JsonView::Number(JsonNumber::PosInt(self.rpc_version as u64)))];
        proof {
            lemma_entries_view(&es);
            assert(entries_view(&es) =~= base);
        }
        match &self.authentication {
            Some(a) => {
                let inner: Vec<(String, JsonValue)> = vec![
                    field("challenge", text(a.challenge.as_str())),
                    field("salt", text(a.salt.as_str())),
                ];
                proof {
                    lemma_entries_view(&inner);
                    assert(entries_view(&inner) =~= seq![("challenge"@, JsonView::Str(a.challenge@)), ("salt"@, JsonView::Str(a.salt@))]);
                }
                es.push(field("authentication", object(inner)));
                proof {
                    lemma_entries_view(&es);
                    assert(entries_view(&es) =~= base.push(
                        ("authentication"@, JsonView::Object(seq![("challenge"@, JsonView::Str(a.challenge@)), ("salt"@, JsonView::Str(a.salt@))])),
                    ));
                }
            },
            None => {},
        }
        object(es)
    }
}

/// The payload of `Identified`.
pub open spec fn identified_json(version: u32) -> JsonView {
    JsonView::Object(seq![("negotiatedRpcVersion"@, JsonView::Number(JsonNumber::PosInt(version as u64)))])
}

impl Identified {
    /// The JSON payload of this message.
    pub fn to_json(&self) -> (j: JsonValue)
        ensures
            j.deep() == identified_json(self.negotiated_rpc_version),
    {
        let es: Vec<(String, JsonValue)> = vec![field("negotiatedRpcVersion", uint(self.negotiated_rpc_version as u64))];
        proof {
            lemma_entries_view(&es);
            assert(entries_view(&es) =~= seq![("negotiatedRpcVersion"@, JsonView::Number(JsonNumber::PosInt(self.negotiated_rpc_version as u64)))]);
        }
        object(es)
    }
}

/// The status of a response as JSON; the comment is left out where there is
/// none.
pub open spec fn status_json(r: ResponseView) -> JsonView {
    let es = seq![("result"@, JsonView::Bool(r.result)), ("code"@, JsonView::Number(JsonNumber::PosInt(r.code as u64)))];
    JsonView::Object(
        match r.comment {
            Some(c) => es.push(("comment"@, JsonView::Str(c))),
            None => es,
        },
    )
}

/// A response as JSON; the data is left out where there is none.
pub open spec fn response_json(r: ResponseView) -> JsonView {
    let es = seq![("requestType"@, JsonView::Str(r.request_type)), ("requestId"@, JsonView::Str(r.request_id)), ("requestStatus"@, status_json(r))];
    JsonView::Object(
        match r.data {
            Some(d) => es.push(("responseData"@, d)),
            None => es,
        },
    )
}

/// The responses of a batch as JSON.
pub open spec fn responses_json(rs: Seq<ResponseView>) -> Seq<JsonView> {
    rs.map_values(|r: ResponseView| response_json(r))
}

/// The payload of `RequestBatchResponse`.
pub open spec fn batch_response_json(request_id: Seq<char>, results: Seq<ResponseView>) -> JsonView {
    JsonView::Object(seq![("requestId"@, JsonView::Str(request_id)), ("results"@, JsonView::Array(responses_json(results)))])
}

pub open spec fn responses_view(rs: Seq<RequestResponse>) -> Seq<ResponseView> {
    rs.map_values(|r: RequestResponse| r@)
}

impl RequestStatus {
    /// The JSON of this status.
    pub fn to_json(&self, owner: &RequestResponse) -> (j: JsonValue)
        requires
            owner.request_status == *self,
        ensures
            j.deep() == status_json(owner@),
    {
        let mut es: Vec<(String, JsonValue)> = vec![
            field("result", JsonValue::Bool(self.result)),
            field("code", uint(self.code as u64)),
        ];
        let ghost base = seq![("result"@, JsonView::Bool(self.result)), ("code"@, JsonView::Number(JsonNumber::PosInt(self.code as u64)))];
        proof {
            lemma_entries_view(&es);
            assert(entries_view(&es) =~= base);
        }
        match &self.comment {
            Some(c) => {
                es.push(field("comment", text(c.as_str())));
                proof {
                    lemma_entries_view(&es);
                    assert(entries_view(&es) =~= base.push(("comment"@, JsonView::Str(c@))));
                }
            },
            None => {},
        }
        object(es)
    }
}

impl RequestResponse {
    /// The JSON payload of this response.
    pub fn to_json(&self) -> (j: JsonValue)
        ensures
            j.deep() == response_json(self@),
    {
        let status = self.request_status.to_json(self);
        let mut es: Vec<(String, JsonValue)> = vec![
            field("requestType", text(self.request_type.as_str())),
            field("requestId", text(self.request_id.as_str())),
            field("requestStatus", status),
        ];
        let ghost base = seq![("requestType"@, JsonView::Str(self.request_type@)), ("requestId"@, JsonView::Str(self.request_id@)), ("requestStatus"@, status_json(self@))];
        proof {
            lemma_entries_view(&es);
            assert(entries_view(&es) =~= base);
        }
        match &self.response_data {
            Some(d) => {
                es.push(field("responseData", d.duplicate()));
                proof {
                    lemma_entries_view(&es);
                    assert(entries_view(&es) =~= base.push(("responseData"@, d.deep())));
                }
            },
            None => {},
        }
        object(es)
    }
}

impl RequestBatchResponse {
    /// The JSON payload of this batch response.
    pub fn to_json(&self) -> (j: JsonValue)
        ensures
            j.deep() == batch_response_json(self.request_id@, responses_view(self.results@)),
    {
        let mut items: Vec<JsonValue> = Vec::new();
        let mut i: usize = 0;
        while i < self.results.len()
            invariant
                i <= self.results.len(),
                items.len() == i,
                forall|k: int| 0 <= k < i ==> (#[trigger] items[k]).deep() == response_json(self.results[k]@),
            decreases self.results.len() - i,
        {
            items.push(self.results[i].to_json());
            i = i + 1;
        }
        proof {
            lemma_items_view(&items);
            assert(json_items(&items) =~= responses_json(responses_view(self.results@)));
        }
        let es: Vec<(String, JsonValue)> = vec![field("requestId", text(self.request_id.as_str())), field("results", array(items))];
        proof {
            lemma_entries_view(&es);
            assert(entries_view(&es) =~= seq![("requestId"@, JsonView::Str(self.request_id@)), ("results"@, JsonView::Array(responses_json(responses_view(self.results@))))]);
        }
        object(es)
    }
}


// ---------------------------------------------------------------------------
// Incoming payloads
// ---------------------------------------------------------------------------

pub struct IdentifyView {
    pub rpc_version: u32,
    pub authentication: Option<Seq<char>>,
    pub event_subscriptions: Option<u32>,
}

pub struct RequestView {
    pub request_type: Seq<char>,
    pub request_id: Seq<char>,
    pub request_data: Option<JsonView>,
}

pub struct BatchView {
    pub request_id: Seq<char>,
    pub halt_on_failure: Option<bool>,
    pub execution_type: Option<u8>,
    pub requests: Seq<RequestView>,
}

impl View for Identify {
    type V = IdentifyView;

    open spec fn view(&self) -> IdentifyView {
        IdentifyView {
            rpc_version: self.rpc_version,
            authentication: opt_str(self.authentication),
            event_subscriptions: self.event_subscriptions,
        }
    }
}

impl View for Request {
    type V = RequestView;

    open spec fn view(&self) -> RequestView {
        RequestView {
            request_type: self.request_type@,
            request_id: self.request_id@,
            request_data: opt_json(self.request_data),
        }
    }
}

pub open spec fn requests_view(rs: Seq<Request>) -> Seq<RequestView> {
    rs.map_values(|r: Request| r@)
}

impl View for RequestBatch {
    type V = BatchView;

    open spec fn view(&self) -> BatchView {
        BatchView {
            request_id: self.request_id@,
            halt_on_failure: self.halt_on_failure,
            execution_type: self.execution_type,
            requests: requests_view(self.requests@),
        }
    }
}

/// A JSON number that fits a `u32`.
pub open spec fn u32_of(v: JsonView) -> Option<u32> {
    match v {
        JsonView::Number(JsonNumber::PosInt(n)) => if n <= u32::MAX { Some(n as u32) } else { None },
        _ => None,
    }
}

/// A JSON number that fits a `u8`.
pub open spec fn u8_of(v: JsonView) -> Option<u8> {
    match v {
        JsonView::Number(JsonNumber::PosInt(n)) => if n <= u8::MAX { Some(n as u8) } else { None },
        _ => None,
    }
}

pub open spec fn string_of(v: JsonView) -> Option<Seq<char>> {
    match v {
        JsonView::Str(s) => Some(s),
        _ => None,
    }
}

pub open spec fn bool_of(v: JsonView) -> Option<bool> {
    match v {
        JsonView::Bool(b) => Some(b),
        _ => None,
    }
}

/// A payload that can hold a struct of `n` fields: an object, or an array of
/// exactly `n` elements, the fields in order.
pub open spec fn has_shape(v: JsonView, n: int) -> bool {
    match v {
        JsonView::Object(_) => true,
        JsonView::Array(xs) => xs.len() == n,
        _ => false,
    }
}

/// The value of the field named `name` at position `pos`: the value under
/// that key of an object, or the element at that position of an array.
pub open spec fn slot(v: JsonView, name: Seq<char>, pos: int) -> Option<JsonView> {
    match v {
        JsonView::Object(es) => lookup(es, name),
        JsonView::Array(xs) => if 0 <= pos < xs.len() { Some(xs[pos]) } else { None },
        _ => None,
    }
}

/// The `Identify` payload that `v` holds, if it holds one: `rpcVersion` must
/// be a `u32`; `authentication` and `eventSubscriptions` may be missing or
/// null, and must otherwise be a string and a `u32`.
pub open spec fn identify_from(v: JsonView) -> Option<IdentifyView> {
    if !has_shape(v, 3) {
        None
    } else {
        let rpc = match slot(v, "rpcVersion"@, 0) {
            Some(x) => u32_of(x),
            None => None,
        };
        let auth = match slot(v, "authentication"@, 1) {
            None => Some(None),
            Some(JsonView::Null) => Some(None),
            Some(x) => match string_of(x) {
                Some(t) => Some(Some(t)),
                None => None,
            },
        };
        let events = match slot(v, "eventSubscriptions"@, 2) {
            None => Some(None),
            Some(JsonView::Null) => Some(None),
            Some(x) => match u32_of(x) {
                Some(t) => Some(Some(t)),
                None => None,
            },
        };
        match (rpc, auth, events) {
            (Some(r), Some(a), Some(e)) => Some(IdentifyView { rpc_version: r, authentication: a, event_subscriptions: e }),
            _ => None,
        }
    }
}

/// The `Request` payload that `v` holds, if it holds one: `requestType` and
/// `requestId` must be strings; `requestData` may be anything, and is none
/// where it is missing or null.
pub open spec fn request_from(v: JsonView) -> Option<RequestView> {
    if !has_shape(v, 3) {
        None
    } else {
        let rt = match slot(v, "requestType"@, 0) {
            Some(x) => string_of(x),
            None => None,
        };
        let rid = match slot(v, "requestId"@, 1) {
            Some(x) => string_of(x),
            None => None,
        };
        let data = match slot(v, "requestData"@, 2) {
            None => None,
            Some(JsonView::Null) => None,
            Some(x) => Some(x),
        };
        match (rt, rid) {
            (Some(t), Some(i)) => Some(RequestView { request_type: t, request_id: i, request_data: data }),
            _ => None,
        }
    }
}

/// The requests that an array holds, if each element holds one.
pub open spec fn requests_from(v: JsonView) -> Option<Seq<RequestView>> {
    match v {
        JsonView::Array(xs) => if forall|i: int| 0 <= i < xs.len() ==> (#[trigger] request_from(xs[i])) is Some {
            Some(Seq::new(xs.len(), |i: int| request_from(xs[i])->0))
        } else {
            None
        },
        _ => None,
    }
}

/// The `RequestBatch` payload that `v` holds, if it holds one: `requestId`
/// must be a string and `requests` an array of requests; `haltOnFailure` and
/// `executionType` may be missing or null, and must otherwise be a boolean
/// and a `u8`.
pub open spec fn batch_from(v: JsonView) -> Option<BatchView> {
    if !has_shape(v, 4) {
        None
    } else {
        let rid = match slot(v, "requestId"@, 0) {
            Some(x) => string_of(x),
            None => None,
        };
        let halt = match slot(v, "haltOnFailure"@, 1) {
            None => Some(None),
            Some(JsonView::Null) => Some(None),
            Some(x) => match bool_of(x) {
                Some(t) => Some(Some(t)),
                None => None,
            },
        };
        let exec = match slot(v, "executionType"@, 2) {
            None => Some(None),
            Some(JsonView::Null) => Some(None),
            Some(x) => match u8_of(x) {
                Some(t) => Some(Some(t)),
                None => None,
            },
        };
        let reqs = match slot(v, "requests"@, 3) {
            Some(x) => requests_from(x),
            None => None,
        };
        match (rid, halt, exec, reqs) {
            (Some(i), Some(h), Some(e), Some(r)) => Some(
                BatchView { request_id: i, halt_on_failure: h, execution_type: e, requests: r },
            ),
            _ => None,
        }
    }
}

/// Whether `v` can hold a struct of `n` fields.
fn shape_ok(v: &JsonValue, n: usize) -> (r: bool)
    ensures
        r == has_shape(v.deep(), n as int),
{
    match v {
        JsonValue::Object(_) => true,
        JsonValue::Array(xs) => {
            proof {
                lemma_items_view(xs);
            }
            xs.len() == n
        },
        _ => false,
    }
}

/// The value of the field named `name` at position `pos`.
fn slot_exec<'a>(v: &'a JsonValue, name: &str, pos: usize) -> (r: Option<&'a JsonValue>)
    ensures
        r is Some <==> slot(v.deep(), name@, pos as int) is Some,
        r matches Some(x) ==> slot(v.deep(), name@, pos as int) == Some(x.deep()),
{
    match v {
        JsonValue::Object(_) => v.get(name),
        JsonValue::Array(xs) => {
            proof {
                lemma_items_view(xs);
            }
            if pos < xs.len() {
                Some(&xs[pos])
            } else {
                None
            }
        },
        _ => None,
    }
}

fn u32_exec(v: &JsonValue) -> (r: Option<u32>)
    ensures
        r == u32_of(v.deep()),
{
    match v {
        JsonValue::Number(JsonNumber::PosInt(n)) => if *n <= u32::MAX as u64 { Some(*n as u32) } else { None },
        _ => None,
    }
}

fn u8_exec(v: &JsonValue) -> (r: Option<u8>)
    ensures
        r == u8_of(v.deep()),
{
    match v {
        JsonValue::Number(JsonNumber::PosInt(n)) => if *n <= u8::MAX as u64 { Some(*n as u8) } else { None },
        _ => None,
    }
}

fn string_exec(v: &JsonValue) -> (r: Option<String>)
    ensures
        r is Some <==> string_of(v.deep()) is Some,
        r matches Some(s) ==> string_of(v.deep()) == Some(s@),
{
    match v {
        JsonValue::String(s) => Some(s.clone()),
        _ => None,
    }
}

fn is_null(v: &JsonValue) -> (r: bool)
    ensures
        r == (v.deep() == JsonView::Null),
{
    match v {
        JsonValue::Null => true,
        _ => false,
    }
}

impl Identify {
    /// The `Identify` payload that `v` holds, as `identify_from` says.
    pub fn from_json(v: &JsonValue) -> (r: Option<Identify>)
        ensures
            r is Some <==> identify_from(v.deep()) is Some,
            r matches Some(x) ==> identify_from(v.deep()) == Some(x@),
    {
        if !shape_ok(v, 3) {
            return None;
        }
        let rpc = match slot_exec(v, "rpcVersion", 0) {
            Some(x) => u32_exec(x),
            None => None,
        };
        let auth: Option<Option<String>> = match slot_exec(v, "authentication", 1) {
            None => Some(None),
            Some(x) => if is_null(x) {
                Some(None)
            } else {
                match string_exec(x) {
                    Some(t) => Some(Some(t)),
                    None => None,
                }
            },
        };
        let events: Option<Option<u32>> = match slot_exec(v, "eventSubscriptions", 2) {
            None => Some(None),
            Some(x) => if is_null(x) {
                Some(None)
            } else {
                match u32_exec(x) {
                    Some(t) => Some(Some(t)),
                    None => None,
                }
            },
        };
        match (rpc, auth, events) {
            (Some(r), Some(a), Some(e)) => Some(Identify { rpc_version: r, authentication: a, event_subscriptions: e }),
            _ => None,
        }
    }
}

impl Request {
    /// The `Request` payload that `v` holds, as `request_from` says.
    pub fn from_json(v: &JsonValue) -> (r: Option<Request>)
        ensures
            r is Some <==> request_from(v.deep()) is Some,
            r matches Some(x) ==> request_from(v.deep()) == Some(x@),
    {
        if !shape_ok(v, 3) {
            return None;
        }
        let rt = match slot_exec(v, "requestType", 0) {
            Some(x) => string_exec(x),
            None => None,
        };
        let rid = match slot_exec(v, "requestId", 1) {
            Some(x) => string_exec(x),
            None => None,
        };
        let data = match slot_exec(v, "requestData", 2) {
            None => None,
            Some(x) => if is_null(x) {
                None
            } else {
                Some(x.duplicate())
            },
        };
        match (rt, rid) {
            (Some(t), Some(i)) => Some(Request { request_type: t, request_id: i, request_data: data }),
            _ => None,
        }
    }
}

/// The requests that an array holds, as `requests_from` says.
fn requests_exec(v: &JsonValue) -> (r: Option<Vec<Request>>)
    ensures
        r is Some <==> requests_from(v.deep()) is Some,
        r matches Some(x) ==> requests_from(v.deep()) == Some(requests_view(x@)),
{
    match v {
        JsonValue::Array(xs) => {
            proof {
                lemma_items_view(xs);
            }
            let ghost iv = json_items(xs);
            let mut out: Vec<Request> = Vec::new();
            let mut i: usize = 0;
            while i < xs.len()
                invariant
                    i <= xs.len(),
                    iv == json_items(xs),
                    v.deep() == JsonView::Array(iv),
                    iv.len() == xs.len(),
                    forall|k: int| 0 <= k < xs.len() ==> #[trigger] iv[k] == xs[k].deep(),
                    out.len() == i,
                    forall|k: int| 0 <= k < i ==> request_from(#[trigger] iv[k]) == Some(out[k]@),
                decreases xs.len() - i,
            {
                match Request::from_json(&xs[i]) {
                    Some(r) => out.push(r),
                    None => {
                        assert(request_from(iv[i as int]) is None);
                        return None;
                    },
                }
                i = i + 1;
            }
            assert(forall|k: int| 0 <= k < iv.len() ==> (#[trigger] request_from(iv[k])) is Some);
            assert(requests_view(out@) =~= Seq::new(iv.len(), |k: int| request_from(iv[k])->0));
            Some(out)
        },
        _ => None,
    }
}

impl RequestBatch {
    /// The `RequestBatch` payload that `v` holds, as `batch_from` says.
    pub fn from_json(v: &JsonValue) -> (r: Option<RequestBatch>)
        ensures
            r is Some <==> batch_from(v.deep()) is Some,
            r matches Some(x) ==> batch_from(v.deep()) == Some(x@),
    {
        if !shape_ok(v, 4) {
            return None;
        }
        let rid = match slot_exec(v, "requestId", 0) {
            Some(x) => string_exec(x),
            None => None,
        };
        let halt: Option<Option<bool>> = match slot_exec(v, "haltOnFailure", 1) {
            None => Some(None),
            Some(x) => if is_null(x) {
                Some(None)
            } else {
                match x {
                    JsonValue::Bool(b) => Some(Some(*b)),
                    _ => None,
                }
            },
        };
        let exec: Option<Option<u8>> = match slot_exec(v, "executionType", 2) {
            None => Some(None),
            Some(x) => if is_null(x) {
                Some(None)
            } else {
                match u8_exec(x) {
                    Some(t) => Some(Some(t)),
                    None => None,
                }
            },
        };
        let reqs = match slot_exec(v, "requests", 3) {
            Some(x) => requests_exec(x),
            None => None,
        };
        match (rid, halt, exec, reqs) {
            (Some(i), Some(h), Some(e), Some(r)) => Some(
                RequestBatch { request_id: i, halt_on_failure: h, execution_type: e, requests: r },
            ),
            _ => None,
        }
    }
}

} // verus!
