//! JSON-RPC 2.0: the four kinds of message, how an incoming body is told
//! apart, and the endpoint that matches responses to the requests that wait
//! for them.

use vstd::prelude::*;
use vstd::string::*;
use crate::error::{CopilotError, JsonRpcError};
use crate::framing::{
    decode_frame, encode_frame, frame, spec_decode, Decoded, FrameError, MAX_MESSAGE_SIZE,
};
use crate::json::{
    empty_object, integer_text, json_bytes, json_decode, lookup, opt_json_view, Json, JsonView,
};
use crate::registry::Registry;
use crate::text::{joined, owned};

verus! {

/// The member under `key`, unless it is absent or null.
pub open spec fn spec_opt_member(v: JsonView, key: Seq<char>) -> Option<JsonView> {
    match v.get(key) {
        Some(x) => if x is Null {
            None
        } else {
            Some(x)
        },
        None => None,
    }
}

/// The member under `key`, unless it is absent or null.
pub fn opt_member(v: &Json, key: &str) -> (r: Option<Json>)
    ensures
        opt_json_view(r) == spec_opt_member(v@, key@),
{
    match v.get(key) {
        Some(x) => {
            if x.is_null() {
                None
            } else {
                Some(x.clone())
            }
        },
        None => None,
    }
}

/// The value as a signed integer of 32 bits, where it is an integer in that
/// range.
pub open spec fn spec_as_i32(v: JsonView) -> Option<i32> {
    match v.as_i64() {
        Some(i) => if i32::MIN <= i <= i32::MAX {
            Some(i as i32)
        } else {
            None
        },
        None => None,
    }
}

/// The value as a signed integer of 32 bits, where it is an integer in that
/// range.
pub fn as_i32(v: &Json) -> (r: Option<i32>)
    ensures
        r == spec_as_i32(v@),
{
    match v.as_i64() {
        Some(i) => {
            if i >= -2147483648 && i <= 2147483647 {
                Some(i as i32)
            } else {
                None
            }
        },
        None => None,
    }
}

/// JSON-RPC 2.0 error object in a response.
#[derive(Debug, Clone)]
pub struct JsonRpcErrorResponse {
    /// Error code indicating the type of error.
    pub code: i32,
    /// Human-readable error message.
    pub message: String,
    /// Optional additional error data.
    pub data: Option<Json>,
}

/// The mathematical value of an error object.
pub struct ErrorView {
    pub code: i32,
    pub message: Seq<char>,
    pub data: Option<JsonView>,
}

impl View for JsonRpcErrorResponse {
    type V = ErrorView;

    open spec fn view(&self) -> ErrorView {
        ErrorView { code: self.code, message: self.message@, data: opt_json_view(self.data) }
    }
}

impl View for JsonRpcError {
    type V = ErrorView;

    open spec fn view(&self) -> ErrorView {
        ErrorView { code: self.code, message: self.message@, data: opt_json_view(self.data) }
    }
}

impl ErrorView {
    /// The wire form: `code` and `message`, and `data` where set.
    pub open spec fn json(self) -> JsonView {
        empty_object().with("code"@, JsonView::Number(integer_text(self.code as int))).with(
            "message"@,
            JsonView::String(self.message),
        ).with_opt("data"@, self.data)
    }

    /// The error object that a JSON value is, if it is one: `code` is an
    /// integer of 32 bits and `message` a string.
    pub open spec fn decode(v: JsonView) -> Option<ErrorView> {
        if v.get("code"@) is Some && spec_as_i32(v.get("code"@)->0) is Some && v.get_str(
            "message"@,
        ) is Some {
            Some(
                ErrorView {
                    code: spec_as_i32(v.get("code"@)->0)->0,
                    message: v.get_str("message"@)->0,
                    data: spec_opt_member(v, "data"@),
                },
            )
        } else {
            None
        }
    }
}

/// The view of an optional error object.
pub open spec fn opt_error_view(e: Option<JsonRpcErrorResponse>) -> Option<ErrorView> {
    match e {
        Some(e) => Some(e@),
        None => None,
    }
}

/// The wire form of an optional error object.
pub open spec fn opt_error_json(e: Option<ErrorView>) -> Option<JsonView> {
    match e {
        Some(e) => Some(e.json()),
        None => None,
    }
}

impl JsonRpcErrorResponse {
    /// Writes the error object in its wire form.
    pub fn to_json(&self) -> (r: Json)
        ensures
            r@ == self@.json(),
    {
        let mut o = Json::object();
        o.set("code", Json::integer(self.code as i64));
        o.set("message", Json::string(self.message.as_str()));
        let data = match &self.data {
            Some(d) => Some(d.clone()),
            None => None,
        };
        o.set_opt("data", data);
        o
    }

    /// Reads an error object from its wire form.
    pub fn from_json(v: &Json) -> (r: Option<JsonRpcErrorResponse>)
        ensures
            opt_error_view(r) == ErrorView::decode(v@),
    {
        let code = match v.get("code") {
            Some(c) => match as_i32(c) {
                Some(code) => code,
                None => {
                    return None;
                },
            },
            None => {
                return None;
            },
        };
        let message = match v.get_str("message") {
            Some(m) => owned(m),
            None => {
                return None;
            },
        };
        Some(JsonRpcErrorResponse { code, message, data: opt_member(v, "data") })
    }
}

/// JSON-RPC 2.0 request message.
#[derive(Debug, Clone)]
pub struct JsonRpcRequest {
    /// JSON-RPC protocol version, always "2.0".
    pub jsonrpc: String,
    /// Unique identifier for this request.
    pub id: Json,
    /// The method name to invoke.
    pub method: String,
    /// Optional parameters for the method call.
    pub params: Option<Json>,
}

/// The mathematical value of a request.
pub struct RequestView {
    pub jsonrpc: Seq<char>,
    pub id: JsonView,
    pub method: Seq<char>,
    pub params: Option<JsonView>,
}

impl View for JsonRpcRequest {
    type V = RequestView;

    open spec fn view(&self) -> RequestView {
        RequestView {
            jsonrpc: self.jsonrpc@,
            id: self.id@,
            method: self.method@,
            params: opt_json_view(self.params),
        }
    }
}

impl RequestView {
    /// The wire form: `jsonrpc`, `id` and `method`, and `params` where set.
    pub open spec fn json(self) -> JsonView {
        empty_object().with("jsonrpc"@, JsonView::String(self.jsonrpc)).with("id"@, self.id).with(
            "method"@,
            JsonView::String(self.method),
        ).with_opt("params"@, self.params)
    }

    /// The request that a JSON value is, if it is one: `jsonrpc` and
    /// `method` are strings and there is an `id`.
    pub open spec fn decode(v: JsonView) -> Option<RequestView> {
        if v.get_str("jsonrpc"@) is Some && v.get("id"@) is Some && v.get_str("method"@) is Some {
            Some(
                RequestView {
                    jsonrpc: v.get_str("jsonrpc"@)->0,
                    id: v.get("id"@)->0,
                    method: v.get_str("method"@)->0,
                    params: spec_opt_member(v, "params"@),
                },
            )
        } else {
            None
        }
    }
}

/// The view of an optional request.
pub open spec fn opt_request_view(r: Option<JsonRpcRequest>) -> Option<RequestView> {
    match r {
        Some(r) => Some(r@),
        None => None,
    }
}

impl JsonRpcRequest {
    /// Writes the request in its wire form.
    pub fn to_json(&self) -> (r: Json)
        ensures
            r@ == self@.json(),
    {
        let mut o = Json::object();
        o.set("jsonrpc", Json::string(self.jsonrpc.as_str()));
        o.set("id", self.id.clone());
        o.set("method", Json::string(self.method.as_str()));
        let params = match &self.params {
            Some(p) => Some(p.clone()),
            None => None,
        };
        o.set_opt("params", params);
        o
    }

    /// Reads a request from its wire form.
    pub fn from_json(v: &Json) -> (r: Option<JsonRpcRequest>)
        ensures
            opt_request_view(r) == RequestView::decode(v@),
    {
        let jsonrpc = match v.get_str("jsonrpc") {
            Some(s) => owned(s),
            None => {
                return None;
            },
        };
        let id = match v.get("id") {
            Some(i) => i.clone(),
            None => {
                return None;
            },
        };
        let method = match v.get_str("method") {
            Some(s) => owned(s),
            None => {
                return None;
            },
        };
        Some(JsonRpcRequest { jsonrpc, id, method, params: opt_member(v, "params") })
    }
}

/// JSON-RPC 2.0 response message.
#[derive(Debug, Clone)]
pub struct JsonRpcResponse {
    /// JSON-RPC protocol version, always "2.0".
    pub jsonrpc: String,
    /// Request ID this response corresponds to.
    pub id: Option<Json>,
    /// Result value on success.
    pub result: Option<Json>,
    /// Error information on failure.
    pub error: Option<JsonRpcErrorResponse>,
}

/// The mathematical value of a response.
pub struct ResponseView {
    pub jsonrpc: Seq<char>,
    pub id: Option<JsonView>,
    pub result: Option<JsonView>,
    pub error: Option<ErrorView>,
}

impl View for JsonRpcResponse {
    type V = ResponseView;

    open spec fn view(&self) -> ResponseView {
        ResponseView {
            jsonrpc: self.jsonrpc@,
            id: opt_json_view(self.id),
            result: opt_json_view(self.result),
            error: opt_error_view(self.error),
        }
    }
}

impl ResponseView {
    /// The wire form: `jsonrpc`, and `id`, `result` and `error` where set.
    pub open spec fn json(self) -> JsonView {
        empty_object().with("jsonrpc"@, JsonView::String(self.jsonrpc)).with_opt("id"@, self.id)
            .with_opt("result"@, self.result).with_opt("error"@, opt_error_json(self.error))
    }

    /// The response that a JSON value is, if it is one: `jsonrpc` is a
    /// string, and `error`, where it is there, is an error object.
    pub open spec fn decode(v: JsonView) -> Option<ResponseView> {
        if v.get_str("jsonrpc"@) is None {
            None
        } else {
            match spec_opt_member(v, "error"@) {
                Some(e) => match ErrorView::decode(e) {
                    Some(error) => Some(
                        ResponseView {
                            jsonrpc: v.get_str("jsonrpc"@)->0,
                            id: spec_opt_member(v, "id"@),
                            result: spec_opt_member(v, "result"@),
                            error: Some(error),
                        },
                    ),
                    None => None,
                },
                None => Some(
                    ResponseView {
                        jsonrpc: v.get_str("jsonrpc"@)->0,
                        id: spec_opt_member(v, "id"@),
                        result: spec_opt_member(v, "result"@),
                        error: None,
                    },
                ),
            }
        }
    }

    /// What the caller of the request gets: the error where there is one,
    /// else the result, or null where there is none.
    pub open spec fn outcome(self) -> Result<JsonView, ErrorView> {
        match self.error {
            Some(e) => Err(e),
            None => match self.result {
                Some(r) => Ok(r),
                None => Ok(JsonView::Null),
            },
        }
    }
}

/// The view of an optional response.
pub open spec fn opt_response_view(r: Option<JsonRpcResponse>) -> Option<ResponseView> {
    match r {
        Some(r) => Some(r@),
        None => None,
    }
}

/// The view of what the caller of a request gets.
pub open spec fn outcome_view(r: Result<Json, JsonRpcError>) -> Result<JsonView, ErrorView> {
    match r {
        Ok(v) => Ok(v@),
        Err(e) => Err(e@),
    }
}

impl JsonRpcResponse {
    /// Writes the response in its wire form.
    pub fn to_json(&self) -> (r: Json)
        ensures
            r@ == self@.json(),
    {
        let mut o = Json::object();
        o.set("jsonrpc", Json::string(self.jsonrpc.as_str()));
        let id = match &self.id {
            Some(i) => Some(i.clone()),
            None => None,
        };
        o.set_opt("id", id);
        let result = match &self.result {
            Some(x) => Some(x.clone()),
            None => None,
        };
        o.set_opt("result", result);
        let error = match &self.error {
            Some(e) => Some(e.to_json()),
            None => None,
        };
        o.set_opt("error", error);
        o
    }

    /// Reads a response from its wire form.
    pub fn from_json(v: &Json) -> (r: Option<JsonRpcResponse>)
        ensures
            opt_response_view(r) == ResponseView::decode(v@),
    {
        let jsonrpc = match v.get_str("jsonrpc") {
            Some(s) => owned(s),
            None => {
                return None;
            },
        };
        let error = match opt_member(v, "error") {
            Some(e) => match JsonRpcErrorResponse::from_json(&e) {
                Some(error) => Some(error),
                None => {
                    return None;
                },
            },
            None => None,
        };
        Some(
            JsonRpcResponse {
                jsonrpc,
                id: opt_member(v, "id"),
                result: opt_member(v, "result"),
                error,
            },
        )
    }

    /// What the caller of the request gets: the error where there is one,
    /// else the result, or null where there is none.
    pub fn into_outcome(self) -> (r: Result<Json, JsonRpcError>)
        ensures
            outcome_view(r) == self@.outcome(),
    {
        match self.error {
            Some(e) => Err(JsonRpcError { code: e.code, message: e.message, data: e.data }),
            None => match self.result {
                Some(x) => Ok(x),
                None => Ok(Json::Null),
            },
        }
    }
}

/// JSON-RPC 2.0 notification message.
#[derive(Debug, Clone)]
pub struct JsonRpcNotification {
    /// JSON-RPC protocol version, always "2.0".
    pub jsonrpc: String,
    /// The notification method name.
    pub method: String,
    /// Optional parameters for the notification.
    pub params: Option<Json>,
}

/// The mathematical value of a notification.
pub struct NotificationView {
    pub jsonrpc: Seq<char>,
    pub method: Seq<char>,
    pub params: Option<JsonView>,
}

impl View for JsonRpcNotification {
    type V = NotificationView;

    open spec fn view(&self) -> NotificationView {
        NotificationView {
            jsonrpc: self.jsonrpc@,
            method: self.method@,
            params: opt_json_view(self.params),
        }
    }
}

impl NotificationView {
    /// The wire form: `jsonrpc` and `method`, and `params` where set.
    pub open spec fn json(self) -> JsonView {
        empty_object().with("jsonrpc"@, JsonView::String(self.jsonrpc)).with(
            "method"@,
            JsonView::String(self.method),
        ).with_opt("params"@, self.params)
    }

    /// The notification that a JSON value is, if it is one: `jsonrpc` and
    /// `method` are strings.
    pub open spec fn decode(v: JsonView) -> Option<NotificationView> {
        if v.get_str("jsonrpc"@) is Some && v.get_str("method"@) is Some {
            Some(
                NotificationView {
                    jsonrpc: v.get_str("jsonrpc"@)->0,
                    method: v.get_str("method"@)->0,
                    params: spec_opt_member(v, "params"@),
                },
            )
        } else {
            None
        }
    }
}

/// The view of an optional notification.
pub open spec fn opt_notification_view(r: Option<JsonRpcNotification>) -> Option<
    NotificationView,
> {
    match r {
        Some(r) => Some(r@),
        None => None,
    }
}

impl JsonRpcNotification {
    /// Writes the notification in its wire form.
    pub fn to_json(&self) -> (r: Json)
        ensures
            r@ == self@.json(),
    {
        let mut o = Json::object();
        o.set("jsonrpc", Json::string(self.jsonrpc.as_str()));
        o.set("method", Json::string(self.method.as_str()));
        let params = match &self.params {
            Some(p) => Some(p.clone()),
            None => None,
        };
        o.set_opt("params", params);
        o
    }

    /// Reads a notification from its wire form.
    pub fn from_json(v: &Json) -> (r: Option<JsonRpcNotification>)
        ensures
            opt_notification_view(r) == NotificationView::decode(v@),
    {
        let jsonrpc = match v.get_str("jsonrpc") {
            Some(s) => owned(s),
            None => {
                return None;
            },
        };
        let method = match v.get_str("method") {
            Some(s) => owned(s),
            None => {
                return None;
            },
        };
        Some(JsonRpcNotification { jsonrpc, method, params: opt_member(v, "params") })
    }
}

/// A request to send: the method to call, and its parameters.
#[derive(Debug, Clone)]
pub struct Call {
    /// The method name on the wire.
    pub method: String,
    /// The parameters of the call.
    pub params: Json,
}

impl Call {
    /// Whether this is the call of `method` with `params`.
    pub open spec fn is(self, method: Seq<char>, params: JsonView) -> bool {
        self.method@ == method && self.params@ == params
    }
}

/// What kind of message a decoded body is.
#[derive(Debug, Clone, Copy, PartialEq, Eq, Structural)]
pub enum MessageKind {
    /// It has `method` and `id`: a request from the peer.
    Request,
    /// It has `id` and no `method`: a response to a request of ours.
    Response,
    /// It has `method` and no `id`: a notification.
    Notification,
    /// It has neither: nothing to act on.
    Other,
}

/// The kind of a message, by the members that it has.
pub open spec fn classify(v: JsonView) -> MessageKind {
    if v.get("id"@) is Some && v.get("method"@) is Some {
        MessageKind::Request
    } else if v.get("id"@) is Some {
        MessageKind::Response
    } else if v.get("method"@) is Some {
        MessageKind::Notification
    } else {
        MessageKind::Other
    }
}

/// The kind of a message, by the members that it has.
pub fn message_kind(v: &Json) -> (r: MessageKind)
    ensures
        r == classify(v@),
{
    let has_id = v.get("id").is_some();
    let has_method = v.get("method").is_some();
    if has_id && has_method {
        MessageKind::Request
    } else if has_id {
        MessageKind::Response
    } else if has_method {
        MessageKind::Notification
    } else {
        MessageKind::Other
    }
}

/// The code and the message with which a failed handler is reported: those
/// of a JSON-RPC error as they are, any other error as an internal error
/// with the text that it displays.
pub open spec fn reply_error(e: CopilotError) -> ErrorView {
    match e {
        CopilotError::JsonRpc { code, message, data } => ErrorView {
            code,
            message: message@,
            data: None,
        },
        _ => ErrorView { code: JsonRpcError::INTERNAL_ERROR, message: e.text(), data: None },
    }
}

/// The response to a request with the given id, for what its handler gave.
pub open spec fn reply(id: JsonView, outcome: Result<Json, CopilotError>) -> ResponseView {
    match outcome {
        Ok(result) => ResponseView {
            jsonrpc: "2.0"@,
            id: Some(id),
            result: Some(result@),
            error: None,
        },
        Err(e) => ResponseView {
            jsonrpc: "2.0"@,
            id: Some(id),
            result: None,
            error: Some(reply_error(e)),
        },
    }
}

/// The response to a request for a method that has no handler.
pub open spec fn method_not_found(id: JsonView, method: Seq<char>) -> ResponseView {
    ResponseView {
        jsonrpc: "2.0"@,
        id: Some(id),
        result: None,
        error: Some(
            ErrorView {
                code: JsonRpcError::METHOD_NOT_FOUND,
                message: "Method not found: "@ + method,
                data: None,
            },
        ),
    }
}

/// The request that the endpoint sends for a call.
pub open spec fn outgoing_request(id: Seq<char>, method: Seq<char>, params: JsonView) -> RequestView {
    RequestView { jsonrpc: "2.0"@, id: JsonView::String(id), method, params: Some(params) }
}

/// The notification that the endpoint sends.
pub open spec fn outgoing_notification(method: Seq<char>, params: JsonView) -> NotificationView {
    NotificationView { jsonrpc: "2.0"@, method, params: Some(params) }
}

/// The body of the response to a request with the given id, for what its
/// handler gave. Whatever the handler gave, there is one response, and it
/// carries the id of the request.
pub fn respond(id: Json, outcome: Result<Json, CopilotError>) -> (r: Vec<u8>)
    ensures
        r@ == json_bytes(reply(id@, outcome).json()),
{
    let response = match outcome {
        Ok(result) => JsonRpcResponse {
            jsonrpc: owned("2.0"),
            id: Some(id),
            result: Some(result),
            error: None,
        },
        Err(e) => {
            let text = e.to_string();
            let (code, message) = match e {
                CopilotError::JsonRpc { code, message, data } => (code, message),
                _ => (JsonRpcError::INTERNAL_ERROR, text),
            };
            JsonRpcResponse {
                jsonrpc: owned("2.0"),
                id: Some(id),
                result: None,
                error: Some(JsonRpcErrorResponse { code, message, data: None }),
            }
        },
    };
    response.to_json().to_bytes()
}

/// The body of the response to a request for a method that has no handler.
pub fn respond_method_not_found(id: Json, method: &str) -> (r: Vec<u8>)
    ensures
        r@ == json_bytes(method_not_found(id@, method@).json()),
{
    let response = JsonRpcResponse {
        jsonrpc: owned("2.0"),
        id: Some(id),
        result: None,
        error: Some(
            JsonRpcErrorResponse {
                code: JsonRpcError::METHOD_NOT_FOUND,
                message: joined("Method not found: ", method),
                data: None,
            },
        ),
    };
    response.to_json().to_bytes()
}

/// What the write worker puts on the wire for a body: the body in its frame.
pub fn write_loop(body: &[u8]) -> (r: Vec<u8>)
    ensures
        r@ == frame(body@),
{
    encode_frame(body)
}

/// What an incoming body asks the caller of [`JsonRpcClient::receive`] to do.
pub enum Incoming<S> {
    /// A response to a pending request: complete `slot` with `outcome`.
    Response { slot: S, outcome: Result<Json, JsonRpcError> },
    /// A request from the peer for a method that has a handler: run the
    /// handler on `params`, and send what [`respond`] makes of `id` and of
    /// what the handler gave.
    Request { id: Json, method: String, params: Json },
    /// A request from the peer for a method that has no handler: send `body`.
    Reply { body: Vec<u8> },
    /// A notification: hand `method` and `params` to the notification
    /// handler.
    Notification { method: String, params: Json },
    /// Nothing to do.
    Ignored,
}

/// The mathematical value of an [`Incoming`].
pub enum IncomingView<S> {
    Response { slot: S, outcome: Result<JsonView, ErrorView> },
    Request { id: JsonView, method: Seq<char>, params: JsonView },
    Reply { body: Seq<u8> },
    Notification { method: Seq<char>, params: JsonView },
    Ignored,
}

impl<S> View for Incoming<S> {
    type V = IncomingView<S>;

    open spec fn view(&self) -> IncomingView<S> {
        match self {
            Incoming::Response { slot, outcome } => IncomingView::Response {
                slot: *slot,
                outcome: outcome_view(*outcome),
            },
            Incoming::Request { id, method, params } => IncomingView::Request {
                id: id@,
                method: method@,
                params: params@,
            },
            Incoming::Reply { body } => IncomingView::Reply { body: body@ },
            Incoming::Notification { method, params } => IncomingView::Notification {
                method: method@,
                params: params@,
            },
            Incoming::Ignored => IncomingView::Ignored,
        }
    }
}

/// The parameters of a message, or null where it has none.
pub open spec fn params_or_null(params: Option<JsonView>) -> JsonView {
    match params {
        Some(p) => p,
        None => JsonView::Null,
    }
}

/// The id of the pending request that a body answers, if it answers one: the
/// body is a response whose id is a string under which a request waits.
pub open spec fn answered<S>(pending: Map<Seq<char>, S>, body: Seq<u8>) -> Option<Seq<char>> {
    match json_decode(body) {
        Some(v) => if classify(v) == MessageKind::Response {
            match ResponseView::decode(v) {
                Some(response) => match response.id {
                    Some(JsonView::String(id)) => if pending.contains_key(id) {
                        Some(id)
                    } else {
                        None
                    },
                    _ => None,
                },
                None => None,
            }
        } else {
            None
        },
        None => None,
    }
}

/// What a body asks for, given the requests that wait and the methods that
/// have a handler.
pub open spec fn incoming<S, H>(
    pending: Map<Seq<char>, S>,
    handlers: Map<Seq<char>, H>,
    body: Seq<u8>,
) -> IncomingView<S> {
    match json_decode(body) {
        None => IncomingView::Ignored,
        Some(v) => match classify(v) {
            MessageKind::Other => IncomingView::Ignored,
            MessageKind::Notification => match NotificationView::decode(v) {
                Some(n) => IncomingView::Notification {
                    method: n.method,
                    params: params_or_null(n.params),
                },
                None => IncomingView::Ignored,
            },
            MessageKind::Response => match answered(pending, body) {
                Some(id) => IncomingView::Response {
                    slot: pending[id],
                    outcome: ResponseView::decode(v)->0.outcome(),
                },
                None => IncomingView::Ignored,
            },
            MessageKind::Request => match RequestView::decode(v) {
                Some(request) => if handlers.contains_key(request.method) {
                    IncomingView::Request {
                        id: request.id,
                        method: request.method,
                        params: params_or_null(request.params),
                    }
                } else {
                    IncomingView::Reply {
                        body: json_bytes(method_not_found(request.id, request.method).json()),
                    }
                },
                None => IncomingView::Ignored,
            },
        },
    }
}

/// The requests that wait once a body has been received.
pub open spec fn pending_after<S>(pending: Map<Seq<char>, S>, body: Seq<u8>) -> Map<Seq<char>, S> {
    match answered(pending, body) {
        Some(id) => pending.remove(id),
        None => pending,
    }
}

/// A request that was registered and is ready to be sent.
pub struct Sent<S> {
    /// The id under which the request waits.
    pub id: String,
    /// The body to send.
    pub body: Vec<u8>,
    /// The slot of an earlier request that waited under the same id and
    /// waits no longer.
    pub displaced: Option<S>,
}

/// The state of an endpoint.
pub struct EndpointState<S, H, N, D> {
    /// The requests that wait for a response, each with its completion slot.
    pub pending: Map<Seq<char>, S>,
    /// The handlers for requests from the peer, by method.
    pub handlers: Map<Seq<char>, H>,
    /// The handler for notifications.
    pub notification_handler: Option<N>,
    /// The callback for the loss of the connection.
    pub on_disconnect: Option<D>,
    /// Whether the endpoint has not been stopped.
    pub running: bool,
}

impl<S, H, N, D> EndpointState<S, H, N, D> {
    /// The requests that wait, and whether the endpoint runs.
    pub open spec fn waiting(self) -> Waiting<S> {
        Waiting { pending: self.pending, running: self.running }
    }
}

/// A JSON-RPC endpoint without its transport. It keeps the requests that
/// wait for a response and the handlers for what the peer sends, and says of
/// each body that arrives what is to be done with it. `S` is what completes a
/// waiting request, `H` a handler for requests of the peer, `N` the handler
/// for notifications and `D` the callback for the loss of the connection.
pub struct JsonRpcClient<S, H, N, D> {
    pending_requests: Registry<S>,
    request_handlers: Registry<H>,
    notification_handler: Option<N>,
    on_disconnect: Option<D>,
    running: bool,
}

impl<S, H, N, D> View for JsonRpcClient<S, H, N, D> {
    type V = EndpointState<S, H, N, D>;

    closed spec fn view(&self) -> EndpointState<S, H, N, D> {
        EndpointState {
            pending: self.pending_requests@,
            handlers: self.request_handlers@,
            notification_handler: self.notification_handler,
            on_disconnect: self.on_disconnect,
            running: self.running,
        }
    }
}

impl<S, H, N, D> JsonRpcClient<S, H, N, D> {
    /// In each table a name occurs once, and a stopped endpoint has no
    /// request that waits.
    pub closed spec fn wf(self) -> bool {
        &&& self.pending_requests.wf()
        &&& self.request_handlers.wf()
        &&& !self.running ==> self.pending_requests@ == Map::<Seq<char>, S>::empty()
    }

    /// A stopped endpoint has no request that waits.
    pub proof fn lemma_stopped_is_idle(self)
        requires
            self.wf(),
            !self@.running,
        ensures
            self@.pending == Map::<Seq<char>, S>::empty(),
    {
    }

    /// Create an endpoint that runs, with no handler and no request that
    /// waits.
    pub fn new() -> (r: Self)
        ensures
            r.wf(),
            r@ == (EndpointState::<S, H, N, D> {
                pending: Map::empty(),
                handlers: Map::empty(),
                notification_handler: None,
                on_disconnect: None,
                running: true,
            }),
    {
        JsonRpcClient {
            pending_requests: Registry::new(),
            request_handlers: Registry::new(),
            notification_handler: None,
            on_disconnect: None,
            running: true,
        }
    }

    /// Set the handler for incoming notifications, in place of any earlier
    /// one.
    pub fn set_notification_handler(&mut self, handler: N)
        requires
            old(self).wf(),
        ensures
            final(self).wf(),
            final(self)@ == (EndpointState { notification_handler: Some(handler), ..old(self)@ }),
    {
        self.notification_handler = Some(handler);
    }

    /// Set the callback for the loss of the connection, in place of any
    /// earlier one.
    pub fn set_on_disconnect(&mut self, handler: D)
        requires
            old(self).wf(),
        ensures
            final(self).wf(),
            final(self)@ == (EndpointState { on_disconnect: Some(handler), ..old(self)@ }),
    {
        self.on_disconnect = Some(handler);
    }

    /// Set the handler for requests of the peer for `method`, in place of any
    /// earlier one.
    pub fn set_request_handler(&mut self, method: &str, handler: H)
        requires
            old(self).wf(),
        ensures
            final(self).wf(),
            final(self)@ == (EndpointState {
                handlers: old(self)@.handlers.insert(method@, handler),
                ..old(self)@
            }),
    {
        let _ = self.request_handlers.insert(owned(method), handler);
    }

    /// Remove the handler for requests of the peer for `method`.
    pub fn remove_request_handler(&mut self, method: &str)
        requires
            old(self).wf(),
        ensures
            final(self).wf(),
            final(self)@ == (EndpointState {
                handlers: old(self)@.handlers.remove(method@),
                ..old(self)@
            }),
    {
        let _ = self.request_handlers.remove(method);
    }

    /// The handler for requests of the peer for `method`.
    pub fn request_handler(&self, method: &str) -> (r: Option<&H>)
        requires
            self.wf(),
        ensures
            r is Some <==> self@.handlers.contains_key(method@),
            r is Some ==> *r->0 == self@.handlers[method@],
    {
        self.request_handlers.get(method)
    }

    /// The handler for notifications.
    pub fn notification_handler(&self) -> (r: Option<&N>)
        ensures
            r is Some <==> self@.notification_handler is Some,
            r is Some ==> *r->0 == self@.notification_handler->0,
    {
        self.notification_handler.as_ref()
    }

    /// The callback for the loss of the connection.
    pub fn on_disconnect(&self) -> (r: Option<&D>)
        ensures
            r is Some <==> self@.on_disconnect is Some,
            r is Some ==> *r->0 == self@.on_disconnect->0,
    {
        self.on_disconnect.as_ref()
    }

    /// Whether the endpoint has not been stopped.
    pub fn is_running(&self) -> (r: bool)
        ensures
            r == self@.running,
    {
        self.running
    }

    /// The number of requests that wait for a response.
    pub fn pending_count(&self) -> (r: usize)
        requires
            self.wf(),
        ensures
            r == self@.pending.len(),
            self@.pending.dom().finite(),
            r == 0 <==> self@.pending == Map::<Seq<char>, S>::empty(),
    {
        self.pending_requests.len()
    }

    /// What `request_with_id` does to the endpoint and gives back.
    pub open spec fn requested(
        before: EndpointState<S, H, N, D>,
        after: EndpointState<S, H, N, D>,
        request_id: Seq<char>,
        method: Seq<char>,
        params: JsonView,
        slot: S,
        r: Result<Sent<S>, S>,
    ) -> bool {
        if before.running {
            &&& r is Ok
            &&& r->Ok_0.id@ == request_id
            &&& r->Ok_0.body@ == json_bytes(outgoing_request(request_id, method, params).json())
            &&& (r->Ok_0.displaced is Some <==> before.pending.contains_key(request_id))
            &&& (r->Ok_0.displaced is Some ==> r->Ok_0.displaced->0 == before.pending[request_id])
            &&& after == (EndpointState {
                pending: before.pending.insert(request_id, slot),
                ..before
            })
            &&& after.waiting() == (Step::Request { id: request_id, slot }).after(before.waiting())
        } else {
            r == Err::<Sent<S>, S>(slot) && after == before
        }
    }

    /// Registers a request under `request_id` and gives the body to send for
    /// it. The request waits from this moment on, so that no response can come
    /// before it does. A stopped endpoint registers nothing and hands the slot
    /// back.
    pub fn request_with_id(&mut self, request_id: String, method: &str, params: Json, slot: S) -> (r:
        Result<Sent<S>, S>)
        requires
            old(self).wf(),
        ensures
            final(self).wf(),
            Self::requested(old(self)@, final(self)@, request_id@, method@, params@, slot, r),
    {
        if !self.running {
            return Err(slot);
        }
        let request = JsonRpcRequest {
            jsonrpc: owned("2.0"),
            id: Json::String(request_id.clone()),
            method: owned(method),
            params: Some(params),
        };
        let displaced = self.pending_requests.insert(request_id.clone(), slot);
        let body = request.to_json().to_bytes();
        Ok(Sent { id: request_id, body, displaced })
    }

    /// Registers a request under a fresh id and gives the body to send for
    /// it: `request_with_id`, with an id of the endpoint's own making.
    pub fn request(&mut self, method: &str, params: Json, slot: S) -> (r: Result<Sent<S>, S>)
        requires
            old(self).wf(),
        ensures
            final(self).wf(),
            old(self)@.running ==> r is Ok && Self::requested(
                old(self)@,
                final(self)@,
                r->Ok_0.id@,
                method@,
                params@,
                slot,
                r,
            ),
            !old(self)@.running ==> r == Err::<Sent<S>, S>(slot) && final(self)@ == old(self)@,
    {
        if !self.running {
            return Err(slot);
        }
        self.request_with_id(new_request_id(), method, params, slot)
    }

    /// Takes back a request that could not be sent: it waits no longer.
    pub fn cancel(&mut self, request_id: &str) -> (r: Option<S>)
        requires
            old(self).wf(),
        ensures
            final(self).wf(),
            r is Some <==> old(self)@.pending.contains_key(request_id@),
            r is Some ==> r->0 == old(self)@.pending[request_id@],
            final(self)@ == (EndpointState {
                pending: old(self)@.pending.remove(request_id@),
                ..old(self)@
            }),
            final(self)@.waiting() == (Step::<S>::Cancel { id: request_id@ }).after(
                old(self)@.waiting(),
            ),
    {
        let r = self.pending_requests.remove(request_id);
        proof {
            if !self.running {
                assert(old(self)@.pending.remove(request_id@) =~= old(self)@.pending);
            }
        }
        r
    }

    /// Gives the body of a notification to send. A stopped endpoint gives
    /// an error.
    pub fn notify(&self, method: &str, params: Json) -> (r: Result<Vec<u8>, CopilotError>)
        ensures
            self@.running ==> r is Ok && r->Ok_0@ == json_bytes(
                outgoing_notification(method@, params@).json(),
            ),
            !self@.running ==> r is Err && r->Err_0 is ClientStopped,
    {
        if !self.running {
            return Err(CopilotError::ClientStopped);
        }
        let notification = JsonRpcNotification {
            jsonrpc: owned("2.0"),
            method: owned(method),
            params: Some(params),
        };
        Ok(notification.to_json().to_bytes())
    }

    /// Stops the endpoint and hands back the slot of every request that
    /// waited, each under its id: their callers are owed a "client stopped"
    /// error. Nothing waits afterwards, and nothing will.
    pub fn stop(&mut self) -> (r: Vec<(String, S)>)
        requires
            old(self).wf(),
        ensures
            final(self).wf(),
            crate::registry::distinct_names(r@),
            crate::registry::map_of(r@) == old(self)@.pending,
            r@.len() == old(self)@.pending.len(),
            final(self)@ == (EndpointState {
                pending: Map::empty(),
                running: false,
                ..old(self)@
            }),
            final(self)@.waiting() == Step::<S>::Stop.after(old(self)@.waiting()),
    {
        self.running = false;
        self.pending_requests.drain()
    }

    /// Ends the endpoint when its read worker exits, on the end of the
    /// input, on a frame that is none, or after `stop`: the endpoint is
    /// stopped, and what it had is handed back, the slot of every request that
    /// waited and the callback for the loss of the connection. The callback is
    /// handed out here and nowhere else, so that it is called once.
    pub fn disconnect(&mut self) -> (r: Disconnected<S, D>)
        requires
            old(self).wf(),
        ensures
            final(self).wf(),
            crate::registry::distinct_names(r.waiting@),
            crate::registry::map_of(r.waiting@) == old(self)@.pending,
            r.waiting@.len() == old(self)@.pending.len(),
            r.callback == old(self)@.on_disconnect,
            final(self)@ == (EndpointState {
                pending: Map::empty(),
                running: false,
                on_disconnect: None,
                ..old(self)@
            }),
            final(self)@.waiting() == Step::<S>::Stop.after(old(self)@.waiting()),
    {
        let waiting = self.stop();
        let callback = self.on_disconnect.take();
        Disconnected { waiting, callback }
    }

    /// Says what is to be done with a body that arrived, and takes the
    /// request that it answers, if any, out of those that wait. A stopped
    /// endpoint ignores everything.
    pub fn receive(&mut self, body: &[u8]) -> (r: Incoming<S>)
        requires
            old(self).wf(),
        ensures
            final(self).wf(),
            old(self)@.running ==> r@ == incoming(old(self)@.pending, old(self)@.handlers, body@)
                && final(self)@ == (EndpointState {
                pending: pending_after(old(self)@.pending, body@),
                ..old(self)@
            }),
            !old(self)@.running ==> r@ == IncomingView::<S>::Ignored && final(self)@ == old(
                self,
            )@,
            final(self)@.waiting() == (Step::<S>::Receive { body: body@ }).after(
                old(self)@.waiting(),
            ),
    {
        if !self.running {
            return Incoming::Ignored;
        }
        let message = match Json::parse(body) {
            Some(v) => v,
            None => {
                return Incoming::Ignored;
            },
        };
        match message_kind(&message) {
            MessageKind::Other => Incoming::Ignored,
            MessageKind::Notification => match JsonRpcNotification::from_json(&message) {
                Some(n) => {
                    let params = match n.params {
                        Some(p) => p,
                        None => Json::Null,
                    };
                    Incoming::Notification { method: n.method, params }
                },
                None => Incoming::Ignored,
            },
            MessageKind::Response => {
                let response = match JsonRpcResponse::from_json(&message) {
                    Some(response) => response,
                    None => {
                        return Incoming::Ignored;
                    },
                };
                let found = match &response.id {
                    Some(Json::String(id)) => self.pending_requests.remove(id.as_str()),
                    _ => None,
                };
                proof {
                    let ghost answered_id = response@.id;
                    if found is None {
                        match answered_id {
                            Some(JsonView::String(id)) => {
                                assert(old(self)@.pending.remove(id) =~= old(self)@.pending);
                            },
                            _ => {},
                        }
                    }
                }
                match found {
                    Some(slot) => Incoming::Response { slot, outcome: response.into_outcome() },
                    None => Incoming::Ignored,
                }
            },
            MessageKind::Request => match JsonRpcRequest::from_json(&message) {
                Some(request) => {
                    if self.request_handlers.contains_key(request.method.as_str()) {
                        let params = match request.params {
                            Some(p) => p,
                            None => Json::Null,
                        };
                        Incoming::Request { id: request.id, method: request.method, params }
                    } else {
                        Incoming::Reply {
                            body: respond_method_not_found(request.id, request.method.as_str()),
                        }
                    }
                },
                None => Incoming::Ignored,
            },
        }
    }

    /// One turn of the read worker on the bytes that it has buffered: reads
    /// the frame at the start of `buf`, if a whole one is there, and says what
    /// is to be done with its body. A body may have `MAX_MESSAGE_SIZE` bytes
    /// at most. A stopped endpoint reads nothing; a frame that is none ends
    /// the worker, and nothing of it is acted on.
    pub fn read_loop(&mut self, buf: &[u8]) -> (r: ReadStep<S>)
        requires
            old(self).wf(),
        ensures
            final(self).wf(),
            !old(self)@.running ==> r is Stopped && final(self)@ == old(self)@,
            old(self)@.running ==> match spec_decode(buf@, MAX_MESSAGE_SIZE as nat) {
                Decoded::Frame { start, end } => r matches ReadStep::Message { incoming: i, consumed }
                    && consumed == end && i@ == incoming(
                    old(self)@.pending,
                    old(self)@.handlers,
                    buf@.subrange(start as int, end as int),
                ) && final(self)@ == (EndpointState {
                    pending: pending_after(
                        old(self)@.pending,
                        buf@.subrange(start as int, end as int),
                    ),
                    ..old(self)@
                }),
                Decoded::Skip { consumed: skipped } => r matches ReadStep::Message {
                    incoming: i,
                    consumed,
                } && consumed == skipped && i@ == IncomingView::<S>::Ignored && final(self)@ == old(
                    self,
                )@,
                Decoded::Incomplete => r is NeedMore && final(self)@ == old(self)@,
                Decoded::Error(e) => r == ReadStep::<S>::Failed(e) && final(self)@ == old(self)@,
            },
    {
        if !self.running {
            return ReadStep::Stopped;
        }
        match decode_frame(buf, MAX_MESSAGE_SIZE) {
            Decoded::Frame { start, end } => {
                let body = vstd::slice::slice_subrange(buf, start, end);
                let incoming = self.receive(body);
                ReadStep::Message { incoming, consumed: end }
            },
            Decoded::Skip { consumed } => ReadStep::Message { incoming: Incoming::Ignored, consumed },
            Decoded::Incomplete => ReadStep::NeedMore,
            Decoded::Error(e) => ReadStep::Failed(e),
        }
    }
}

/// What an endpoint hands back when its read worker exits.
pub struct Disconnected<S, D> {
    /// The slot of every request that waited, each under its id: their
    /// callers are owed a "client stopped" error.
    pub waiting: Vec<(String, S)>,
    /// The callback for the loss of the connection, to be called now.
    pub callback: Option<D>,
}

/// The end of a request that got no response: the slot of its caller, and
/// the error that the caller is owed.
pub struct Completion<S> {
    /// The id under which the request waited.
    pub id: String,
    /// What completes the caller.
    pub slot: S,
    /// The error to complete it with.
    pub error: CopilotError,
}

/// What the callers of the requests that waited are owed when the endpoint
/// stops: each of them, once and in order, a "client stopped" error.
pub fn complete_stopped<S>(waiting: Vec<(String, S)>) -> (r: Vec<Completion<S>>)
    ensures
        r@.len() == waiting@.len(),
        forall|i: int|
            0 <= i < r@.len() ==> (#[trigger] r@[i]).id == waiting@[i].0 && r@[i].slot
                == waiting@[i].1 && r@[i].error is ClientStopped,
{
    let mut rest = waiting;
    let mut out: Vec<Completion<S>> = Vec::new();
    while rest.len() > 0
        invariant
            out@.len() + rest@.len() == waiting@.len(),
            forall|i: int|
                0 <= i < out@.len() ==> (#[trigger] out@[i]).id == waiting@[i].0 && out@[i].slot
                    == waiting@[i].1 && out@[i].error is ClientStopped,
            forall|i: int| 0 <= i < rest@.len() ==> #[trigger] rest@[i] == waiting@[out@.len() + i],
        decreases rest.len(),
    {
        let entry = rest.remove(0);
        out.push(Completion { id: entry.0, slot: entry.1, error: CopilotError::ClientStopped });
    }
    out
}

/// What one turn of the read worker gave.
pub enum ReadStep<S> {
    /// A frame was read: it ends at `consumed`, and `incoming` says what is
    /// to be done with its body.
    Message { incoming: Incoming<S>, consumed: usize },
    /// No whole frame is there yet.
    NeedMore,
    /// What is there is no frame: the connection is lost.
    Failed(FrameError),
    /// The endpoint has been stopped.
    Stopped,
}

/// `uuid::Uuid::new_v4`, in the text form of `to_string`. The id is random:
/// nothing is claimed of it.
#[verifier::external_body]
fn new_request_id() -> String {
    uuid::Uuid::new_v4().to_string()
}

/// A notification reaches its handler as it was sent: where a body is the
/// notification that an endpoint sends for a method and parameters, the
/// endpoint that receives it hands exactly that method and those parameters
/// to the notification handler, and no request stops waiting.
pub proof fn lemma_notification_observed<S, H>(
    pending: Map<Seq<char>, S>,
    handlers: Map<Seq<char>, H>,
    body: Seq<u8>,
    method: Seq<char>,
    params: JsonView,
)
    requires
        json_decode(body) == Some(outgoing_notification(method, params).json()),
    ensures
        incoming(pending, handlers, body) == (IncomingView::<S>::Notification { method, params }),
        pending_after(pending, body) == pending,
{
    reveal_strlit("jsonrpc");
    reveal_strlit("method");
    reveal_strlit("params");
    reveal_strlit("id");
    let v = outgoing_notification(method, params).json();
    let f0 = Seq::<(Seq<char>, JsonView)>::empty();
    let f1 = f0.push(("jsonrpc"@, JsonView::String("2.0"@)));
    let f2 = f1.push(("method"@, JsonView::String(method)));
    let f3 = f2.push(("params"@, params));
    assert(v == JsonView::Object(f3));
    assert("jsonrpc"@ != "method"@ && "jsonrpc"@ != "params"@ && "jsonrpc"@ != "id"@ && "method"@
        != "params"@ && "method"@ != "id"@ && "params"@ != "id"@) by {
        assert("jsonrpc"@.len() == 7 && "method"@.len() == 6 && "id"@.len() == 2);
        assert("method"@[0] == 'm' && "params"@[0] == 'p');
    }
    crate::json::lemma_lookup_push(f0, "jsonrpc"@, JsonView::String("2.0"@), "id"@);
    crate::json::lemma_lookup_push(f1, "method"@, JsonView::String(method), "id"@);
    crate::json::lemma_lookup_push(f2, "params"@, params, "id"@);
    crate::json::lemma_lookup_push(f1, "method"@, JsonView::String(method), "jsonrpc"@);
    crate::json::lemma_lookup_push(f2, "params"@, params, "jsonrpc"@);
    crate::json::lemma_lookup_push(f2, "params"@, params, "method"@);
    assert(lookup(f0, "id"@) is None);
    assert(v.get("id"@) is None);
    assert(v.get("method"@) == Some(JsonView::String(method)));
    assert(v.get("jsonrpc"@) == Some(JsonView::String("2.0"@)));
    assert(v.get("params"@) == Some(params));
    assert(classify(v) == MessageKind::Notification);
}

/// The keys of the messages are different from one another.
proof fn lemma_keys_differ()
    ensures
        "jsonrpc"@ != "id"@,
        "jsonrpc"@ != "method"@,
        "jsonrpc"@ != "params"@,
        "jsonrpc"@ != "result"@,
        "jsonrpc"@ != "error"@,
        "id"@ != "method"@,
        "id"@ != "params"@,
        "id"@ != "result"@,
        "id"@ != "error"@,
        "method"@ != "params"@,
        "method"@ != "result"@,
        "method"@ != "error"@,
        "params"@ != "result"@,
        "params"@ != "error"@,
        "result"@ != "error"@,
        "code"@ != "message"@,
        "code"@ != "data"@,
        "message"@ != "data"@,
{
    reveal_strlit("jsonrpc");
    reveal_strlit("id");
    reveal_strlit("method");
    reveal_strlit("params");
    reveal_strlit("result");
    reveal_strlit("error");
    reveal_strlit("code");
    reveal_strlit("message");
    reveal_strlit("data");
    assert("jsonrpc"@.len() == 7 && "id"@.len() == 2 && "method"@.len() == 6 && "params"@.len()
        == 6 && "result"@.len() == 6 && "error"@.len() == 5 && "code"@.len() == 4
        && "message"@.len() == 7 && "data"@.len() == 4);
    assert("method"@[0] == 'm' && "params"@[0] == 'p' && "result"@[0] == 'r');
    assert("code"@[0] == 'c' && "data"@[0] == 'd');
}

/// An error object is read back from its wire form.
pub proof fn lemma_error_read_back(e: ErrorView)
    ensures
        e.json() is Object,
        !(e.json() is Null),
        ErrorView::decode(e.json()) == Some(
            ErrorView {
                data: match e.data {
                    Some(d) => if d is Null {
                        None
                    } else {
                        Some(d)
                    },
                    None => None,
                },
                ..e
            },
        ),
{
    lemma_keys_differ();
    let o0 = empty_object();
    let o1 = o0.with("code"@, JsonView::Number(integer_text(e.code as int)));
    let o2 = o1.with("message"@, JsonView::String(e.message));
    let o3 = o2.with_opt("data"@, e.data);
    assert(lookup(Seq::<(Seq<char>, JsonView)>::empty(), "data"@) is None);
    crate::json::lemma_get_with(o0, "code"@, JsonView::Number(integer_text(e.code as int)), "data"@);
    crate::json::lemma_get_with(o1, "message"@, JsonView::String(e.message), "code"@);
    crate::json::lemma_get_with(o1, "message"@, JsonView::String(e.message), "data"@);
    crate::json::lemma_get_with_opt(o2, "data"@, e.data, "code"@);
    crate::json::lemma_get_with_opt(o2, "data"@, e.data, "message"@);
    crate::json::lemma_integer_round_trip(e.code as int);
    assert(o3.get("code"@) == Some(JsonView::Number(integer_text(e.code as int))));
    assert(o3.get("message"@) == Some(JsonView::String(e.message)));
    assert(o2.get("data"@) is None);
}

/// A response reaches the caller of its request as it was sent: where a body
/// is the response that [`respond`] makes for a request with a string id
/// and for what its handler gave, and a request waits under that id, the
/// endpoint that receives it completes that request, with the result or
/// with the code and the message of the error, and the request waits no
/// longer.
pub proof fn lemma_response_observed<S, H>(
    pending: Map<Seq<char>, S>,
    handlers: Map<Seq<char>, H>,
    body: Seq<u8>,
    id: Seq<char>,
    outcome: Result<Json, CopilotError>,
)
    requires
        json_decode(body) == Some(reply(JsonView::String(id), outcome).json()),
        pending.contains_key(id),
    ensures
        incoming(pending, handlers, body) == (IncomingView::<S>::Response {
            slot: pending[id],
            outcome: match outcome {
                Ok(result) => Ok(result@),
                Err(e) => Err(reply_error(e)),
            },
        }),
        pending_after(pending, body) == pending.remove(id),
{
    lemma_keys_differ();
    let response = reply(JsonView::String(id), outcome);
    let v = response.json();
    let o0 = empty_object();
    let o1 = o0.with("jsonrpc"@, JsonView::String("2.0"@));
    let o2 = o1.with_opt("id"@, response.id);
    let o3 = o2.with_opt("result"@, response.result);
    let o4 = o3.with_opt("error"@, opt_error_json(response.error));
    assert(v == o4);
    assert(lookup(Seq::<(Seq<char>, JsonView)>::empty(), "method"@) is None);
    assert(lookup(Seq::<(Seq<char>, JsonView)>::empty(), "result"@) is None);
    assert(lookup(Seq::<(Seq<char>, JsonView)>::empty(), "error"@) is None);
    crate::json::lemma_get_with(o0, "jsonrpc"@, JsonView::String("2.0"@), "method"@);
    crate::json::lemma_get_with(o0, "jsonrpc"@, JsonView::String("2.0"@), "result"@);
    crate::json::lemma_get_with(o0, "jsonrpc"@, JsonView::String("2.0"@), "error"@);
    crate::json::lemma_get_with_opt(o1, "id"@, response.id, "method"@);
    crate::json::lemma_get_with_opt(o1, "id"@, response.id, "jsonrpc"@);
    crate::json::lemma_get_with_opt(o1, "id"@, response.id, "result"@);
    crate::json::lemma_get_with_opt(o1, "id"@, response.id, "error"@);
    crate::json::lemma_get_with_opt(o2, "result"@, response.result, "method"@);
    crate::json::lemma_get_with_opt(o2, "result"@, response.result, "jsonrpc"@);
    crate::json::lemma_get_with_opt(o2, "result"@, response.result, "id"@);
    crate::json::lemma_get_with_opt(o2, "result"@, response.result, "error"@);
    crate::json::lemma_get_with_opt(o3, "error"@, opt_error_json(response.error), "method"@);
    crate::json::lemma_get_with_opt(o3, "error"@, opt_error_json(response.error), "jsonrpc"@);
    crate::json::lemma_get_with_opt(o3, "error"@, opt_error_json(response.error), "id"@);
    crate::json::lemma_get_with_opt(o3, "error"@, opt_error_json(response.error), "result"@);
    assert(v.get("id"@) == Some(JsonView::String(id)));
    assert(v.get("method"@) is None);
    assert(v.get("jsonrpc"@) == Some(JsonView::String("2.0"@)));
    assert(classify(v) == MessageKind::Response);
    match outcome {
        Ok(result) => {
            assert(v.get("error"@) is None);
            assert(v.get("result"@) == Some(result@));
        },
        Err(e) => {
            lemma_error_read_back(reply_error(e));
            assert(v.get("error"@) == Some(reply_error(e).json()));
            assert(v.get("result"@) is None);
        },
    }
}

/// A request of the peer reaches its handler as it was sent: where a body is
/// the request that an endpoint sends for a call, the endpoint that receives
/// it asks for the handler of the method to be run on those parameters, and
/// answers under the id of the request; where the method has no handler, it
/// answers that the method was not found.
pub proof fn lemma_request_observed<S, H>(
    pending: Map<Seq<char>, S>,
    handlers: Map<Seq<char>, H>,
    body: Seq<u8>,
    id: Seq<char>,
    method: Seq<char>,
    params: JsonView,
)
    requires
        json_decode(body) == Some(outgoing_request(id, method, params).json()),
    ensures
        handlers.contains_key(method) ==> incoming(pending, handlers, body) == (IncomingView::<
            S,
        >::Request { id: JsonView::String(id), method, params }),
        !handlers.contains_key(method) ==> incoming(pending, handlers, body) == (IncomingView::<
            S,
        >::Reply { body: json_bytes(method_not_found(JsonView::String(id), method).json()) }),
        pending_after(pending, body) == pending,
{
    lemma_keys_differ();
    let v = outgoing_request(id, method, params).json();
    let o0 = empty_object();
    let o1 = o0.with("jsonrpc"@, JsonView::String("2.0"@));
    let o2 = o1.with("id"@, JsonView::String(id));
    let o3 = o2.with("method"@, JsonView::String(method));
    let o4 = o3.with_opt("params"@, Some(params));
    assert(v == o4);
    crate::json::lemma_get_with(o1, "id"@, JsonView::String(id), "jsonrpc"@);
    crate::json::lemma_get_with(o0, "jsonrpc"@, JsonView::String("2.0"@), "id"@);
    crate::json::lemma_get_with(o2, "method"@, JsonView::String(method), "jsonrpc"@);
    crate::json::lemma_get_with(o2, "method"@, JsonView::String(method), "id"@);
    crate::json::lemma_get_with_opt(o3, "params"@, Some(params), "jsonrpc"@);
    crate::json::lemma_get_with_opt(o3, "params"@, Some(params), "id"@);
    crate::json::lemma_get_with_opt(o3, "params"@, Some(params), "method"@);
    assert(v.get("id"@) == Some(JsonView::String(id)));
    assert(v.get("method"@) == Some(JsonView::String(method)));
    assert(v.get("jsonrpc"@) == Some(JsonView::String("2.0"@)));
    assert(v.get("params"@) == Some(params));
    assert(classify(v) == MessageKind::Request);
}

/// A response whose id is no string is ignored, and so is one whose id is a
/// string under which no request waits: nothing is done, and every request
/// that waited still waits.
pub proof fn lemma_foreign_id_ignored<S, H>(
    pending: Map<Seq<char>, S>,
    handlers: Map<Seq<char>, H>,
    body: Seq<u8>,
)
    requires
        json_decode(body) is Some,
        classify(json_decode(body)->0) == MessageKind::Response,
        !(ResponseView::decode(json_decode(body)->0) matches Some(r) && r.id matches Some(
            JsonView::String(id),
        ) && pending.contains_key(id)),
    ensures
        incoming(pending, handlers, body) == IncomingView::<S>::Ignored,
        pending_after(pending, body) == pending,
{
}

/// What can happen to an endpoint, as far as the requests that wait go.
pub enum Step<S> {
    /// A caller registers a request.
    Request { id: Seq<char>, slot: S },
    /// A body arrives.
    Receive { body: Seq<u8> },
    /// A request that could not be sent is taken back.
    Cancel { id: Seq<char> },
    /// The endpoint is stopped.
    Stop,
}

/// The requests that wait and whether the endpoint runs.
pub struct Waiting<S> {
    pub pending: Map<Seq<char>, S>,
    pub running: bool,
}

impl<S> Step<S> {
    /// The state after the step.
    pub open spec fn after(self, w: Waiting<S>) -> Waiting<S> {
        match self {
            Step::Request { id, slot } => if w.running {
                Waiting { pending: w.pending.insert(id, slot), running: true }
            } else {
                w
            },
            Step::Receive { body } => if w.running {
                Waiting { pending: pending_after(w.pending, body), running: true }
            } else {
                w
            },
            Step::Cancel { id } => Waiting { pending: w.pending.remove(id), running: w.running },
            Step::Stop => Waiting { pending: Map::empty(), running: false },
        }
    }

    /// Whether the step registers a request under `id`.
    pub open spec fn registers(self, w: Waiting<S>, id: Seq<char>) -> bool {
        self matches Step::Request { id: i, slot } && i == id && w.running
    }

    /// Whether the step ends the wait of the request under `id`: its slot is
    /// handed out, for a response, for an error, or because another request
    /// took its id.
    pub open spec fn completes(self, w: Waiting<S>, id: Seq<char>) -> bool {
        w.pending.contains_key(id) && match self {
            Step::Request { id: i, slot } => w.running && i == id,
            Step::Receive { body } => w.running && answered(w.pending, body) == Some(id),
            Step::Cancel { id: i } => i == id,
            Step::Stop => true,
        }
    }
}

/// The state of a new endpoint after the given steps.
pub open spec fn run<S>(steps: Seq<Step<S>>) -> Waiting<S>
    decreases steps.len(),
{
    if steps.len() == 0 {
        Waiting { pending: Map::empty(), running: true }
    } else {
        steps.last().after(run(steps.drop_last()))
    }
}

/// How often a request was registered under `id` in the given steps.
pub open spec fn times_registered<S>(steps: Seq<Step<S>>, id: Seq<char>) -> nat
    decreases steps.len(),
{
    if steps.len() == 0 {
        0
    } else {
        times_registered(steps.drop_last(), id) + if steps.last().registers(
            run(steps.drop_last()),
            id,
        ) {
            1nat
        } else {
            0nat
        }
    }
}

/// How often the wait of a request under `id` ended in the given steps.
pub open spec fn times_completed<S>(steps: Seq<Step<S>>, id: Seq<char>) -> nat
    decreases steps.len(),
{
    if steps.len() == 0 {
        0
    } else {
        times_completed(steps.drop_last(), id) + if steps.last().completes(
            run(steps.drop_last()),
            id,
        ) {
            1nat
        } else {
            0nat
        }
    }
}

/// Every request that was registered has either been completed, once, or
/// still waits: under each id, the registrations are the completions plus
/// one where a request waits. So a request waits exactly as long as its
/// caller has had no answer, the table is empty exactly when no caller
/// waits, and a stopped endpoint has no request that waits.
pub proof fn lemma_requests_complete_once<S>(steps: Seq<Step<S>>, id: Seq<char>)
    ensures
        times_registered(steps, id) == times_completed(steps, id) + if run(
            steps,
        ).pending.contains_key(id) {
            1nat
        } else {
            0nat
        },
        !run(steps).running ==> run(steps).pending == Map::<Seq<char>, S>::empty(),
    decreases steps.len(),
{
    if steps.len() > 0 {
        let before = steps.drop_last();
        lemma_requests_complete_once(before, id);
        let w = run(before);
        match steps.last() {
            Step::Request { id: i, slot } => {},
            Step::Receive { body } => {},
            Step::Cancel { id: i } => {
                if !w.running {
                    assert(w.pending.remove(i) =~= w.pending);
                }
            },
            Step::Stop => {},
        }
    }
}

/// Once the endpoint is stopped nothing is registered and no wait ends: no
/// response is delivered any more.
pub proof fn lemma_stopped_stays_idle<S>(steps: Seq<Step<S>>, step: Step<S>, id: Seq<char>)
    requires
        !run(steps).running,
    ensures
        !step.registers(run(steps), id),
        !step.completes(run(steps), id),
        !step.after(run(steps)).running,
        step.after(run(steps)).pending == Map::<Seq<char>, S>::empty(),
{
    lemma_requests_complete_once(steps, id);
    let w = run(steps);
    match step {
        Step::Cancel { id: i } => {
            assert(w.pending.remove(i) =~= w.pending);
        },
        _ => {},
    }
}

} // verus!
