//! One conversation with the server: who listens to its events, which tools
//! and which permission handler it has, and what it asks of the server.

use vstd::prelude::*;
use vstd::string::*;
use crate::error::CopilotError;
use crate::events::{SessionEvent, SessionEventType};
use crate::json::{empty_object, opt_string_json, view_items, Json, JsonView};
use crate::jsonrpc::Call;
use crate::registry::Registry;
use crate::text::owned;
use crate::tool::{Tool, ToolResult};
use crate::types::{
    opt_attachments_json, MessageOptions, PermissionInvocation, PermissionRequest,
    PermissionRequestResult,
};

verus! {

/// How long `send_and_wait` waits where the caller names no time, in seconds.
pub const DEFAULT_WAIT_SECONDS: u64 = 60;

/// The state of a session.
pub struct SessionState<F, T, P> {
    /// The id that the server gave the session.
    pub session_id: Seq<char>,
    /// The subscribers, each under the id of its subscription, in the order
    /// in which they came.
    pub subscribers: Seq<(u64, F)>,
    /// The id that the next subscription gets.
    pub next_handler_id: u64,
    /// The tool handlers, by tool name.
    pub tools: Map<Seq<char>, T>,
    /// The permission handler.
    pub permission_handler: Option<P>,
    /// Whether the session has been destroyed.
    pub destroyed: bool,
}

impl<F, T, P> SessionState<F, T, P> {
    /// Whether a subscription with the given id is installed.
    pub open spec fn subscribed(self, id: u64) -> bool {
        exists|i: int| 0 <= i < self.subscribers.len() && (#[trigger] self.subscribers[i]).0 == id
    }

    /// The subscribers that an event is delivered to, in order: all of them,
    /// or none once the session is destroyed.
    pub open spec fn deliveries(self) -> Seq<(u64, F)> {
        if self.destroyed {
            Seq::empty()
        } else {
            self.subscribers
        }
    }

    /// What holds of the state of every session: the ids of the subscribers
    /// are below the next one to give, and a destroyed session has no
    /// subscriber.
    pub open spec fn valid(self) -> bool {
        &&& forall|i: int|
            0 <= i < self.subscribers.len() ==> (#[trigger] self.subscribers[i]).0
                < self.next_handler_id
        &&& self.destroyed ==> self.subscribers.len() == 0
    }

    /// Whether a subscriber can be installed: the session lives and has an
    /// id left to give.
    pub open spec fn can_subscribe(self) -> bool {
        !self.destroyed && self.next_handler_id < u64::MAX
    }

    /// The state once a subscriber is installed, where one can be: it stands
    /// behind the others, under the next id.
    pub open spec fn subscribe(self, handler: F) -> Self {
        if self.can_subscribe() {
            SessionState {
                subscribers: self.subscribers.push((self.next_handler_id, handler)),
                next_handler_id: (self.next_handler_id + 1) as u64,
                ..self
            }
        } else {
            self
        }
    }

    /// The state once the session is destroyed: nobody listens, and no
    /// handler is left.
    pub open spec fn destroy(self) -> Self {
        SessionState {
            subscribers: Seq::empty(),
            tools: Map::empty(),
            permission_handler: None,
            destroyed: true,
            ..self
        }
    }
}

/// The subscribers without the one that has the given id.
pub open spec fn without<F>(subscribers: Seq<(u64, F)>, id: u64) -> Seq<(u64, F)>
    decreases subscribers.len(),
{
    if subscribers.len() == 0 {
        subscribers
    } else if subscribers.last().0 != id {
        without(subscribers.drop_last(), id).push(subscribers.last())
    } else {
        without(subscribers.drop_last(), id)
    }
}

/// The tool handlers that a list of tools registers on top of `tools`: each
/// tool with a name and a handler, a later one in place of an earlier one of
/// the same name.
pub open spec fn registered<T>(tools: Map<Seq<char>, T>, list: Seq<Tool<T>>) -> Map<Seq<char>, T>
    decreases list.len(),
{
    if list.len() == 0 {
        tools
    } else {
        let first = list[0];
        let next = if first.name@.len() > 0 && first.handler is Some {
            tools.insert(first.name@, first.handler->0)
        } else {
            tools
        };
        registered(next, list.drop_first())
    }
}

/// One delivery of an event: the subscriber that gets it, and the event,
/// which all deliveries share.
pub struct Delivery<'a, F> {
    pub subscriber: &'a F,
    pub event: &'a SessionEvent,
}

/// What is to be done with a call of a tool.
pub enum ToolDispatch<'a, T> {
    /// Run the handler, and give the server what [`tool_outcome`] makes of
    /// what it gave.
    Run(&'a T),
    /// The session has no such tool: give the server this failure.
    Unsupported(ToolResult),
}

/// What is to be done with a request for a permission.
pub enum PermissionDispatch<'a, P> {
    /// Ask the handler, and give the server what [`permission_outcome`]
    /// makes of what it gave.
    Ask { handler: &'a P, request: PermissionRequest, invocation: PermissionInvocation },
    /// The session has no permission handler: the permission is denied.
    Denied(PermissionRequestResult),
}

/// What a tool call gives the server: the result of the handler, or a
/// failure with the text of its error. The error itself goes no further.
pub fn tool_outcome(outcome: Result<ToolResult, CopilotError>) -> (r: ToolResult)
    ensures
        outcome is Ok ==> r == outcome->Ok_0,
        outcome is Err ==> r.is_failure(outcome->Err_0.text()),
{
    match outcome {
        Ok(result) => result,
        Err(e) => ToolResult::failure(e.to_string().as_str()),
    }
}

/// What a permission request gives the server: the result of the handler, or
/// a denial where the handler failed.
pub fn permission_outcome(outcome: Result<PermissionRequestResult, CopilotError>) -> (r:
    PermissionRequestResult)
    ensures
        outcome is Ok ==> r == outcome->Ok_0,
        outcome is Err ==> r.kind@
            == "denied-no-approval-rule-and-could-not-request-from-user"@ && r.rules is None,
{
    match outcome {
        Ok(result) => result,
        Err(_) => PermissionRequestResult::denied(),
    }
}

/// The parameters of a request that names only the session.
pub open spec fn session_params(session_id: Seq<char>) -> JsonView {
    empty_object().with("sessionId"@, JsonView::String(session_id))
}

/// The parameters of `session.send`.
pub open spec fn send_params(session_id: Seq<char>, options: MessageOptions) -> JsonView {
    session_params(session_id).with("prompt"@, JsonView::String(options.prompt@)).with_opt(
        "attachments"@,
        opt_attachments_json(options.attachments),
    ).with_opt("mode"@, opt_string_json(options.mode))
}

/// The id of the message that the server accepted, from its answer to
/// `session.send`.
pub fn message_id(result: &Json) -> (r: Result<String, CopilotError>)
    ensures
        r is Ok <==> result@.get_str("messageId"@) is Some,
        r is Ok ==> result@.get_str("messageId"@) == Some(r->Ok_0@),
        r is Err ==> (r->Err_0 matches CopilotError::Session(m) && m@
            == "invalid response: missing messageId"@),
{
    match result.get_str("messageId") {
        Some(id) => Ok(owned(id)),
        None => Err(CopilotError::session("invalid response: missing messageId")),
    }
}

/// The items of `items` that are events, in order.
pub open spec fn events_among(items: Seq<JsonView>) -> Seq<JsonView>
    decreases items.len(),
{
    if items.len() == 0 {
        items
    } else if SessionEvent::is_event(items.last()) {
        events_among(items.drop_last()).push(items.last())
    } else {
        events_among(items.drop_last())
    }
}

/// The history of a session, from the server's answer to
/// `session.getMessages`: the items of `events` that are events, in order.
/// An answer without a list of events is an error.
pub fn events_of(result: &Json) -> (r: Result<Vec<SessionEvent>, CopilotError>)
    ensures
        r is Ok <==> result@.get("events"@) is Some && result@.get("events"@)->0 is Array,
        r is Ok ==> r->Ok_0@.len() == events_among(result@.get("events"@)->0->Array_0).len(),
        r is Ok ==> forall|i: int|
            0 <= i < r->Ok_0@.len() ==> (#[trigger] r->Ok_0@[i]).holds(
                events_among(result@.get("events"@)->0->Array_0)[i],
            ),
        r is Err ==> (r->Err_0 matches CopilotError::Session(m) && m@
            == "invalid response: missing events"@),
{
    let items = match result.get("events") {
        Some(v) => match v.as_array() {
            Some(items) => items,
            None => {
                return Err(CopilotError::session("invalid response: missing events"));
            },
        },
        None => {
            return Err(CopilotError::session("invalid response: missing events"));
        },
    };
    let ghost all = view_items(items@);
    let mut events: Vec<SessionEvent> = Vec::new();
    let mut i: usize = 0;
    assert(all.take(0) =~= Seq::<JsonView>::empty());
    while i < items.len()
        invariant
            i <= items.len(),
            all == view_items(items@),
            events@.len() == events_among(all.take(i as int)).len(),
            forall|j: int|
                0 <= j < events@.len() ==> (#[trigger] events@[j]).holds(
                    events_among(all.take(i as int))[j],
                ),
        decreases items.len() - i,
    {
        let ghost before = events_among(all.take(i as int));
        proof {
            assert(all.take(i + 1).drop_last() =~= all.take(i as int));
            assert(all.take(i + 1).last() == all[i as int]);
        }
        match SessionEvent::from_json(&items[i]) {
            Some(event) => {
                events.push(event);
            },
            None => {},
        }
        i += 1;
    }
    assert(all.take(items@.len() as int) =~= all);
    Ok(events)
}

/// A send that waits for the session to become idle, once it has begun.
pub struct Wait {
    /// The id of the subscription that watches the session.
    pub subscription: u64,
    /// The `session.send` to send.
    pub call: Call,
}

/// What `send_and_wait` does with an event that arrives while it waits.
pub enum WaitStep {
    /// Keep waiting, with this as the last assistant message seen.
    Continue(Option<SessionEvent>),
    /// The session is idle: the wait is over, with the last assistant
    /// message, if any came.
    Done(Option<SessionEvent>),
    /// The session reported an error: the wait fails.
    Failed(CopilotError),
}

/// The text of the error with which a wait fails on `session.error`: the
/// message of the event, where it has one.
pub open spec fn error_text(event: SessionEvent) -> Seq<char> {
    match event.data@.get_str("message"@) {
        Some(m) => m,
        None => "session error"@,
    }
}

/// What `send_and_wait` does with an event that arrives while it waits:
/// an assistant message becomes the last one seen, `session.idle` ends the
/// wait, `session.error` fails it, and anything else, an event of a type
/// that is not known here among them, changes nothing.
pub fn wait_step(last: Option<SessionEvent>, event: SessionEvent) -> (r: WaitStep)
    ensures
        match event.event_type {
            Some(SessionEventType::AssistantMessage) => r == WaitStep::Continue(Some(event)),
            Some(SessionEventType::SessionIdle) => r == WaitStep::Done(last),
            Some(SessionEventType::SessionError) => (r matches WaitStep::Failed(
                CopilotError::Session(m),
            ) && m@ == error_text(event)),
            _ => r == WaitStep::Continue(last),
        },
{
    match event.event_type {
        Some(SessionEventType::AssistantMessage) => WaitStep::Continue(Some(event)),
        Some(SessionEventType::SessionIdle) => WaitStep::Done(last),
        Some(SessionEventType::SessionError) => {
            let text = match event.message() {
                Some(m) => owned(m),
                None => owned("session error"),
            };
            WaitStep::Failed(CopilotError::Session(text))
        },
        _ => WaitStep::Continue(last),
    }
}

/// What a wait has come to.
pub enum Waited {
    /// It goes on, with this as the last assistant message seen.
    Continue(Option<SessionEvent>),
    /// It is over, with the last assistant message, if any came.
    Done(Option<SessionEvent>),
    /// It failed on a session error with this text.
    Failed(Seq<char>),
}

impl View for WaitStep {
    type V = Waited;

    open spec fn view(&self) -> Waited {
        match self {
            WaitStep::Continue(last) => Waited::Continue(*last),
            WaitStep::Done(last) => Waited::Done(*last),
            WaitStep::Failed(e) => Waited::Failed(
                match e {
                    CopilotError::Session(m) => m@,
                    _ => e.text(),
                },
            ),
        }
    }
}

/// What a wait has come to after the given events, in the order in which
/// they arrived, with `last` as the last assistant message seen before
/// them: the first `session.idle` or `session.error` among them ends it, and
/// what follows is not looked at.
pub open spec fn waited(last: Option<SessionEvent>, events: Seq<SessionEvent>) -> Waited
    decreases events.len(),
{
    if events.len() == 0 {
        Waited::Continue(last)
    } else {
        match events[0].event_type {
            Some(SessionEventType::AssistantMessage) => waited(
                Some(events[0]),
                events.drop_first(),
            ),
            Some(SessionEventType::SessionIdle) => Waited::Done(last),
            Some(SessionEventType::SessionError) => Waited::Failed(error_text(events[0])),
            _ => waited(last, events.drop_first()),
        }
    }
}

/// What a wait has come to after the given events, in the order in which
/// they arrived. A failure is a session error.
pub fn wait_for_idle(events: Vec<SessionEvent>) -> (r: WaitStep)
    ensures
        r@ == waited(None, events@),
        r matches WaitStep::Failed(e) ==> e is Session,
{
    let mut rest = events;
    let mut last: Option<SessionEvent> = None;
    while rest.len() > 0
        invariant
            waited(last, rest@) == waited(None, events@),
        decreases rest.len(),
    {
        let ghost before = rest@;
        let event = rest.remove(0);
        assert(rest@ =~= before.drop_first());
        match wait_step(last, event) {
            WaitStep::Continue(seen) => {
                last = seen;
            },
            WaitStep::Done(seen) => {
                return WaitStep::Done(seen);
            },
            WaitStep::Failed(e) => {
                return WaitStep::Failed(e);
            },
        }
    }
    WaitStep::Continue(last)
}

/// A conversation session with the server. `F` is what receives the
/// session's events, `T` a tool handler and `P` the permission handler.
pub struct Session<F, T, P> {
    session_id: String,
    handlers: Vec<(u64, F)>,
    next_handler_id: u64,
    tool_handlers: Registry<T>,
    permission_handler: Option<P>,
    destroyed: bool,
}

impl<F, T, P> View for Session<F, T, P> {
    type V = SessionState<F, T, P>;

    closed spec fn view(&self) -> SessionState<F, T, P> {
        SessionState {
            session_id: self.session_id@,
            subscribers: self.handlers@,
            next_handler_id: self.next_handler_id,
            tools: self.tool_handlers@,
            permission_handler: self.permission_handler,
            destroyed: self.destroyed,
        }
    }
}

impl<F, T, P> Session<F, T, P> {
    /// Every subscription has an id of its own, below the next one to give,
    /// and a destroyed session has no subscriber and no handler.
    pub closed spec fn wf(self) -> bool {
        &&& self.tool_handlers.wf()
        &&& self.destroyed ==> self.handlers@.len() == 0 && self.tool_handlers@ == Map::<
            Seq<char>,
            T,
        >::empty() && self.permission_handler is None
        &&& forall|i: int|
            0 <= i < self.handlers@.len() ==> (#[trigger] self.handlers@[i]).0
                < self.next_handler_id
        &&& forall|i: int, j: int|
            0 <= i < j < self.handlers@.len() ==> (#[trigger] self.handlers@[i]).0 != (
            #[trigger] self.handlers@[j]).0
    }

    /// The state of a session is a valid one.
    pub proof fn lemma_valid(self)
        requires
            self.wf(),
        ensures
            self@.valid(),
    {
    }

    /// A destroyed session has no subscriber and no handler.
    pub proof fn lemma_destroyed_is_bare(self)
        requires
            self.wf(),
            self@.destroyed,
        ensures
            self@.subscribers.len() == 0,
            self@.tools == Map::<Seq<char>, T>::empty(),
            self@.permission_handler is None,
    {
    }

    /// The subscriptions of a session have ids of their own, below the next
    /// one to give.
    pub proof fn lemma_subscription_ids(self)
        requires
            self.wf(),
        ensures
            forall|i: int|
                0 <= i < self@.subscribers.len() ==> (#[trigger] self@.subscribers[i]).0
                    < self@.next_handler_id,
            forall|i: int, j: int|
                0 <= i < j < self@.subscribers.len() ==> (#[trigger] self@.subscribers[i]).0 != (
                #[trigger] self@.subscribers[j]).0,
    {
    }

    /// Create a session with the id that the server gave it.
    pub fn new(session_id: String) -> (r: Self)
        ensures
            r.wf(),
            r@ == (SessionState::<F, T, P> {
                session_id: session_id@,
                subscribers: Seq::empty(),
                next_handler_id: 0,
                tools: Map::empty(),
                permission_handler: None,
                destroyed: false,
            }),
    {
        Session {
            session_id,
            handlers: Vec::new(),
            next_handler_id: 0,
            tool_handlers: Registry::new(),
            permission_handler: None,
            destroyed: false,
        }
    }

    /// Get the session ID.
    pub fn session_id(&self) -> (r: &str)
        ensures
            r@ == self@.session_id,
    {
        self.session_id.as_str()
    }

    /// Whether the session has been destroyed.
    pub fn is_destroyed(&self) -> (r: bool)
        ensures
            r == self@.destroyed,
    {
        self.destroyed
    }

    /// Subscribe to events from this session. The subscriber is added behind
    /// those that are there, under an id that no subscription of this session
    /// had before; `unsubscribe` takes that id. A destroyed session takes no
    /// subscriber, and neither does one whose ids have run out.
    pub fn on(&mut self, handler: F) -> (r: Option<u64>)
        requires
            old(self).wf(),
        ensures
            final(self).wf(),
            final(self)@ == old(self)@.subscribe(handler),
            r == (if old(self)@.can_subscribe() {
                Some(old(self)@.next_handler_id)
            } else {
                None
            }),
    {
        if self.destroyed || self.next_handler_id == u64::MAX {
            return None;
        }
        let id = self.next_handler_id;
        self.handlers.push((id, handler));
        self.next_handler_id = id + 1;
        Some(id)
    }

    /// Removes the subscriber with the given id, and no other.
    pub fn unsubscribe(&mut self, id: u64) -> (r: Option<F>)
        requires
            old(self).wf(),
        ensures
            final(self).wf(),
            r is Some <==> old(self)@.subscribed(id),
            r is Some ==> exists|i: int|
                0 <= i < old(self)@.subscribers.len() && #[trigger] old(self)@.subscribers[i] == (
                    id,
                    r->0,
                ),
            final(self)@ == (SessionState {
                subscribers: without(old(self)@.subscribers, id),
                ..old(self)@
            }),
    {
        let ghost before = self.handlers@;
        let mut i: usize = 0;
        while i < self.handlers.len()
            invariant
                i <= self.handlers.len(),
                self.handlers@ == before,
                *self == *old(self),
                old(self).wf(),
                forall|j: int| 0 <= j < i ==> (#[trigger] before[j]).0 != id,
            decreases self.handlers.len() - i,
        {
            if self.handlers[i].0 == id {
                let entry = self.handlers.remove(i);
                proof {
                    lemma_without_one(before, i as int);
                    assert(before[i as int] == (id, entry.1));
                    let after = self.handlers@;
                    assert forall|a: int| 0 <= a < after.len() implies (#[trigger] after[a]).0
                        < self.next_handler_id by {
                        if a < i {
                            assert(after[a] == before[a]);
                        } else {
                            assert(after[a] == before[a + 1]);
                        }
                    }
                    assert forall|a: int, b: int| 0 <= a < b < after.len() implies (
                    #[trigger] after[a]).0 != (#[trigger] after[b]).0 by {
                        let a2 = if a < i {
                            a
                        } else {
                            a + 1
                        };
                        let b2 = if b < i {
                            b
                        } else {
                            b + 1
                        };
                        assert(after[a] == before[a2]);
                        assert(after[b] == before[b2]);
                    }
                }
                return Some(entry.1);
            }
            i += 1;
        }
        proof {
            lemma_without_none(before, id);
        }
        None
    }

    /// The deliveries of an event, in the order in which the subscribers
    /// came: one to each subscriber, or none once the session is destroyed.
    /// Every delivery shares the one event.
    pub fn dispatch_event<'a>(&'a self, event: &'a SessionEvent) -> (r: Vec<Delivery<'a, F>>)
        ensures
            r@.len() == self@.deliveries().len(),
            forall|i: int|
                0 <= i < r@.len() ==> *(#[trigger] r@[i]).subscriber == self@.deliveries()[i].1
                    && *r@[i].event == *event,
    {
        let mut out: Vec<Delivery<'a, F>> = Vec::new();
        if self.destroyed {
            return out;
        }
        let mut i: usize = 0;
        while i < self.handlers.len()
            invariant
                i <= self.handlers.len(),
                out@.len() == i,
                forall|j: int|
                    0 <= j < i ==> *(#[trigger] out@[j]).subscriber == self.handlers@[j].1
                        && *out@[j].event == *event,
            decreases self.handlers.len() - i,
        {
            out.push(Delivery { subscriber: &self.handlers[i].1, event });
            i += 1;
        }
        out
    }

    /// Register tool handlers for this session, in place of those that it
    /// had: one for each tool that has a name and a handler. A destroyed
    /// session takes none.
    pub fn register_tools(&mut self, tools: Vec<Tool<T>>)
        requires
            old(self).wf(),
        ensures
            final(self).wf(),
            final(self)@ == (SessionState {
                tools: if old(self)@.destroyed {
                    old(self)@.tools
                } else {
                    registered(Map::empty(), tools@)
                },
                ..old(self)@
            }),
    {
        if self.destroyed {
            return;
        }
        self.tool_handlers.clear();
        let mut rest = tools;
        while rest.len() > 0
            invariant
                self.wf(),
                !self.destroyed,
                self@ == (SessionState { tools: self@.tools, ..old(self)@ }),
                registered(self@.tools, rest@) == registered(Map::empty(), tools@),
            decreases rest.len(),
        {
            let ghost before = rest@;
            let tool = rest.remove(0);
            assert(rest@ =~= before.drop_first());
            if tool.name.as_str().unicode_len() > 0 {
                match tool.handler {
                    Some(handler) => {
                        let _ = self.tool_handlers.insert(tool.name, handler);
                    },
                    None => {},
                }
            }
        }
    }

    /// Register a permission handler for this session, in place of any that
    /// it had. A destroyed session takes none.
    pub fn set_permission_handler(&mut self, handler: P)
        requires
            old(self).wf(),
        ensures
            final(self).wf(),
            final(self)@ == (SessionState {
                permission_handler: if old(self)@.destroyed {
                    None
                } else {
                    Some(handler)
                },
                ..old(self)@
            }),
    {
        if !self.destroyed {
            self.permission_handler = Some(handler);
        }
    }

    /// Says what to do with a call of the tool `tool_name`: run its handler,
    /// or tell the server that the session has no such tool.
    pub fn execute_tool(&self, tool_name: &str) -> (r: ToolDispatch<'_, T>)
        requires
            self.wf(),
        ensures
            self@.tools.contains_key(tool_name@) ==> (r matches ToolDispatch::Run(h) && *h
                == self@.tools[tool_name@]),
            !self@.tools.contains_key(tool_name@) ==> (r matches ToolDispatch::Unsupported(t)
                && t.is_unsupported(tool_name@)),
    {
        match self.tool_handlers.get(tool_name) {
            Some(handler) => ToolDispatch::Run(handler),
            None => ToolDispatch::Unsupported(ToolResult::unsupported(tool_name)),
        }
    }

    /// Says what to do with a request for a permission: ask the handler,
    /// with the kind and the tool call that the request names, or deny where
    /// the session has no handler.
    pub fn handle_permission_request(&self, request_data: &Json) -> (r: PermissionDispatch<'_, P>)
        ensures
            self@.permission_handler is None ==> (r matches PermissionDispatch::Denied(d) && d.kind@
                == "denied-no-approval-rule-and-could-not-request-from-user"@ && d.rules is None),
            self@.permission_handler is Some ==> (r matches PermissionDispatch::Ask {
                handler,
                request,
                invocation,
            } && *handler == self@.permission_handler->0 && invocation.session_id@
                == self@.session_id && request.kind@ == (match request_data@.get_str("kind"@) {
                Some(k) => k,
                None => Seq::<char>::empty(),
            }) && (request.tool_call_id is Some <==> request_data@.get_str("toolCallId"@) is Some)
                && (request.tool_call_id is Some ==> request_data@.get_str("toolCallId"@) == Some(
                request.tool_call_id->0@,
            )) && request.extra@.len() == 0),
    {
        match &self.permission_handler {
            None => PermissionDispatch::Denied(PermissionRequestResult::denied()),
            Some(handler) => {
                let kind = match request_data.get_str("kind") {
                    Some(k) => owned(k),
                    None => String::new(),
                };
                let tool_call_id = match request_data.get_str("toolCallId") {
                    Some(t) => Some(owned(t)),
                    None => None,
                };
                PermissionDispatch::Ask {
                    handler,
                    request: PermissionRequest { kind, tool_call_id, extra: Vec::new() },
                    invocation: PermissionInvocation { session_id: self.session_id.clone() },
                }
            },
        }
    }

    /// The `session.send` to send for a message. The answer gives the id of
    /// the message: see [`message_id`].
    pub fn send(&self, options: &MessageOptions) -> (r: Call)
        ensures
            r.is("session.send"@, send_params(self@.session_id, *options)),
    {
        let mut params = Json::object();
        params.set("sessionId", Json::string(self.session_id.as_str()));
        params.set("prompt", Json::string(options.prompt.as_str()));
        params.set_opt("attachments", options.attachments_to_json());
        params.set_opt("mode", Json::opt_string(&options.mode));
        Call { method: owned("session.send"), params }
    }

    /// Begins a send that waits for the session to become idle: installs
    /// `watcher` as a subscriber and gives the `session.send` to send. The watcher is there before the message leaves,
    /// so that no event of the turn can pass it by; the caller feeds what it
    /// sees to [`wait_step`], and takes it out again with `unsubscribe` on
    /// every way out. Where no subscriber can be installed, nothing is to be
    /// sent.
    pub fn send_and_wait(&mut self, options: &MessageOptions, watcher: F) -> (r: Option<Wait>)
        requires
            old(self).wf(),
        ensures
            final(self).wf(),
            final(self)@ == old(self)@.subscribe(watcher),
            old(self)@.can_subscribe() ==> r is Some && r->0.subscription == old(
                self,
            )@.next_handler_id && r->0.call.is(
                "session.send"@,
                send_params(old(self)@.session_id, *options),
            ),
            !old(self)@.can_subscribe() ==> r is None,
    {
        match self.on(watcher) {
            Some(subscription) => Some(Wait { subscription, call: self.send(options) }),
            None => None,
        }
    }

    /// The `session.getMessages` to send. The answer is read by
    /// [`events_of`].
    pub fn get_messages(&self) -> (r: Call)
        ensures
            r.is("session.getMessages"@, session_params(self@.session_id)),
    {
        let mut params = Json::object();
        params.set("sessionId", Json::string(self.session_id.as_str()));
        Call { method: owned("session.getMessages"), params }
    }

    /// The `session.abort` to send.
    pub fn abort(&self) -> (r: Call)
        ensures
            r.is("session.abort"@, session_params(self@.session_id)),
    {
        let mut params = Json::object();
        params.set("sessionId", Json::string(self.session_id.as_str()));
        Call { method: owned("session.abort"), params }
    }

    /// Destroys the session: from now on no event is delivered, nobody
    /// listens and no handler is left. The first call gives the
    /// `session.destroy` to send; a later one changes nothing and gives none.
    pub fn destroy(&mut self) -> (r: Option<Call>)
        requires
            old(self).wf(),
        ensures
            final(self).wf(),
            final(self)@ == old(self)@.destroy(),
            old(self)@.destroyed ==> r is None,
            !old(self)@.destroyed ==> r is Some && r->0.is(
                "session.destroy"@,
                session_params(old(self)@.session_id),
            ),
    {
        let first = !self.destroyed;
        self.destroyed = true;
        self.handlers.clear();
        self.tool_handlers.clear();
        self.permission_handler = None;
        if first {
            let mut params = Json::object();
            params.set("sessionId", Json::string(self.session_id.as_str()));
            Some(Call { method: owned("session.destroy"), params })
        } else {
            None
        }
    }
}

/// Taking out the one subscriber with an id leaves the others in order.
proof fn lemma_without_one<F>(subscribers: Seq<(u64, F)>, i: int)
    requires
        0 <= i < subscribers.len(),
        forall|a: int, b: int|
            0 <= a < b < subscribers.len() ==> (#[trigger] subscribers[a]).0 != (
            #[trigger] subscribers[b]).0,
    ensures
        without(subscribers, subscribers[i].0) == subscribers.remove(i),
    decreases subscribers.len(),
{
    let id = subscribers[i].0;
    let front = subscribers.drop_last();
    if i == subscribers.len() - 1 {
        lemma_without_none(front, id);
        assert(subscribers.remove(i) =~= front);
    } else {
        assert(front[i] == subscribers[i]);
        lemma_without_one(front, i);
        assert(subscribers.last().0 != id);
        assert(subscribers.remove(i) =~= front.remove(i).push(subscribers.last()));
    }
}

/// Where no subscriber has the id, taking it out changes nothing.
proof fn lemma_without_none<F>(subscribers: Seq<(u64, F)>, id: u64)
    requires
        forall|j: int| 0 <= j < subscribers.len() ==> (#[trigger] subscribers[j]).0 != id,
    ensures
        without(subscribers, id) == subscribers,
    decreases subscribers.len(),
{
    if subscribers.len() > 0 {
        let front = subscribers.drop_last();
        lemma_without_none(front, id);
        assert(subscribers =~= front.push(subscribers.last()));
    }
}

/// What can happen to a session, as far as the delivery of events goes.
pub enum SessionStep<F> {
    /// A subscriber is installed.
    Subscribe(F),
    /// The subscriber with the given id is removed.
    Unsubscribe(u64),
    /// An event arrives from the wire.
    Event(SessionEvent),
    /// The session is destroyed.
    Destroy,
}

impl<F> SessionStep<F> {
    /// The state after the step.
    pub open spec fn after<T, P>(self, state: SessionState<F, T, P>) -> SessionState<F, T, P> {
        match self {
            SessionStep::Subscribe(handler) => state.subscribe(handler),
            SessionStep::Unsubscribe(id) => SessionState {
                subscribers: without(state.subscribers, id),
                ..state
            },
            SessionStep::Event(_) => state,
            SessionStep::Destroy => state.destroy(),
        }
    }
}

/// The state after the given steps.
pub open spec fn state_after<F, T, P>(
    start: SessionState<F, T, P>,
    steps: Seq<SessionStep<F>>,
) -> SessionState<F, T, P>
    decreases steps.len(),
{
    if steps.len() == 0 {
        start
    } else {
        steps.last().after(state_after(start, steps.drop_last()))
    }
}

/// Whether an event that arrives in this state is delivered to the
/// subscriber with the given id.
pub open spec fn delivers_to<F, T, P>(state: SessionState<F, T, P>, id: u64) -> bool {
    exists|i: int| 0 <= i < state.deliveries().len() && (#[trigger] state.deliveries()[i]).0 == id
}

/// The events that the given steps deliver to the subscriber with the given
/// id, in order.
pub open spec fn delivered<F, T, P>(
    start: SessionState<F, T, P>,
    steps: Seq<SessionStep<F>>,
    id: u64,
) -> Seq<SessionEvent>
    decreases steps.len(),
{
    if steps.len() == 0 {
        Seq::empty()
    } else {
        let earlier = delivered(start, steps.drop_last(), id);
        match steps.last() {
            SessionStep::Event(event) => if delivers_to(
                state_after(start, steps.drop_last()),
                id,
            ) {
                earlier.push(event)
            } else {
                earlier
            },
            _ => earlier,
        }
    }
}

/// The events that arrive from the wire in the given steps, in order.
pub open spec fn received<F>(steps: Seq<SessionStep<F>>) -> Seq<SessionEvent>
    decreases steps.len(),
{
    if steps.len() == 0 {
        Seq::empty()
    } else {
        match steps.last() {
            SessionStep::Event(event) => received(steps.drop_last()).push(event),
            _ => received(steps.drop_last()),
        }
    }
}

/// No step removes the subscriber with the given id.
pub open spec fn never_unsubscribes<F>(steps: Seq<SessionStep<F>>, id: u64) -> bool {
    forall|i: int| 0 <= i < steps.len() ==> #[trigger] steps[i] != SessionStep::<F>::Unsubscribe(id)
}

proof fn lemma_without_keeps<F>(subscribers: Seq<(u64, F)>, removed: u64, id: u64, bound: u64)
    requires
        removed != id,
        forall|i: int| 0 <= i < subscribers.len() ==> (#[trigger] subscribers[i]).0 < bound,
    ensures
        (exists|i: int| 0 <= i < subscribers.len() && (#[trigger] subscribers[i]).0 == id) <==> (
        exists|i: int|
            0 <= i < without(subscribers, removed).len() && (#[trigger] without(
                subscribers,
                removed,
            )[i]).0 == id),
        forall|i: int|
            0 <= i < without(subscribers, removed).len() ==> (#[trigger] without(
                subscribers,
                removed,
            )[i]).0 < bound,
    decreases subscribers.len(),
{
    if subscribers.len() > 0 {
        let front = subscribers.drop_last();
        let last = subscribers.last();
        lemma_without_keeps(front, removed, id, bound);
        let kept = without(subscribers, removed);
        let kept_front = without(front, removed);
        if exists|i: int| 0 <= i < subscribers.len() && (#[trigger] subscribers[i]).0 == id {
            let i = choose|i: int| 0 <= i < subscribers.len() && (#[trigger] subscribers[i]).0 == id;
            if i < front.len() {
                assert(front[i].0 == id);
                let j = choose|j: int| 0 <= j < kept_front.len() && (#[trigger] kept_front[j]).0 == id;
                assert(kept[j] == kept_front[j]);
            } else {
                assert(last.0 == id);
                assert(kept[kept.len() - 1] == last);
            }
        }
        if exists|i: int| 0 <= i < kept.len() && (#[trigger] kept[i]).0 == id {
            let i = choose|i: int| 0 <= i < kept.len() && (#[trigger] kept[i]).0 == id;
            if i < kept_front.len() {
                assert(kept_front[i] == kept[i]);
                let j = choose|j: int| 0 <= j < front.len() && (#[trigger] front[j]).0 == id;
                assert(subscribers[j] == front[j]);
            } else {
                assert(kept[i] == last);
                assert(subscribers[subscribers.len() - 1] == last);
            }
        }
        assert forall|i: int| 0 <= i < kept.len() implies (#[trigger] kept[i]).0 < bound by {
            if i < kept_front.len() {
                assert(kept[i] == kept_front[i]);
            } else {
                assert(kept[i] == last);
                assert(subscribers[subscribers.len() - 1] == last);
            }
        }
    }
}

/// A subscriber that is never removed gets, in order, the events that arrive
/// until the session is destroyed, and none after that: what it has been
/// given is always a prefix of what has arrived, and all of it while the
/// session lives.
pub proof fn lemma_delivery_is_prefix<F, T, P>(
    start: SessionState<F, T, P>,
    steps: Seq<SessionStep<F>>,
    id: u64,
)
    requires
        start.valid(),
        start.subscribed(id),
        never_unsubscribes(steps, id),
    ensures
        delivered(start, steps, id).is_prefix_of(received(steps)),
        !state_after(start, steps).destroyed ==> delivered(start, steps, id) == received(steps)
            && state_after(start, steps).subscribed(id),
        state_after(start, steps).valid(),
    decreases steps.len(),
{
    if steps.len() == 0 {
        let i = choose|i: int|
            0 <= i < start.subscribers.len() && (#[trigger] start.subscribers[i]).0 == id;
        assert(!start.destroyed);
    } else {
        let earlier = steps.drop_last();
        assert(never_unsubscribes(earlier, id)) by {
            assert forall|i: int| 0 <= i < earlier.len() implies #[trigger] earlier[i]
                != SessionStep::<F>::Unsubscribe(id) by {
                assert(earlier[i] == steps[i]);
            }
        }
        lemma_delivery_is_prefix(start, earlier, id);
        let before = state_after(start, earlier);
        match steps.last() {
            SessionStep::Subscribe(handler) => {
                if !before.destroyed && before.next_handler_id < u64::MAX {
                    let i = choose|i: int|
                        0 <= i < before.subscribers.len() && (#[trigger] before.subscribers[i]).0
                            == id;
                    let after = state_after(start, steps);
                    assert(after.subscribers[i] == before.subscribers[i]);
                    assert forall|j: int| 0 <= j < after.subscribers.len() implies (
                    #[trigger] after.subscribers[j]).0 < after.next_handler_id by {
                        if j < before.subscribers.len() {
                            assert(after.subscribers[j] == before.subscribers[j]);
                        }
                    }
                } else if before.next_handler_id < u64::MAX {
                    let after = state_after(start, steps);
                    assert forall|j: int| 0 <= j < after.subscribers.len() implies (
                    #[trigger] after.subscribers[j]).0 < after.next_handler_id by {
                        if j < before.subscribers.len() {
                            assert(after.subscribers[j] == before.subscribers[j]);
                        }
                    }
                }
            },
            SessionStep::Unsubscribe(removed) => {
                assert(steps[steps.len() - 1] != SessionStep::<F>::Unsubscribe(id));
                lemma_without_keeps(before.subscribers, removed, id, before.next_handler_id);
                if !before.destroyed {
                    assert(before.subscribed(id));
                    assert(state_after(start, steps).subscribers == without(
                        before.subscribers,
                        removed,
                    ));
                    assert(state_after(start, steps).subscribed(id));
                }
            },
            SessionStep::Event(event) => {
                if before.destroyed {
                    assert(before.deliveries().len() == 0);
                } else {
                    let i = choose|i: int|
                        0 <= i < before.subscribers.len() && (#[trigger] before.subscribers[i]).0
                            == id;
                    assert(before.deliveries()[i].0 == id);
                    assert(delivers_to(before, id));
                }
            },
            SessionStep::Destroy => {},
        }
    }
}

/// Once a session is destroyed, no event is delivered to any subscriber,
/// whatever happens afterwards.
pub proof fn lemma_destroyed_delivers_nothing<F, T, P>(
    start: SessionState<F, T, P>,
    steps: Seq<SessionStep<F>>,
    id: u64,
)
    requires
        start.destroyed,
    ensures
        delivered(start, steps, id) == Seq::<SessionEvent>::empty(),
        state_after(start, steps).destroyed,
    decreases steps.len(),
{
    if steps.len() > 0 {
        lemma_destroyed_delivers_nothing(start, steps.drop_last(), id);
        let before = state_after(start, steps.drop_last());
        assert(before.deliveries().len() == 0);
    }
}

} // verus!
