//! The dispatcher: the table of handlers, the response that answers a
//! request, and the loop of one worker as a state machine.

use crate::message::Request;
use crate::message::Response;
use crate::message::ResponseView;
use crate::message::HEADER_CONTENT_TYPE;
use crate::status::IoError;
use std::collections::HashMap;
use vstd::prelude::*;

verus! {

broadcast use vstd::std_specs::hash::group_hash_axioms;

/// The status code of every response.
pub const STATUS_OK: u16 = 200;

/// The flags word of every send: the connection stays open.
pub const SEND_FLAGS: u32 = 0;

/// The response that carries a handler's text: status 200 with reason "OK",
/// the content type, and the text as the single body chunk.
pub open spec fn ok_response(body: Seq<char>) -> ResponseView {
    ResponseView::empty().with_status(STATUS_OK, "OK"@).with_known_header(
        HEADER_CONTENT_TYPE as int,
        "application/json"@,
    ).with_body(body)
}

/// The shape of every response: status 200, the content type as the only
/// header, and exactly one body chunk, which is the handler's text.
pub proof fn lemma_response_shape(body: Seq<char>)
    ensures
        ok_response(body).status_code == 200,
        ok_response(body).reason == "OK"@,
        ok_response(body).chunk_count == 1,
        ok_response(body).body == body,
        ok_response(body).known_headers.len() == crate::message::KNOWN_HEADER_COUNT,
        forall|id: int|
            0 <= id < crate::message::KNOWN_HEADER_COUNT ==> #[trigger] ok_response(
                body,
            ).known_headers[id] == (if id == HEADER_CONTENT_TYPE {
                Some("application/json"@)
            } else {
                None
            }),
{
}

/// The model of a send call.
pub struct SendCallView {
    pub request_id: u64,
    pub flags: u32,
    pub response: ResponseView,
}

/// What is handed to the request queue to answer one request.
pub struct SendCall {
    pub request_id: u64,
    pub flags: u32,
    pub response: Response,
}

impl View for SendCall {
    type V = SendCallView;

    open spec fn view(&self) -> SendCallView {
        SendCallView { request_id: self.request_id, flags: self.flags, response: self.response@ }
    }
}

/// The send call that answers a request with a handler's text.
pub open spec fn response_call(request_id: u64, body: Seq<char>) -> SendCallView {
    SendCallView { request_id, flags: SEND_FLAGS, response: ok_response(body) }
}

/// Builds the answer to `request` from the text that its handler returned.
pub fn return_response(request: &Request, result_text: String) -> (call: SendCall)
    ensures
        call@ == response_call(request@.request_id, result_text@),
{
    let mut response = Response::default();
    response.set_status(STATUS_OK, "OK".to_owned());
    let set = response.set_known_header(HEADER_CONTENT_TYPE, "application/json".to_owned());
    assert(set);
    response.add_body_chunk(result_text);
    SendCall { request_id: request.request_id(), flags: SEND_FLAGS, response }
}

/// The model of what a worker does next.
pub enum WorkerActionView {
    Exit,
    ReceiveFailed(IoError),
    UnknownRoute(u64),
    Respond { call: SendCallView, raise_shutdown: bool },
}

/// What a worker does next.
pub enum WorkerAction {
    /// The shutdown signal was observed: leave the loop.
    Exit,
    /// The receive failed: report it and go on with the next iteration.
    ReceiveFailed(IoError),
    /// No handler is registered under the request's route id: report it and
    /// go on. No response is sent.
    UnknownRoute(u64),
    /// Send the response; raise the shutdown signal if the handler asked for
    /// it. A failed send is reported and the loop goes on.
    Respond { call: SendCall, raise_shutdown: bool },
}

impl View for WorkerAction {
    type V = WorkerActionView;

    open spec fn view(&self) -> WorkerActionView {
        match self {
            WorkerAction::Exit => WorkerActionView::Exit,
            WorkerAction::ReceiveFailed(error) => WorkerActionView::ReceiveFailed(*error),
            WorkerAction::UnknownRoute(id) => WorkerActionView::UnknownRoute(*id),
            WorkerAction::Respond { call, raise_shutdown } => WorkerActionView::Respond {
                call: call@,
                raise_shutdown: *raise_shutdown,
            },
        }
    }
}

/// What a handler's result asks of the worker.
pub open spec fn respond_action(request_id: u64, body: Seq<char>, shutdown: bool) -> WorkerActionView {
    WorkerActionView::Respond { call: response_call(request_id, body), raise_shutdown: shutdown }
}

/// Turns the result of a request's handler into the worker's next action.
pub fn respond(request: &Request, body: String, shutdown: bool) -> (action: WorkerAction)
    ensures
        action@ == respond_action(request@.request_id, body@, shutdown),
{
    WorkerAction::Respond { call: return_response(request, body), raise_shutdown: shutdown }
}

/// The handlers of the registered routes, by route id. Once built the table
/// does not change; workers share it read-only.
pub struct HandlerTable<H> {
    handlers: HashMap<u64, H>,
}

impl<H> View for HandlerTable<H> {
    type V = Map<u64, H>;

    closed spec fn view(&self) -> Map<u64, H> {
        self.handlers@
    }
}

/// What the dispatcher does with a received request, given the table of
/// handlers: under a registered route id it answers with what the handler
/// returns for the request's URL, under any other it reports an unknown route.
pub open spec fn dispatches<H: Fn(&str) -> (String, bool)>(
    table: Map<u64, H>,
    request: Request,
    action: WorkerActionView,
) -> bool {
    if table.contains_key(request@.url_context) {
        exists|url: &str, body: String, shutdown: bool|
            url@ == request@.url && #[trigger] call_ensures(
                table[request@.url_context],
                (url,),
                (body, shutdown),
            ) && action == respond_action(request@.request_id, body@, shutdown)
    } else {
        action == WorkerActionView::UnknownRoute(request@.url_context)
    }
}

impl<H: Fn(&str) -> (String, bool)> HandlerTable<H> {
    /// Every handler in the table accepts every URL.
    pub open spec fn wf(&self) -> bool {
        forall|id: u64, url: &str|
            self@.contains_key(id) ==> #[trigger] call_requires(self@[id], (url,))
    }

    /// The table without handlers.
    pub fn new() -> (table: Self)
        ensures
            table@ == Map::<u64, H>::empty(),
            table.wf(),
    {
        HandlerTable { handlers: HashMap::new() }
    }

    /// Puts a handler under a route id, in place of any earlier one.
    pub fn insert(&mut self, id: u64, handler: H)
        requires
            old(self).wf(),
            forall|url: &str| call_requires(handler, (url,)),
        ensures
            final(self).wf(),
            final(self)@ == old(self)@.insert(id, handler),
    {
        self.handlers.insert(id, handler);
        assert forall|other: u64, url: &str| final(self)@.contains_key(other) implies #[trigger] call_requires(
            final(self)@[other],
            (url,),
        ) by {
            if other != id {
                assert(old(self)@.contains_key(other));
                assert(final(self)@[other] == old(self)@[other]);
            }
        }
    }

    /// The number of handlers.
    pub fn len(&self) -> (count: usize)
        ensures
            count == self@.len(),
    {
        self.handlers.len()
    }

    /// Whether a handler is registered under a route id.
    pub fn contains(&self, id: u64) -> (found: bool)
        ensures
            found == self@.contains_key(id),
    {
        self.handlers.contains_key(&id)
    }

    /// Looks up the handler of the request's route id and invokes it.
    pub fn dispatch(&self, request: &Request) -> (action: WorkerAction)
        requires
            self.wf(),
        ensures
            dispatches(self@, *request, action@),
    {
        let url = request.url();
        let url_context = request.url_context();
        match self.handlers.get(&url_context) {
            Some(handler) => {
                let text = url.as_str();
                assert(call_requires(self@[url_context], (text,)));
                let (result, is_kill) = (*handler)(text);
                respond(request, result, is_kill)
            },
            None => WorkerAction::UnknownRoute(url_context),
        }
    }
}

/// What the race of one loop iteration resolved to.
pub enum WorkerEvent {
    /// The shutdown signal was received.
    Shutdown,
    /// A receive completed with a request.
    Received(Request),
    /// A receive completed with an error.
    ReceiveFailed(IoError),
}

/// One step of a worker: whether it was terminal before, the event, the
/// action taken and whether it is terminal after. A terminal worker only
/// exits; an idle one exits on shutdown, reports a failed receive, and
/// dispatches a received request.
pub open spec fn worker_steps<H: Fn(&str) -> (String, bool)>(
    terminal: bool,
    table: Map<u64, H>,
    event: WorkerEvent,
    action: WorkerActionView,
    terminal_after: bool,
) -> bool {
    if terminal {
        action is Exit && terminal_after
    } else {
        match event {
            WorkerEvent::Shutdown => action is Exit && terminal_after,
            WorkerEvent::ReceiveFailed(error) => action == WorkerActionView::ReceiveFailed(error)
                && !terminal_after,
            WorkerEvent::Received(request) => dispatches(table, request, action)
                && !terminal_after,
        }
    }
}

/// The state of one worker loop: idle until it observes the shutdown signal,
/// terminal from then on.
pub struct Worker {
    terminal: bool,
}

impl Worker {
    pub closed spec fn spec_is_terminal(&self) -> bool {
        self.terminal
    }

    /// An idle worker.
    pub fn new() -> (worker: Worker)
        ensures
            !worker.spec_is_terminal(),
    {
        Worker { terminal: false }
    }

    #[verifier::when_used_as_spec(spec_is_terminal)]
    pub fn is_terminal(&self) -> (terminal: bool)
        ensures
            terminal == self.spec_is_terminal(),
    {
        self.terminal
    }

    /// Decides one iteration of the loop from the event that won the race.
    pub fn step<H: Fn(&str) -> (String, bool)>(
        &mut self,
        table: &HandlerTable<H>,
        event: WorkerEvent,
    ) -> (action: WorkerAction)
        requires
            table.wf(),
        ensures
            worker_steps(
                old(self).spec_is_terminal(),
                table@,
                event,
                action@,
                final(self).spec_is_terminal(),
            ),
    {
        if self.terminal {
            return WorkerAction::Exit;
        }
        match event {
            WorkerEvent::Shutdown => {
                self.terminal = true;
                WorkerAction::Exit
            },
            WorkerEvent::ReceiveFailed(error) => WorkerAction::ReceiveFailed(error),
            WorkerEvent::Received(request) => table.dispatch(&request),
        }
    }
}

/// A request under a route id that no handler is registered for matches no
/// handler: the worker reports the route and sends no response.
pub proof fn lemma_unknown_route_sends_nothing<H: Fn(&str) -> (String, bool)>(
    table: Map<u64, H>,
    request: Request,
    action: WorkerActionView,
    terminal_after: bool,
)
    requires
        !table.contains_key(request@.url_context),
        worker_steps(false, table, WorkerEvent::Received(request), action, terminal_after),
    ensures
        action == WorkerActionView::UnknownRoute(request@.url_context),
        !(action is Respond),
        !terminal_after,
{
}

/// Shutdown is final: the worker that observes the signal becomes terminal,
/// and a terminal worker dispatches no request, whatever event reaches it.
pub proof fn lemma_no_dispatch_after_shutdown<H: Fn(&str) -> (String, bool)>(
    table: Map<u64, H>,
    event: WorkerEvent,
    action: WorkerActionView,
    terminal_after: bool,
    later: WorkerEvent,
    later_action: WorkerActionView,
    terminal_at_end: bool,
)
    requires
        worker_steps(false, table, WorkerEvent::Shutdown, action, terminal_after)
            || worker_steps(true, table, event, action, terminal_after),
        worker_steps(terminal_after, table, later, later_action, terminal_at_end),
    ensures
        action is Exit,
        terminal_after,
        later_action is Exit,
        terminal_at_end,
{
}

/// A handler that asks for shutdown has its response sent all the same, with
/// the request to raise the signal beside it; the worker itself stays idle
/// until it observes the signal.
pub proof fn lemma_shutdown_request_is_answered<H: Fn(&str) -> (String, bool)>(
    table: Map<u64, H>,
    request: Request,
    action: WorkerActionView,
    terminal_after: bool,
)
    requires
        table.contains_key(request@.url_context),
        forall|url: &str, body: String, shutdown: bool| #[trigger]
            call_ensures(table[request@.url_context], (url,), (body, shutdown)) ==> shutdown,
        worker_steps(false, table, WorkerEvent::Received(request), action, terminal_after),
    ensures
        action matches WorkerActionView::Respond { call, raise_shutdown } && raise_shutdown
            && call.request_id == request@.request_id && call.response.status_code == STATUS_OK,
        !terminal_after,
{
}

} // verus!
