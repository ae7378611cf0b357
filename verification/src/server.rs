//! The server: what it holds while it runs, the registration of routes, and
//! the order in which it gives its resources back.

use crate::dispatch::HandlerTable;
use crate::listener::HttpInitializer;
use crate::listener::ServerSession;
use crate::listener::UrlGroup;
use crate::listener::UrlGroupView;
use crate::listener::ROUTE_ID_BASE;
use crate::queue::close_releases;
use crate::queue::RequestQueue;
use crate::status::IoError;
use crate::status::NO_ERROR;
use vstd::prelude::*;

verus! {

/// The model of a server: for each resource whether it is held, and what
/// stands for it.
pub struct ServerView {
    /// A worker has been started and not yet joined.
    pub worker: bool,
    /// The handle of the request queue.
    pub request_queue: Option<isize>,
    /// The shutdown signal can still be raised.
    pub shutdown_signal: bool,
    /// Whether the kernel HTTP subsystem is running.
    pub init: Option<bool>,
    /// The id of the session.
    pub session: Option<u64>,
    pub group: Option<UrlGroupView>,
}

/// The prefixes of a list of routes to register.
pub open spec fn prefixes_of<H>(url_handlers: Seq<(String, H)>) -> Seq<Seq<char>> {
    Seq::new(url_handlers.len(), |i: int| url_handlers[i].0@)
}

/// A URL group after a list of prefixes was registered with it, in order.
pub open spec fn registered(group: Option<UrlGroupView>, prefixes: Seq<Seq<char>>) -> Option<
    UrlGroupView,
> {
    match group {
        Some(g) => Some(UrlGroupView { prefixes: g.prefixes + prefixes, ..g }),
        None => None,
    }
}

/// The table that registering a list of routes builds: the handler at place
/// `i` of the list stands under the route id `first_id + i`.
pub open spec fn table_of<H>(first_id: int, url_handlers: Seq<(String, H)>) -> Map<u64, H> {
    Map::new(
        |id: u64| first_id <= id < first_id + url_handlers.len(),
        |id: u64| url_handlers[id - first_id].1,
    )
}

/// One step of giving the server's resources back.
#[derive(Clone, Copy, Debug, PartialEq, Eq, Structural)]
pub enum TeardownStep {
    /// Raise the shutdown signal.
    RaiseShutdown,
    /// Wait for the worker to leave its loop.
    JoinWorker,
    /// Close the request queue with this handle.
    CloseRequestQueue(isize),
    /// Close the URL group with this id.
    CloseUrlGroup(u64),
    /// Close the session with this id.
    CloseServerSession(u64),
    /// Terminate the kernel HTTP subsystem.
    Terminate,
}

impl TeardownStep {
    /// The place of a step in the order of teardown. The resources come in
    /// the reverse of the order in which startup creates them: the request
    /// queue first, then the URL group, the session, and the subsystem last.
    pub open spec fn rank(self) -> int {
        match self {
            TeardownStep::RaiseShutdown => 0,
            TeardownStep::JoinWorker => 1,
            TeardownStep::CloseRequestQueue(_) => 2,
            TeardownStep::CloseUrlGroup(_) => 3,
            TeardownStep::CloseServerSession(_) => 4,
            TeardownStep::Terminate => 5,
        }
    }
}

impl ServerView {
    /// The server that holds nothing any more.
    pub open spec fn down() -> ServerView {
        ServerView {
            worker: false,
            request_queue: None,
            shutdown_signal: false,
            init: None,
            session: None,
            group: None,
        }
    }

    pub open spec fn signal_steps(self) -> Seq<TeardownStep> {
        if self.shutdown_signal {
            seq![TeardownStep::RaiseShutdown]
        } else {
            Seq::empty()
        }
    }

    pub open spec fn worker_steps(self) -> Seq<TeardownStep> {
        if self.worker {
            seq![TeardownStep::JoinWorker]
        } else {
            Seq::empty()
        }
    }

    pub open spec fn queue_steps(self) -> Seq<TeardownStep> {
        match self.request_queue {
            Some(handle) => match close_releases(handle) {
                Some(released) => seq![TeardownStep::CloseRequestQueue(released)],
                None => Seq::empty(),
            },
            None => Seq::empty(),
        }
    }

    pub open spec fn group_steps(self) -> Seq<TeardownStep> {
        match self.group {
            Some(group) => seq![TeardownStep::CloseUrlGroup(group.id)],
            None => Seq::empty(),
        }
    }

    pub open spec fn session_steps(self) -> Seq<TeardownStep> {
        match self.session {
            Some(id) => seq![TeardownStep::CloseServerSession(id)],
            None => Seq::empty(),
        }
    }

    pub open spec fn init_steps(self) -> Seq<TeardownStep> {
        if self.init == Some(true) {
            seq![TeardownStep::Terminate]
        } else {
            Seq::empty()
        }
    }

    /// The steps that take the server down, in the order in which they are
    /// to be performed.
    pub open spec fn teardown_plan(self) -> Seq<TeardownStep> {
        self.signal_steps() + self.worker_steps() + self.queue_steps() + self.group_steps()
            + self.session_steps() + self.init_steps()
    }
}

/// A server instance.
pub struct Server {
    worker: bool,
    request_queue: Option<RequestQueue>,
    shutdown_signal: bool,
    init: Option<HttpInitializer>,
    session: Option<ServerSession>,
    group: Option<UrlGroup>,
}

impl View for Server {
    type V = ServerView;

    closed spec fn view(&self) -> ServerView {
        ServerView {
            worker: self.worker,
            request_queue: match self.request_queue {
                Some(queue) => Some(queue@),
                None => None,
            },
            shutdown_signal: self.shutdown_signal,
            init: match self.init {
                Some(init) => Some(init.spec_is_running()),
                None => None,
            },
            session: match self.session {
                Some(session) => Some(session.spec_id()),
                None => None,
            },
            group: match self.group {
                Some(group) => Some(group@),
                None => None,
            },
        }
    }
}

impl Server {
    /// Completes the startup. The subsystem, the session, the URL group and
    /// the request queue have been created, in this order; `bind_status` is
    /// the status of the call that bound the queue to the group.
    pub fn new(
        init: HttpInitializer,
        session: ServerSession,
        url_group: UrlGroup,
        request_queue: RequestQueue,
        bind_status: u32,
    ) -> (server: Result<Server, IoError>)
        ensures
            match server {
                Ok(s) => bind_status == NO_ERROR && s@ == (ServerView {
                    worker: false,
                    request_queue: Some(request_queue@),
                    shutdown_signal: true,
                    init: Some(init.spec_is_running()),
                    session: Some(session.spec_id()),
                    group: Some(url_group@.with_binding(request_queue@)),
                }),
                Err(error) => bind_status != NO_ERROR && error == (IoError { code: bind_status }),
            },
    {
        let mut url_group = url_group;
        match request_queue.bind_url_group(&mut url_group, bind_status) {
            Ok(()) => Ok(
                Server {
                    worker: false,
                    request_queue: Some(request_queue),
                    shutdown_signal: true,
                    init: Some(init),
                    session: Some(session),
                    group: Some(url_group),
                },
            ),
            Err(error) => Err(error),
        }
    }

    /// Whether there is a worker to wait for. The worker is given up: a
    /// second call finds none.
    pub fn wait(&mut self) -> (joins: bool)
        ensures
            joins == old(self)@.worker,
            final(self)@ == (ServerView { worker: false, ..old(self)@ }),
    {
        let joins = self.worker;
        self.worker = false;
        joins
    }

    /// Whether the shutdown signal is to be raised now.
    pub fn kill(&self) -> (raises: bool)
        ensures
            raises == self@.shutdown_signal,
    {
        self.shutdown_signal
    }

    /// The request queue, while the server holds it.
    pub fn request_queue(&self) -> (queue: Option<&RequestQueue>)
        ensures
            match queue {
                Some(q) => self@.request_queue == Some(q@),
                None => self@.request_queue is None,
            },
    {
        self.request_queue.as_ref()
    }

    /// The URL group, while the server holds it.
    pub fn group(&self) -> (group: Option<&UrlGroup>)
        ensures
            match group {
                Some(g) => self@.group == Some(g@),
                None => self@.group is None,
            },
    {
        self.group.as_ref()
    }

    /// Whether `count` more routes can get an id.
    pub fn can_register(&self, count: usize) -> (fits: bool)
        ensures
            fits == (self@.group matches Some(g) ==> g.next_route_id() + count <= u64::MAX + 1),
    {
        match &self.group {
            Some(group) => {
                let used = group.route_count();
                (used as u64) <= u64::MAX - ROUTE_ID_BASE + 1 && (count as u64) <= u64::MAX
                    - ROUTE_ID_BASE + 1 - (used as u64)
            },
            None => true,
        }
    }

    /// Registers the routes, in order, and builds the table of their
    /// handlers. Each prefix gets the next route id of the URL group; ids go
    /// on from where an earlier call stopped. A server without URL group
    /// registers nothing. In either case a worker counts as started.
    pub fn define_handlers<H: Fn(&str) -> (String, bool)>(
        &mut self,
        url_handlers: Vec<(String, H)>,
    ) -> (table: HandlerTable<H>)
        requires
            forall|i: int, url: &str|
                0 <= i < url_handlers.len() ==> #[trigger] call_requires(
                    url_handlers[i].1,
                    (url,),
                ),
            old(self)@.group matches Some(g) ==> g.next_route_id() + url_handlers.len() <= u64::MAX
                + 1,
        ensures
            table.wf(),
            final(self)@ == (ServerView {
                worker: true,
                group: registered(old(self)@.group, prefixes_of(url_handlers@)),
                ..old(self)@
            }),
            table@ == match old(self)@.group {
                Some(g) => table_of(g.next_route_id(), url_handlers@),
                None => Map::<u64, H>::empty(),
            },
    {
        let mut handlers: HandlerTable<H> = HandlerTable::new();
        let ghost routes = url_handlers@;
        let ghost before = self@;
        match self.group.take() {
            Some(mut group) => {
                let ghost first_id = group@.next_route_id();
                let ghost start = group@;
                for pair in iter: url_handlers
                    invariant
                        iter.seq() == routes,
                        handlers.wf(),
                        first_id == start.next_route_id(),
                        first_id + routes.len() <= u64::MAX + 1,
                        forall|i: int, url: &str|
                            0 <= i < routes.len() ==> #[trigger] call_requires(
                                routes[i].1,
                                (url,),
                            ),
                        group@ == (UrlGroupView {
                            prefixes: start.prefixes + prefixes_of(routes.take(iter.index())),
                            ..start
                        }),
                        handlers@ == table_of(first_id, routes.take(iter.index())),
                {
                    let ghost done = iter.index();
                    let (url, handler) = pair;
                    assert(routes[done] == (url, handler));
                    assert(group@.next_route_id() == first_id + done);
                    match group.add_url(url) {
                        Some(next_url_id) => {
                            handlers.insert(next_url_id, handler);
                        },
                        None => {},
                    }
                    proof {
                        let grown = routes.take(done + 1);
                        assert(grown.drop_last() =~= routes.take(done));
                        assert(prefixes_of(grown) =~= prefixes_of(routes.take(done)).push(url@));
                        assert(group@.prefixes =~= start.prefixes + prefixes_of(grown));
                        assert(handlers@ =~= table_of(first_id, grown));
                    }
                }
                assert(routes.take(routes.len() as int) =~= routes);
                self.group = Some(group);
            },
            None => {},
        }
        self.worker = true;
        handlers
    }

    /// Takes the server down: gives up everything it holds and returns the
    /// steps to perform, in order. The workers are stopped first; the
    /// resources follow in the reverse of the order of their creation. A
    /// server that is down already returns no step.
    pub fn teardown(&mut self) -> (steps: Vec<TeardownStep>)
        ensures
            steps@ == old(self)@.teardown_plan(),
            final(self)@ == ServerView::down(),
    {
        let ghost before = self@;
        let mut steps: Vec<TeardownStep> = Vec::new();
        if self.shutdown_signal {
            steps.push(TeardownStep::RaiseShutdown);
        }
        assert(steps@ =~= before.signal_steps());
        if self.worker {
            steps.push(TeardownStep::JoinWorker);
        }
        self.worker = false;
        assert(steps@ =~= before.signal_steps() + before.worker_steps());
        match self.request_queue.take() {
            Some(mut queue) => {
                match queue.close() {
                    Some(handle) => {
                        steps.push(TeardownStep::CloseRequestQueue(handle));
                    },
                    None => {},
                }
            },
            None => {},
        }
        assert(steps@ =~= before.signal_steps() + before.worker_steps() + before.queue_steps());
        match self.group.take() {
            Some(group) => {
                steps.push(TeardownStep::CloseUrlGroup(group.id()));
            },
            None => {},
        }
        assert(steps@ =~= before.signal_steps() + before.worker_steps() + before.queue_steps()
            + before.group_steps());
        match self.session.take() {
            Some(session) => {
                steps.push(TeardownStep::CloseServerSession(session.id()));
            },
            None => {},
        }
        assert(steps@ =~= before.signal_steps() + before.worker_steps() + before.queue_steps()
            + before.group_steps() + before.session_steps());
        match self.init.take() {
            Some(mut init) => {
                if init.terminate() {
                    steps.push(TeardownStep::Terminate);
                }
            },
            None => {},
        }
        assert(steps@ =~= before.teardown_plan());
        self.shutdown_signal = false;
        steps
    }
}

/// Whether the steps stand in the order of their ranks, none twice.
pub open spec fn in_teardown_order(steps: Seq<TeardownStep>) -> bool {
    forall|first: int, second: int|
        0 <= first < second < steps.len() ==> steps[first].rank() < steps[second].rank()
}

/// Whether every step has a rank within the bounds.
pub open spec fn ranks_within(steps: Seq<TeardownStep>, low: int, high: int) -> bool {
    forall|i: int| 0 <= i < steps.len() ==> low <= #[trigger] steps[i].rank() < high
}

/// Steps in order, followed by steps in order with higher ranks, are in order.
proof fn lemma_order_extends(
    earlier: Seq<TeardownStep>,
    later: Seq<TeardownStep>,
    low: int,
    mid: int,
    high: int,
)
    requires
        low <= mid <= high,
        in_teardown_order(earlier),
        in_teardown_order(later),
        ranks_within(earlier, low, mid),
        ranks_within(later, mid, high),
    ensures
        in_teardown_order(earlier + later),
        ranks_within(earlier + later, low, high),
{
    let all = earlier + later;
    assert forall|i: int| 0 <= i < all.len() implies low <= #[trigger] all[i].rank() < high by {
        if i < earlier.len() {
            assert(low <= earlier[i].rank() < mid);
        } else {
            assert(mid <= later[i - earlier.len()].rank() < high);
        }
    }
    assert forall|first: int, second: int| 0 <= first < second < all.len() implies all[first].rank()
        < all[second].rank() by {
        if second < earlier.len() {
            assert(earlier[first].rank() < earlier[second].rank());
        } else if first >= earlier.len() {
            assert(later[first - earlier.len()].rank() < later[second - earlier.len()].rank());
        } else {
            assert(earlier[first].rank() < mid);
            assert(mid <= later[second - earlier.len()].rank());
        }
    }
}

/// Teardown never runs out of order: in every plan the workers are stopped
/// before any resource is closed, the request queue is closed before the URL
/// group, the URL group before the session, and the session before the
/// subsystem is terminated. No step occurs twice.
pub proof fn lemma_teardown_is_ordered(server: ServerView)
    ensures
        in_teardown_order(server.teardown_plan()),
{
    let signal = server.signal_steps();
    let worker = server.worker_steps();
    let queue = server.queue_steps();
    let group = server.group_steps();
    let session = server.session_steps();
    let init = server.init_steps();
    lemma_order_extends(signal, worker, 0, 1, 2);
    lemma_order_extends(signal + worker, queue, 0, 2, 3);
    lemma_order_extends(signal + worker + queue, group, 0, 3, 4);
    lemma_order_extends(signal + worker + queue + group, session, 0, 4, 5);
    lemma_order_extends(signal + worker + queue + group + session, init, 0, 5, 6);
}

/// A server that startup has completed and that runs a worker is taken down
/// in exactly the reverse of the startup order.
pub proof fn lemma_teardown_reverses_startup(server: ServerView)
    requires
        server.shutdown_signal,
        server.worker,
        server.request_queue matches Some(handle) && crate::queue::handle_is_valid(handle),
        server.group is Some,
        server.session is Some,
        server.init == Some(true),
    ensures
        server.teardown_plan() == seq![
            TeardownStep::RaiseShutdown,
            TeardownStep::JoinWorker,
            TeardownStep::CloseRequestQueue(server.request_queue->0),
            TeardownStep::CloseUrlGroup(server.group->0.id),
            TeardownStep::CloseServerSession(server.session->0),
            TeardownStep::Terminate,
        ],
{
    assert(server.teardown_plan() =~= seq![
        TeardownStep::RaiseShutdown,
        TeardownStep::JoinWorker,
        TeardownStep::CloseRequestQueue(server.request_queue->0),
        TeardownStep::CloseUrlGroup(server.group->0.id),
        TeardownStep::CloseServerSession(server.session->0),
        TeardownStep::Terminate,
    ]);
}

/// Teardown happens once: a server that is down has nothing left to give back.
pub proof fn lemma_teardown_is_idempotent()
    ensures
        ServerView::down().teardown_plan() == Seq::<TeardownStep>::empty(),
{
    assert(ServerView::down().teardown_plan() =~= Seq::<TeardownStep>::empty());
}

/// Route ids go on across calls of the registration: after `earlier` routes
/// on a new URL group, the route at place `i` of the next list gets the id
/// `ROUTE_ID_BASE + earlier + i`, so the Nth route registered overall has the
/// id `ROUTE_ID_BASE + N - 1`, and no id is given out twice.
pub proof fn lemma_route_ids_continue<H>(
    group: UrlGroupView,
    first_list: Seq<(String, H)>,
    second_list: Seq<(String, H)>,
)
    requires
        group.prefixes.len() == 0,
    ensures
        ({
            let after_first = registered(Some(group), prefixes_of(first_list))->0;
            let first_table = table_of(group.next_route_id(), first_list);
            let second_table = table_of(after_first.next_route_id(), second_list);
            &&& group.next_route_id() == ROUTE_ID_BASE
            &&& after_first.next_route_id() == ROUTE_ID_BASE + first_list.len()
            &&& forall|id: u64| #[trigger]
                first_table.contains_key(id) <==> ROUTE_ID_BASE <= id < ROUTE_ID_BASE
                    + first_list.len()
            &&& forall|id: u64| #[trigger]
                second_table.contains_key(id) <==> ROUTE_ID_BASE + first_list.len() <= id
                    < ROUTE_ID_BASE + first_list.len() + second_list.len()
            &&& forall|id: u64|
                !(#[trigger] first_table.contains_key(id) && second_table.contains_key(id))
            &&& forall|id: u64| first_table.contains_key(id) ==> id != 0
            &&& forall|id: u64| second_table.contains_key(id) ==> id != 0
        }),
{
}

} // verus!
