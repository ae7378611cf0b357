//! The kernel listener handle, the session and the URL group: what each
//! holds, and the table of routes that a URL group owns.

use crate::status::IoError;
use crate::status::NO_ERROR;
use vstd::prelude::*;

verus! {

/// The major version of the kernel HTTP interface that the server asks for.
pub const HTTP_API_VERSION_MAJOR: u16 = 2;

/// The minor version of the kernel HTTP interface that the server asks for.
pub const HTTP_API_VERSION_MINOR: u16 = 0;

/// The flags of initialization and termination: the server part and the
/// configuration part of the kernel HTTP subsystem.
pub const HTTP_INITIALIZE_FLAGS: u32 = 3;

/// The id of the first route. Route id 0 is never used.
pub const ROUTE_ID_BASE: u64 = 1000;

/// The flag of a binding that is present.
pub const BINDING_PRESENT: u32 = 1;

/// The result that a status code of the kernel stands for: success for
/// `NO_ERROR`, otherwise an error that carries the code.
pub open spec fn status_result(status: u32) -> Result<(), IoError> {
    if status == NO_ERROR {
        Ok(())
    } else {
        Err(IoError { code: status })
    }
}

/// The result of a kernel call, from the status code that it returned.
pub fn check_status(status: u32) -> (result: Result<(), IoError>)
    ensures
        result == status_result(status),
{
    if status == NO_ERROR {
        Ok(())
    } else {
        Err(IoError { code: status })
    }
}

/// The process-wide initialization of the kernel HTTP subsystem.
pub struct HttpInitializer {
    running: bool,
}

impl HttpInitializer {
    /// Whether the subsystem is initialized and not yet terminated.
    pub closed spec fn spec_is_running(&self) -> bool {
        self.running
    }

    /// Takes the status that the initialization call returned.
    pub fn default(status: u32) -> (init: Result<HttpInitializer, IoError>)
        ensures
            match init {
                Ok(handle) => status == NO_ERROR && handle.spec_is_running(),
                Err(error) => status != NO_ERROR && error == (IoError { code: status }),
            },
    {
        match check_status(status) {
            Ok(()) => Ok(HttpInitializer { running: true }),
            Err(error) => Err(error),
        }
    }

    #[verifier::when_used_as_spec(spec_is_running)]
    pub fn is_running(&self) -> (running: bool)
        ensures
            running == self.spec_is_running(),
    {
        self.running
    }

    /// Ends the handle's life. The result says whether the termination call
    /// is due: it is exactly once, the first time.
    pub fn terminate(&mut self) -> (due: bool)
        ensures
            due == old(self).spec_is_running(),
            !final(self).spec_is_running(),
    {
        let due = self.running;
        self.running = false;
        due
    }
}

/// A listener session, identified by the id that the kernel gave it.
pub struct ServerSession {
    id: u64,
}

impl ServerSession {
    pub closed spec fn spec_id(&self) -> u64 {
        self.id
    }

    /// Takes the status of the call that created the session, and the id
    /// that it wrote.
    pub fn new(status: u32, id: u64) -> (session: Result<ServerSession, IoError>)
        ensures
            match session {
                Ok(s) => status == NO_ERROR && s.spec_id() == id,
                Err(error) => status != NO_ERROR && error == (IoError { code: status }),
            },
    {
        match check_status(status) {
            Ok(()) => Ok(ServerSession { id }),
            Err(error) => Err(error),
        }
    }

    #[verifier::when_used_as_spec(spec_id)]
    pub fn id(&self) -> (id: u64)
        ensures
            id == self.spec_id(),
    {
        self.id
    }
}

/// What a request queue hands to a URL group to bind itself to it.
#[derive(Clone, Copy, Debug, PartialEq, Eq, Structural)]
pub struct BindingInfo {
    pub flags: u32,
    pub request_queue_handle: isize,
}

/// The model of a URL group.
pub struct UrlGroupView {
    pub session_id: u64,
    pub id: u64,
    /// The registered prefixes, in the order of their registration.
    pub prefixes: Seq<Seq<char>>,
    /// The handle of the request queue that the group is bound to.
    pub binding: Option<isize>,
}

/// The id of the route that was registered at the given place, counted from 0.
pub open spec fn route_id_at(index: int) -> int {
    ROUTE_ID_BASE + index
}

impl UrlGroupView {
    /// Whether a route id has been given out.
    pub open spec fn has_route(self, id: u64) -> bool {
        ROUTE_ID_BASE <= id < ROUTE_ID_BASE + self.prefixes.len()
    }

    /// The id that the next registration gets.
    pub open spec fn next_route_id(self) -> int {
        route_id_at(self.prefixes.len() as int)
    }

    pub open spec fn with_url(self, url: Seq<char>) -> UrlGroupView {
        UrlGroupView { prefixes: self.prefixes.push(url), ..self }
    }

    pub open spec fn with_binding(self, handle: isize) -> UrlGroupView {
        UrlGroupView { binding: Some(handle), ..self }
    }
}

/// The views of a list of prefixes.
pub open spec fn prefix_views(urls: Seq<String>) -> Seq<Seq<char>> {
    Seq::new(urls.len(), |i: int| urls[i]@)
}

/// A named set of URL prefixes bound to a session. It owns the table from
/// prefix to route id: the prefix registered at place `i` has the id
/// `ROUTE_ID_BASE + i`.
pub struct UrlGroup {
    session_id: u64,
    id: u64,
    urls: Vec<String>,
    binding: Option<isize>,
}

impl View for UrlGroup {
    type V = UrlGroupView;

    closed spec fn view(&self) -> UrlGroupView {
        UrlGroupView {
            session_id: self.session_id,
            id: self.id,
            prefixes: prefix_views(self.urls@),
            binding: self.binding,
        }
    }
}

impl UrlGroup {
    /// Takes the session that the group was created in, the status of the
    /// call that created it, and the id that the call wrote.
    pub fn new(session: &ServerSession, status: u32, id: u64) -> (group: Result<UrlGroup, IoError>)
        ensures
            match group {
                Ok(g) => status == NO_ERROR && g@ == (UrlGroupView {
                    session_id: session.spec_id(),
                    id,
                    prefixes: Seq::empty(),
                    binding: None,
                }),
                Err(error) => status != NO_ERROR && error == (IoError { code: status }),
            },
    {
        match check_status(status) {
            Ok(()) => {
                let group = UrlGroup {
                    session_id: session.id(),
                    id,
                    urls: Vec::new(),
                    binding: None,
                };
                assert(group@.prefixes =~= Seq::<Seq<char>>::empty());
                Ok(group)
            },
            Err(error) => Err(error),
        }
    }

    pub fn id(&self) -> (id: u64)
        ensures
            id == self@.id,
    {
        self.id
    }

    pub fn session_id(&self) -> (id: u64)
        ensures
            id == self@.session_id,
    {
        self.session_id
    }

    /// The number of registered prefixes.
    pub fn route_count(&self) -> (count: usize)
        ensures
            count == self@.prefixes.len(),
    {
        self.urls.len()
    }

    /// Records the outcome of the call that set the group's binding.
    pub fn set_binding_info(&mut self, info: &BindingInfo, status: u32) -> (result: Result<
        (),
        IoError,
    >)
        ensures
            result == status_result(status),
            result is Ok ==> final(self)@ == old(self)@.with_binding(info.request_queue_handle),
            result is Err ==> final(self)@ == old(self)@,
    {
        match check_status(status) {
            Ok(()) => {
                self.binding = Some(info.request_queue_handle);
                Ok(())
            },
            Err(error) => Err(error),
        }
    }

    /// The handle of the request queue that the group is bound to.
    pub fn binding(&self) -> (handle: Option<isize>)
        ensures
            handle == self@.binding,
    {
        self.binding
    }

    /// Registers a prefix and returns its route id, the next in sequence.
    /// `None` only when the 64-bit ids are used up; nothing changes then.
    pub fn add_url(&mut self, url: String) -> (id: Option<u64>)
        ensures
            match id {
                Some(route_id) => route_id == old(self)@.next_route_id() && final(self)@ == old(
                    self,
                )@.with_url(url@),
                None => old(self)@.next_route_id() > u64::MAX && final(self)@ == old(self)@,
            },
    {
        let count = self.urls.len();
        if count as u64 > u64::MAX - ROUTE_ID_BASE {
            return None;
        }
        let route_id = ROUTE_ID_BASE + count as u64;
        self.urls.push(url);
        assert(final(self)@.prefixes =~= old(self)@.prefixes.push(url@));
        Some(route_id)
    }

    /// The prefix that a route id was given to.
    pub fn prefix_of(&self, route_id: u64) -> (prefix: Option<&str>)
        ensures
            match prefix {
                Some(text) => self@.has_route(route_id) && text@ == self@.prefixes[route_id
                    - ROUTE_ID_BASE],
                None => !self@.has_route(route_id),
            },
    {
        if route_id < ROUTE_ID_BASE {
            return None;
        }
        let offset = route_id - ROUTE_ID_BASE;
        if offset >= self.urls.len() as u64 {
            return None;
        }
        Some(self.urls[offset as usize].as_str())
    }
}

/// Route ids are unique, never zero and strictly increasing in the order of
/// registration: of two routes the one registered later has the greater id,
/// and the Nth registered route has the id `ROUTE_ID_BASE + N - 1`.
pub proof fn lemma_route_ids_unique_and_increasing(nth: int, later: int)
    requires
        1 <= nth < later,
    ensures
        route_id_at(nth - 1) == ROUTE_ID_BASE + nth - 1,
        0 < route_id_at(nth - 1) < route_id_at(later - 1),
{
}

/// Every registration on a URL group gets the id that its place in the
/// table stands for, whatever was registered before.
pub proof fn lemma_registration_gets_next_id(group: UrlGroupView, url: Seq<char>)
    ensures
        group.next_route_id() == route_id_at(group.prefixes.len() as int),
        group.with_url(url).next_route_id() == group.next_route_id() + 1,
        group.next_route_id() <= u64::MAX ==> !group.has_route(group.next_route_id() as u64)
            && group.with_url(url).has_route(group.next_route_id() as u64),
        forall|id: u64| group.has_route(id) ==> group.with_url(url).has_route(id),
{
}

} // verus!
