//! The UDP relay that connects game instances: its errors, its forwarding
//! table, and the decisions of the relay thread. Sockets, polling and the
//! thread itself run outside the library.

use vstd::prelude::*;

verus! {

/// A failure of the network emulator.
#[derive(Debug)]
pub enum NetEmulatorError {
    IoError(std::io::Error),
    GenericError(String),
    ChannelError(std::sync::mpsc::SendError<()>),
}

impl From<std::io::Error> for NetEmulatorError {
    fn from(err: std::io::Error) -> (r: Self) {
        NetEmulatorError::IoError(err)
    }
}

impl vstd::std_specs::convert::FromSpecImpl<std::io::Error> for NetEmulatorError {
    open spec fn obeys_from_spec() -> bool {
        true
    }

    open spec fn from_spec(v: std::io::Error) -> Self {
        NetEmulatorError::IoError(v)
    }
}

impl From<std::sync::mpsc::SendError<()>> for NetEmulatorError {
    fn from(err: std::sync::mpsc::SendError<()>) -> (r: Self) {
        NetEmulatorError::ChannelError(err)
    }
}

impl vstd::std_specs::convert::FromSpecImpl<std::sync::mpsc::SendError<()>> for NetEmulatorError {
    open spec fn obeys_from_spec() -> bool {
        true
    }

    open spec fn from_spec(v: std::sync::mpsc::SendError<()>) -> Self {
        NetEmulatorError::ChannelError(v)
    }
}


/// A UDP endpoint, compared as socket addresses are: address family (IPv6
/// or IPv4), address bits, port, and for IPv6 the flow information and
/// scope id (both 0 for IPv4).
#[derive(Debug, Clone, Copy, PartialEq, Eq, Structural, Hash)]
pub struct Endpoint {
    pub v6: bool,
    pub ip: u128,
    pub port: u16,
    pub flowinfo: u32,
    pub scope_id: u32,
}

/// Index of the first route from `i` on whose source is `src` (the length
/// when there is none).
pub open spec fn route_index(routes: Seq<(Endpoint, Endpoint)>, src: Endpoint, i: int) -> int
    decreases routes.len() - i,
{
    if i < 0 || i >= routes.len() {
        routes.len() as int
    } else if routes[i].0 == src {
        i
    } else {
        route_index(routes, src, i + 1)
    }
}

/// Where packets from `src` are forwarded, if anywhere.
pub open spec fn route_for(routes: Seq<(Endpoint, Endpoint)>, src: Endpoint) -> Option<Endpoint> {
    let i = route_index(routes, src, 0);
    if i < routes.len() {
        Some(routes[i].1)
    } else {
        None
    }
}

/// The routes after mapping `src` to `dst`: an existing route from `src`
/// is redirected in place, otherwise the route is added at the end.
pub open spec fn routes_with(routes: Seq<(Endpoint, Endpoint)>, src: Endpoint, dst: Endpoint) -> Seq<(Endpoint, Endpoint)> {
    let i = route_index(routes, src, 0);
    if i < routes.len() {
        routes.update(i, (src, dst))
    } else {
        routes.push((src, dst))
    }
}

/// Where the relay forwards packets, by the endpoint they come from.
pub struct RelayTable {
    routes: Vec<(Endpoint, Endpoint)>,
}

impl RelayTable {
    /// The routes, oldest first: (source, destination).
    pub closed spec fn routes(&self) -> Seq<(Endpoint, Endpoint)> {
        self.routes@
    }

    /// A table without routes.
    pub fn new() -> (t: Self)
        ensures
            t.routes().len() == 0,
    {
        RelayTable { routes: Vec::new() }
    }

    /// Forwards packets from `src` to `dst` from now on (see `routes_with`).
    pub fn add_mapping(&mut self, src: Endpoint, dst: Endpoint)
        ensures
            final(self).routes() == routes_with(old(self).routes(), src, dst),
    {
        let mut i: usize = 0;
        while i < self.routes.len()
            invariant
                self.routes@ == old(self).routes@,
                i <= self.routes@.len(),
                route_index(self.routes@, src, 0) == route_index(self.routes@, src, i as int),
            decreases self.routes.len() - i,
        {
            if self.routes[i].0 == src {
                self.routes.set(i, (src, dst));
                return;
            }
            i = i + 1;
        }
        self.routes.push((src, dst));
    }

    /// Where packets from `src` go, if anywhere (see `route_for`).
    pub fn destination(&self, src: Endpoint) -> (r: Option<Endpoint>)
        ensures
            r == route_for(self.routes(), src),
    {
        let mut i: usize = 0;
        while i < self.routes.len()
            invariant
                i <= self.routes@.len(),
                route_index(self.routes@, src, 0) == route_index(self.routes@, src, i as int),
            decreases self.routes.len() - i,
        {
            if self.routes[i].0 == src {
                return Some(self.routes[i].1);
            }
            i = i + 1;
        }
        None
    }

    /// The number of routes.
    pub fn len(&self) -> (n: usize)
        ensures
            n == self.routes().len(),
    {
        self.routes.len()
    }
}

proof fn lemma_route_index(routes: Seq<(Endpoint, Endpoint)>, src: Endpoint, i: int)
    requires
        0 <= i <= routes.len(),
    ensures
        i <= route_index(routes, src, i) <= routes.len(),
        route_index(routes, src, i) < routes.len() ==> routes[route_index(routes, src, i)].0 == src,
        forall|j: int| i <= j < route_index(routes, src, i) ==> routes[j].0 != src,
    decreases routes.len() - i,
{
    if i < routes.len() && routes[i].0 != src {
        lemma_route_index(routes, src, i + 1);
    }
}

proof fn lemma_route_index_at(routes: Seq<(Endpoint, Endpoint)>, src: Endpoint, i: int, k: int)
    requires
        0 <= i <= k <= routes.len(),
        forall|j: int| i <= j < k ==> routes[j].0 != src,
    ensures
        route_index(routes, src, i) == route_index(routes, src, k),
    decreases k - i,
{
    if i < k {
        lemma_route_index_at(routes, src, i + 1, k);
    }
}

/// After mapping `src` to `dst`, packets from `src` go to `dst`.
pub proof fn mapping_takes_effect(routes: Seq<(Endpoint, Endpoint)>, src: Endpoint, dst: Endpoint)
    ensures
        route_for(routes_with(routes, src, dst), src) == Some(dst),
{
    let i = route_index(routes, src, 0);
    lemma_route_index(routes, src, 0);
    let r2 = routes_with(routes, src, dst);
    if i < routes.len() {
        lemma_route_index_at(r2, src, 0, i);
    } else {
        lemma_route_index_at(r2, src, 0, routes.len() as int);
    }
}

/// Mapping `src` changes where no other source's packets go.
pub proof fn mapping_keeps_other_routes(
    routes: Seq<(Endpoint, Endpoint)>,
    src: Endpoint,
    dst: Endpoint,
    other: Endpoint,
)
    requires
        other != src,
    ensures
        route_for(routes_with(routes, src, dst), other) == route_for(routes, other),
{
    let i = route_index(routes, src, 0);
    let o = route_index(routes, other, 0);
    lemma_route_index(routes, src, 0);
    lemma_route_index(routes, other, 0);
    let r2 = routes_with(routes, src, dst);
    if o < routes.len() {
        lemma_route_index_at(r2, other, 0, o);
    } else {
        lemma_route_index_at(r2, other, 0, routes.len() as int);
        if i >= routes.len() {
            assert(route_index(r2, other, routes.len() as int + 1) == r2.len());
        }
    }
}

/// What the relay thread observed in its last step.
#[derive(Debug, Clone, Copy, PartialEq, Eq, Structural)]
pub enum RelayEvent {
    /// A stop was requested, or the stop channel was closed.
    StopRequested,
    /// Waiting on the sockets returned (possibly with nothing ready).
    PollReturned,
    /// Waiting on the sockets timed out.
    PollTimedOut,
    /// Waiting on the sockets failed.
    PollFailed,
    /// A packet arrived from this endpoint.
    Received(Endpoint),
    /// The socket has no more packets for now.
    ReceiveDrained,
    /// Receiving from the socket failed.
    ReceiveFailed,
}

/// What the relay thread does next.
#[derive(Debug, Clone, Copy, PartialEq, Eq, Structural)]
pub enum RelayAction {
    /// Check for a stop request and wait on the sockets again.
    Continue,
    /// Read the packets of the sockets that are ready.
    ReadSockets,
    /// Send the packet to this endpoint, then read the next one.
    Forward(Endpoint),
    /// Drop the packet (no route), then read the next one.
    DropPacket,
    /// Stop reading this socket and watch it again.
    Rearm,
    /// End the thread normally.
    Stop,
    /// End the thread with the polling error.
    Fail,
}

/// The relay's next step after an observation, given its routes: a
/// received packet is forwarded along its route or dropped when it has
/// none; a drained or failing socket is watched again; a failed wait ends
/// the thread with an error, a stop request ends it normally.
pub open spec fn relay_next(routes: Seq<(Endpoint, Endpoint)>, e: RelayEvent) -> RelayAction {
    match e {
        RelayEvent::StopRequested => RelayAction::Stop,
        RelayEvent::PollReturned => RelayAction::ReadSockets,
        RelayEvent::PollTimedOut => RelayAction::Continue,
        RelayEvent::PollFailed => RelayAction::Fail,
        RelayEvent::Received(src) => match route_for(routes, src) {
            Some(dst) => RelayAction::Forward(dst),
            None => RelayAction::DropPacket,
        },
        RelayEvent::ReceiveDrained => RelayAction::Rearm,
        RelayEvent::ReceiveFailed => RelayAction::Rearm,
    }
}

/// The relay thread's next step (see `relay_next`).
pub fn relay_step(table: &RelayTable, e: RelayEvent) -> (a: RelayAction)
    ensures
        a == relay_next(table.routes(), e),
{
    match e {
        RelayEvent::StopRequested => RelayAction::Stop,
        RelayEvent::PollReturned => RelayAction::ReadSockets,
        RelayEvent::PollTimedOut => RelayAction::Continue,
        RelayEvent::PollFailed => RelayAction::Fail,
        RelayEvent::Received(src) => match table.destination(src) {
            Some(dst) => RelayAction::Forward(dst),
            None => RelayAction::DropPacket,
        },
        RelayEvent::ReceiveDrained => RelayAction::Rearm,
        RelayEvent::ReceiveFailed => RelayAction::Rearm,
    }
}

} // verus!
