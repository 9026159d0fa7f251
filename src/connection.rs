//! The single-slot cache of the outbound connection, keyed by destination
//! port.
//!
//! Opening a socket is the caller's work. The manager decides, under the
//! caller's lock, whether the held socket can serve a port or must go, and
//! records each socket opened with a serial number: the count of sockets
//! recorded before it. Serial numbers tell sockets apart in the contracts.
use vstd::prelude::*;

verus! {

/// What the manager holds after a successful acquisition for `port`, from
/// holding `held` (port and serial) with `created` sockets recorded so far:
/// the same socket when it serves `port`, else a new one.
pub open spec fn acquire_outcome(held: Option<(u16, nat)>, created: nat, port: u16) -> (Option<
    (u16, nat),
>, nat) {
    match held {
        Some((p, s)) if p == port => (held, created),
        _ => (Some((port, created)), created + 1),
    }
}

/// What the manager holds after successful acquisitions for each port of
/// `ports` in turn.
pub open spec fn acquire_run(held: Option<(u16, nat)>, created: nat, ports: Seq<u16>) -> (Option<
    (u16, nat),
>, nat)
    decreases ports.len(),
{
    if ports.len() == 0 {
        (held, created)
    } else {
        let (h, c) = acquire_outcome(held, created, ports[0]);
        acquire_run(h, c, ports.drop_first())
    }
}

/// The port that `held` serves, if any.
pub open spec fn held_port(held: Option<(u16, nat)>) -> Option<u16> {
    match held {
        Some((p, _)) => Some(p),
        None => None,
    }
}

/// How many times the destination changes along `ports`, starting from the
/// port served before the first of them.
pub open spec fn port_changes(before: Option<u16>, ports: Seq<u16>) -> nat
    decreases ports.len(),
{
    if ports.len() == 0 {
        0
    } else {
        (if before == Some(ports[0]) {
            0nat
        } else {
            1nat
        }) + port_changes(Some(ports[0]), ports.drop_first())
    }
}

/// Acquiring the same port again and again hands out one socket: after the
/// first acquisition, each further one keeps the same port and serial
/// number, and no socket is created; whatever the number of acquisitions,
/// exactly one socket is held afterwards, and it sends to that port.
pub proof fn lemma_same_port_reuses(held: Option<(u16, nat)>, created: nat, port: u16, n: nat)
    ensures
        ({
            let first = acquire_outcome(held, created, port);
            &&& held_port(first.0) == Some(port)
            &&& acquire_outcome(first.0, first.1, port) == first
            &&& acquire_run(first.0, first.1, Seq::new(n, |i: int| port)) == first
        }),
    decreases n,
{
    let first = acquire_outcome(held, created, port);
    if n > 0 {
        let ports = Seq::new(n, |i: int| port);
        assert(ports.drop_first() =~= Seq::new((n - 1) as nat, |i: int| port));
        lemma_same_port_reuses(held, created, port, (n - 1) as nat);
    }
}

/// Acquiring one port and then another hands out two different sockets:
/// the second acquisition replaces the first socket and creates exactly
/// one new socket.
pub proof fn lemma_port_change_replaces(
    held: Option<(u16, nat)>,
    created: nat,
    port_a: u16,
    port_b: u16,
)
    requires
        port_a != port_b,
        held matches Some((_, s)) ==> s < created,
    ensures
        ({
            let first = acquire_outcome(held, created, port_a);
            let second = acquire_outcome(first.0, first.1, port_b);
            &&& first.0 matches Some((_, s1))
            &&& second.0 matches Some((p2, s2))
            &&& p2 == port_b
            &&& s1 != s2
            &&& second.1 == first.1 + 1
        }),
{
}

/// The count of sockets created grows by one exactly at each change of
/// destination port along a run of acquisitions, and by nothing else.
pub proof fn lemma_created_counts_port_changes(
    held: Option<(u16, nat)>,
    created: nat,
    ports: Seq<u16>,
)
    ensures
        acquire_run(held, created, ports).1 == created + port_changes(held_port(held), ports),
    decreases ports.len(),
{
    if ports.len() > 0 {
        let (h, c) = acquire_outcome(held, created, ports[0]);
        lemma_created_counts_port_changes(h, c, ports.drop_first());
    }
}

/// The held socket, with the port it sends to and its serial number.
pub struct Connection<S> {
    pub socket: S,
    pub port: u16,
    pub serial: u64,
}

/// Holds at most one outbound socket, with the port it was opened for.
pub struct ConnectionManager<S> {
    current: Option<Connection<S>>,
    created: u64,
}

impl<S> ConnectionManager<S> {
    /// The port and serial number of the held socket, if any.
    pub closed spec fn held(&self) -> Option<(u16, nat)> {
        match self.current {
            Some(c) => Some((c.port, c.serial as nat)),
            None => None,
        }
    }

    /// The held socket, if any.
    pub closed spec fn held_socket(&self) -> Option<S> {
        match self.current {
            Some(c) => Some(c.socket),
            None => None,
        }
    }

    /// How many sockets have been recorded since the manager was made.
    pub closed spec fn created(&self) -> nat {
        self.created as nat
    }

    /// The held socket's serial number was issued by this manager.
    pub closed spec fn wf(&self) -> bool {
        match self.current {
            Some(c) => c.serial < self.created,
            None => true,
        }
    }

    /// A manager that holds nothing.
    pub fn new() -> (r: Self)
        ensures
            r.wf(),
            r.held() == None::<(u16, nat)>,
            r.created() == 0,
    {
        ConnectionManager { current: None, created: 0 }
    }

    /// The held socket, when it sends to `port`.
    pub fn lookup(&self, port: u16) -> (r: Option<&S>)
        ensures
            r is Some <==> held_port(self.held()) == Some(port),
            r matches Some(s) ==> self.held_socket() == Some(*s),
    {
        match &self.current {
            Some(c) => {
                if c.port == port {
                    Some(&c.socket)
                } else {
                    None
                }
            },
            None => None,
        }
    }

    /// The first half of an acquisition for `port`: keeps the held socket
    /// and returns `true` when it sends to `port`; otherwise lets go of
    /// whatever is held and returns `false`, and the caller opens a socket
    /// and records it. A failed open thus leaves nothing held.
    pub fn reuse_or_release(&mut self, port: u16) -> (reused: bool)
        requires
            old(self).wf(),
        ensures
            final(self).wf(),
            reused == (held_port(old(self).held()) == Some(port)),
            final(self).created() == old(self).created(),
            reused ==> final(self).held() == old(self).held(),
            reused ==> final(self).held_socket() == old(self).held_socket(),
            reused ==> (final(self).held(), final(self).created()) == acquire_outcome(
                old(self).held(),
                old(self).created(),
                port,
            ),
            !reused ==> final(self).held() == None::<(u16, nat)>,
            !reused ==> acquire_outcome(old(self).held(), old(self).created(), port)
                == acquire_outcome(None, old(self).created(), port),
    {
        let reused = match &self.current {
            Some(c) => c.port == port,
            None => false,
        };
        if !reused {
            self.current = None;
        }
        reused
    }

    /// Records `socket`, just opened for `port`, in place of whatever is
    /// held, and returns its serial number.
    pub fn record_connection(&mut self, port: u16, socket: S) -> (serial: u64)
        requires
            old(self).wf(),
            old(self).created() < u64::MAX,
        ensures
            final(self).wf(),
            serial as nat == old(self).created(),
            final(self).held() == Some((port, serial as nat)),
            final(self).held_socket() == Some(socket),
            final(self).created() == old(self).created() + 1,
            (final(self).held(), final(self).created()) == acquire_outcome(
                None,
                old(self).created(),
                port,
            ),
    {
        let serial = self.created;
        self.current = Some(Connection { socket, port, serial });
        self.created = self.created + 1;
        serial
    }

    /// Lets go of the held socket, if any. Doing it twice is the same as
    /// doing it once.
    pub fn close_connection(&mut self)
        requires
            old(self).wf(),
        ensures
            final(self).wf(),
            final(self).held() == None::<(u16, nat)>,
            final(self).created() == old(self).created(),
    {
        self.current = None;
    }

    /// The port that the held socket sends to, if any.
    pub fn current_port(&self) -> (r: Option<u16>)
        ensures
            r == held_port(self.held()),
    {
        match &self.current {
            Some(c) => Some(c.port),
            None => None,
        }
    }

    /// How many sockets have been recorded since the manager was made.
    pub fn connections_created(&self) -> (r: u64)
        ensures
            r as nat == self.created(),
    {
        self.created
    }
}

} // verus!
