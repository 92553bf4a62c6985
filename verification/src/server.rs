//! The server reactor core: accepts unbounded concurrent connections on one
//! listening socket and shuttles bytes for each, flipping every connection's
//! one-shot interest between readable and writable according to queued work.
//!
//! The core is a pure state machine. The driver that owns the sockets and the
//! poller calls one transition per outcome it observes — a completed accept, a
//! drained chunk, the end of a read drain, a writable cycle, an error or
//! hangup — and performs the poller action each transition returns.

use vstd::prelude::*;
use crate::events::{Effect, Interest, ReadEnd};
use crate::registry::{Connection, Registry};

verus! {

/// The identifier under which the listening socket itself is registered;
/// connection identifiers start above it.
pub const LISTENER_TOKEN: u64 = 0;

/// The server reactor's state: the connection registry and the monotone
/// counter from which fresh connection identifiers are drawn.
pub struct Server {
    registry: Registry,
    token_counter: u64,
}

impl Server {
    /// Every live identifier was drawn from the counter, so identifiers are
    /// unique, never the listener's, and never reused once removed.
    pub open spec fn wf(self) -> bool {
        forall|t: u64| self.connections().contains_key(t)
            ==> LISTENER_TOKEN < t <= self.counter()
    }

    /// The live connections, by identifier.
    pub closed spec fn connections(self) -> Map<u64, Connection> {
        self.registry@
    }

    /// The highest identifier handed out so far.
    pub closed spec fn counter(self) -> u64 {
        self.token_counter
    }

    /// A fresh server with no connections; the first accepted connection gets
    /// an identifier above the listener's.
    pub fn new() -> (s: Server)
        ensures
            s.wf(),
            s.connections() == Map::<u64, Connection>::empty(),
            s.counter() == LISTENER_TOKEN,
    {
        Server { registry: Registry::new(), token_counter: LISTENER_TOKEN }
    }

    /// Whether `token` names a live connection.
    pub fn contains(&self, token: u64) -> (b: bool)
        ensures
            b == self.connections().contains_key(token),
    {
        self.registry.contains(token)
    }

    /// The number of live connections.
    pub fn connection_count(&self) -> (n: usize)
        ensures
            n == self.connections().len(),
    {
        self.registry.len()
    }

    /// The highest identifier handed out so far; the next accepted connection
    /// gets its successor, so callers can guard against the counter's end.
    pub fn counter_value(&self) -> (n: u64)
        ensures
            n == self.counter(),
    {
        self.token_counter
    }

    /// The registered interest of the connection named by `token`, if live.
    pub fn interest_of(&self, token: u64) -> (r: Option<Interest>)
        ensures
            r == if self.connections().contains_key(token) {
                Some(self.connections()[token].interest)
            } else {
                None::<Interest>
            },
    {
        self.registry.interest_of(token)
    }

    /// How many outgoing messages are queued for the connection named by
    /// `token`; zero for an absent identifier.
    pub fn pending_count(&self, token: u64) -> (n: usize)
        ensures
            self.connections().contains_key(token)
                ==> n == self.connections()[token].queue().len(),
            !self.connections().contains_key(token) ==> n == 0,
    {
        self.registry.pending_count(token)
    }

    /// The listening socket accepted one connection: allot it a fresh
    /// identifier, admit it with readable interest and an empty queue, and
    /// ask the driver to register its socket one-shot with the poller.
    ///
    /// The fresh identifier is strictly above every identifier handed out
    /// before, so no removed connection is ever impersonated by a later one.
    pub fn on_accept(&mut self) -> (r: (u64, Effect))
        requires
            old(self).wf(),
            old(self).counter() < u64::MAX,
        ensures
            final(self).wf(),
            r.0 == old(self).counter() + 1,
            !old(self).connections().contains_key(r.0),
            final(self).counter() == r.0,
            final(self).connections().dom() == old(self).connections().dom().insert(r.0),
            final(self).connections()[r.0].interest == Interest::Readable,
            final(self).connections()[r.0].queue() == Seq::<Seq<u8>>::empty(),
            forall|u: u64| u != r.0 && old(self).connections().contains_key(u)
                ==> final(self).connections()[u] == old(self).connections()[u],
            r.1 == (Effect::Register { token: r.0, interest: Interest::Readable }),
    {
        self.token_counter = self.token_counter + 1;
        let token = self.token_counter;
        proof {
            if old(self).connections().contains_key(token) {
                assert(token <= old(self).counter());
            }
        }
        self.registry.insert(token, Connection { interest: Interest::Readable, outgoing: Vec::new() });
        proof {
            assert(self.connections()[token].outgoing@
                =~= Seq::<Vec<u8>>::empty());
            assert(self.connections()[token].queue()
                =~= Seq::<Seq<u8>>::empty());
            assert forall|t: u64| self.connections().contains_key(t)
                implies LISTENER_TOKEN < t && t <= self.counter() by {
                if t != token {
                    assert(old(self).connections().contains_key(t));
                }
            }
        }
        (token, Effect::Register { token, interest: Interest::Readable })
    }

    /// One successful non-blocking read delivered `chunk`: stage exactly
    /// those bytes, as one message, at the tail of the connection's outgoing
    /// queue. No byte is dropped, duplicated or reordered. A chunk for an
    /// identifier no longer live is ignored and changes nothing.
    pub fn on_read_chunk(&mut self, token: u64, chunk: Vec<u8>)
        requires
            old(self).wf(),
        ensures
            final(self).wf(),
            final(self).counter() == old(self).counter(),
            final(self).connections().dom() == old(self).connections().dom(),
            old(self).connections().contains_key(token) ==> {
                &&& final(self).connections()[token].queue()
                    == old(self).connections()[token].queue().push(chunk@)
                &&& final(self).connections()[token].interest
                    == old(self).connections()[token].interest
            },
            forall|u: u64| u != token && old(self).connections().contains_key(u)
                ==> final(self).connections()[u] == old(self).connections()[u],
            !old(self).connections().contains_key(token)
                ==> final(self).connections() == old(self).connections(),
    {
        let ghost prior = self.registry@;
        self.registry.push_outgoing(token, chunk);
        proof {
            if prior.contains_key(token) {
                assert(self.connections()[token].queue()
                    =~= prior[token].queue().push(chunk@));
            }
        }
    }

    /// A read drain on the connection named by `token` ended.
    ///
    /// A "would block" end is the expected outcome of non-blocking I/O: the
    /// connection stays live, keeps its queue, and is re-armed — writable if
    /// output is pending, readable otherwise. A closed stream or a genuine
    /// error tears the connection down: it leaves the registry at once, and
    /// the driver is told to deregister and drop its socket. An end for an
    /// identifier no longer live is stale and changes nothing.
    pub fn on_read_end(&mut self, token: u64, end: ReadEnd) -> (e: Effect)
        requires
            old(self).wf(),
        ensures
            final(self).wf(),
            final(self).counter() == old(self).counter(),
            !old(self).connections().contains_key(token) ==> {
                &&& final(self).connections() == old(self).connections()
                &&& e == Effect::Idle
            },
            old(self).connections().contains_key(token) && end == ReadEnd::WouldBlock ==> {
                &&& final(self).connections().dom() == old(self).connections().dom()
                &&& final(self).connections().contains_key(token)
                &&& final(self).connections()[token].queue()
                    == old(self).connections()[token].queue()
                &&& final(self).connections()[token].interest == (
                    if old(self).connections()[token].queue().len() > 0 {
                        Interest::Writable
                    } else {
                        Interest::Readable
                    })
                &&& e == (Effect::Reregister {
                    token,
                    interest: final(self).connections()[token].interest,
                })
            },
            old(self).connections().contains_key(token) && end != ReadEnd::WouldBlock ==> {
                &&& final(self).connections() == old(self).connections().remove(token)
                &&& !final(self).connections().contains_key(token)
                &&& e == (Effect::Deregister { token })
            },
            forall|u: u64| u != token && old(self).connections().contains_key(u)
                ==> final(self).connections().contains_key(u)
                    && final(self).connections()[u] == old(self).connections()[u],
    {
        if !self.registry.contains(token) {
            return Effect::Idle;
        }
        match end {
            ReadEnd::WouldBlock => {
                let ghost prior = self.registry@;
                let interest = if self.registry.pending_count(token) > 0 {
                    Interest::Writable
                } else {
                    Interest::Readable
                };
                self.registry.set_interest(token, interest);
                proof {
                    assert(self.connections()[token].queue()
                        =~= prior[token].queue());
                    assert forall|t: u64| self.connections().contains_key(t)
                        implies LISTENER_TOKEN < t && t <= self.counter() by {
                        assert(prior.contains_key(t));
                        assert(old(self).connections().contains_key(t));
                    }
                }
                Effect::Reregister { token, interest }
            },
            _ => {
                self.registry.remove(token);
                proof {
                    assert forall|t: u64| self.connections().contains_key(t)
                        implies LISTENER_TOKEN < t && t <= self.counter() by {
                        assert(old(self).connections().contains_key(t));
                    }
                }
                Effect::Deregister { token }
            },
        }
    }

    /// The connection named by `token` became writable: hand the driver every
    /// queued message, in the order it was staged, leave the queue empty, and
    /// flip the interest back to readable for the next one-shot registration.
    /// A writable event for an identifier no longer live is stale: no
    /// messages, no change, no poller action.
    pub fn on_writable(&mut self, token: u64) -> (r: (Vec<Vec<u8>>, Effect))
        requires
            old(self).wf(),
        ensures
            final(self).wf(),
            final(self).counter() == old(self).counter(),
            final(self).connections().dom() == old(self).connections().dom(),
            old(self).connections().contains_key(token) ==> {
                &&& r.0 == old(self).connections()[token].outgoing
                &&& r.0@.map_values(|m: Vec<u8>| m@) == old(self).connections()[token].queue()
                &&& final(self).connections()[token].queue() == Seq::<Seq<u8>>::empty()
                &&& final(self).connections()[token].interest == Interest::Readable
                &&& r.1 == (Effect::Reregister { token, interest: Interest::Readable })
            },
            forall|u: u64| u != token && old(self).connections().contains_key(u)
                ==> final(self).connections()[u] == old(self).connections()[u],
            !old(self).connections().contains_key(token) ==> {
                &&& final(self).connections() == old(self).connections()
                &&& r.0@ == Seq::<Vec<u8>>::empty()
                &&& r.1 == Effect::Idle
            },
    {
        if !self.registry.contains(token) {
            return (Vec::new(), Effect::Idle);
        }
        let msgs = self.registry.take_outgoing(token);
        self.registry.set_interest(token, Interest::Readable);
        proof {
            assert(self.connections()[token].queue()
                =~= Seq::<Seq<u8>>::empty());
        }
        (msgs, Effect::Reregister { token, interest: Interest::Readable })
    }

    /// The poller reported an error or hangup on the connection named by
    /// `token`: tear it down — remove it from the registry and tell the
    /// driver to deregister and drop its socket. A report for an identifier
    /// no longer live is stale and changes nothing.
    pub fn on_error(&mut self, token: u64) -> (e: Effect)
        requires
            old(self).wf(),
        ensures
            final(self).wf(),
            final(self).counter() == old(self).counter(),
            old(self).connections().contains_key(token) ==> {
                &&& final(self).connections() == old(self).connections().remove(token)
                &&& !final(self).connections().contains_key(token)
                &&& e == (Effect::Deregister { token })
            },
            !old(self).connections().contains_key(token) ==> {
                &&& final(self).connections() == old(self).connections()
                &&& e == Effect::Idle
            },
            forall|u: u64| u != token && old(self).connections().contains_key(u)
                ==> final(self).connections().contains_key(u)
                    && final(self).connections()[u] == old(self).connections()[u],
    {
        let had = self.registry.remove(token);
        proof {
            assert forall|t: u64| self.connections().contains_key(t)
                implies LISTENER_TOKEN < t && t <= self.counter() by {
                assert(old(self).connections().contains_key(t));
            }
        }
        if had {
            Effect::Deregister { token }
        } else {
            Effect::Idle
        }
    }
}

/// Law: teardown happens exactly once. Removing an identifier from the
/// registry leaves no trace of it, and a second removal of the same
/// identifier changes nothing — so the torn-down connection can never be
/// dispatched again.
pub proof fn lemma_teardown_idempotent(conns: Map<u64, Connection>, token: u64)
    ensures
        !conns.remove(token).contains_key(token),
        conns.remove(token).remove(token) == conns.remove(token),
{
    assert(conns.remove(token).remove(token) =~= conns.remove(token));
}

/// Law: identifiers are never reused. In a well-formed server every live
/// identifier lies at or below the counter, and an accept hands out the
/// counter's successor — so any identifier above the counter, in particular
/// one allotted later, names no current connection.
pub proof fn lemma_identifier_fresh(s: Server, t: u64)
    requires
        s.wf(),
        t > s.counter(),
    ensures
        !s.connections().contains_key(t),
{
}

} // verus!
