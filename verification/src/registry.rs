//! The connection registry: a mapping from connection identifier to the
//! per-connection state the reactor tracks — registered interest and the FIFO
//! queue of outgoing byte messages.

use vstd::prelude::*;
use std::collections::HashMap;
use crate::events::Interest;

verus! {

broadcast use vstd::std_specs::hash::group_hash_axioms;

/// One live connection under reactor management.
pub struct Connection {
    /// The interest last communicated to the poller for this socket.
    pub interest: Interest,
    /// Outgoing byte messages staged for this socket, in send order.
    pub outgoing: Vec<Vec<u8>>,
}

impl Connection {
    /// The queued outgoing messages as sequences of bytes, in send order.
    pub open spec fn queue(self) -> Seq<Seq<u8>> {
        self.outgoing@.map_values(|m: Vec<u8>| m@)
    }
}

/// Mapping from connection identifier to [`Connection`]. Identifiers are
/// allocated by the owning reactor and never reused, so a readiness event for
/// an absent identifier is stale and must be ignored, never an error.
pub struct Registry {
    slots: HashMap<u64, Connection>,
}

impl View for Registry {
    type V = Map<u64, Connection>;

    closed spec fn view(&self) -> Map<u64, Connection> {
        self.slots@
    }
}

impl Registry {
    /// An empty registry.
    pub fn new() -> (r: Registry)
        ensures
            r@ == Map::<u64, Connection>::empty(),
    {
        Registry { slots: HashMap::new() }
    }

    /// Whether `token` names a live connection.
    pub fn contains(&self, token: u64) -> (b: bool)
        ensures
            b == self@.contains_key(token),
    {
        self.slots.contains_key(&token)
    }

    /// The number of live connections.
    pub fn len(&self) -> (n: usize)
        ensures
            n == self@.len(),
    {
        self.slots.len()
    }

    /// Adds a connection under a fresh identifier.
    pub fn insert(&mut self, token: u64, conn: Connection)
        requires
            !old(self)@.contains_key(token),
        ensures
            final(self)@ == old(self)@.insert(token, conn),
    {
        self.slots.insert(token, conn);
    }

    /// Removes the connection named by `token`, if any; reports whether one
    /// was there. Removing an absent identifier changes nothing.
    pub fn remove(&mut self, token: u64) -> (had: bool)
        ensures
            had == old(self)@.contains_key(token),
            final(self)@ == old(self)@.remove(token),
            !old(self)@.contains_key(token) ==> final(self)@ == old(self)@,
    {
        let prev = self.slots.remove(&token);
        proof {
            if !old(self)@.contains_key(token) {
                assert(self@ =~= old(self)@);
            }
        }
        prev.is_some()
    }

    /// Appends one message to the outgoing queue of the connection named by
    /// `token`; for an absent identifier the registry is unchanged.
    pub fn push_outgoing(&mut self, token: u64, msg: Vec<u8>)
        ensures
            final(self)@.dom() == old(self)@.dom(),
            old(self)@.contains_key(token) ==> {
                &&& final(self)@[token].interest == old(self)@[token].interest
                &&& final(self)@[token].outgoing@ == old(self)@[token].outgoing@.push(msg)
            },
            forall|u: u64| u != token && old(self)@.contains_key(u)
                ==> final(self)@[u] == old(self)@[u],
            !old(self)@.contains_key(token) ==> final(self)@ == old(self)@,
    {
        match self.slots.remove(&token) {
            Some(mut conn) => {
                conn.outgoing.push(msg);
                self.slots.insert(token, conn);
                proof {
                    assert(self@.dom() =~= old(self)@.dom());
                }
            },
            None => {
                proof {
                    assert(self@ =~= old(self)@);
                }
            },
        }
    }

    /// Sets the registered interest of the connection named by `token`; for
    /// an absent identifier the registry is unchanged.
    pub fn set_interest(&mut self, token: u64, interest: Interest)
        ensures
            final(self)@.dom() == old(self)@.dom(),
            old(self)@.contains_key(token) ==> {
                &&& final(self)@[token].interest == interest
                &&& final(self)@[token].outgoing == old(self)@[token].outgoing
            },
            forall|u: u64| u != token && old(self)@.contains_key(u)
                ==> final(self)@[u] == old(self)@[u],
            !old(self)@.contains_key(token) ==> final(self)@ == old(self)@,
    {
        match self.slots.remove(&token) {
            Some(conn) => {
                self.slots.insert(token, Connection { interest, outgoing: conn.outgoing });
                proof {
                    assert(self@.dom() =~= old(self)@.dom());
                }
            },
            None => {
                proof {
                    assert(self@ =~= old(self)@);
                }
            },
        }
    }

    /// Takes the whole outgoing queue of the connection named by `token`,
    /// leaving it empty; an absent identifier yields no messages and changes
    /// nothing.
    pub fn take_outgoing(&mut self, token: u64) -> (msgs: Vec<Vec<u8>>)
        ensures
            final(self)@.dom() == old(self)@.dom(),
            old(self)@.contains_key(token) ==> {
                &&& msgs == old(self)@[token].outgoing
                &&& final(self)@[token].interest == old(self)@[token].interest
                &&& final(self)@[token].outgoing@ == Seq::<Vec<u8>>::empty()
            },
            forall|u: u64| u != token && old(self)@.contains_key(u)
                ==> final(self)@[u] == old(self)@[u],
            !old(self)@.contains_key(token) ==> final(self)@ == old(self)@ && msgs@ == Seq::<Vec<u8>>::empty(),
    {
        match self.slots.remove(&token) {
            Some(conn) => {
                let Connection { interest, outgoing } = conn;
                self.slots.insert(token, Connection { interest, outgoing: Vec::new() });
                proof {
                    assert(self@.dom() =~= old(self)@.dom());
                }
                outgoing
            },
            None => {
                proof {
                    assert(self@ =~= old(self)@);
                }
                Vec::new()
            },
        }
    }

    /// The registered interest of the connection named by `token`, if live.
    pub fn interest_of(&self, token: u64) -> (r: Option<Interest>)
        ensures
            r == if self@.contains_key(token) {
                Some(self@[token].interest)
            } else {
                None::<Interest>
            },
    {
        match self.slots.get(&token) {
            Some(conn) => Some(conn.interest),
            None => None,
        }
    }

    /// How many outgoing messages are queued for the connection named by
    /// `token`; zero for an absent identifier.
    pub fn pending_count(&self, token: u64) -> (n: usize)
        ensures
            self@.contains_key(token) ==> n == self@[token].outgoing@.len(),
            !self@.contains_key(token) ==> n == 0,
    {
        match self.slots.get(&token) {
            Some(conn) => conn.outgoing.len(),
            None => 0,
        }
    }
}

} // verus!
