//! The client reactor core: one outbound connection, registered once for both
//! readable and writable interest, level-triggered. Inbound chunks are staged
//! for the caller in arrival order; on each writable cycle every message the
//! caller has enqueued so far is transmitted in enqueue order.
//!
//! The core is pure: the driver owns the socket and the caller's channel,
//! performs the reads and writes, and feeds each outcome into these
//! transitions.

use vstd::prelude::*;
use vstd::seq_lib::lemma_flatten_concat;
use crate::events::{Effect, Interest};

verus! {

/// The identifier under which the client's single socket is registered.
pub const CLIENT_TOKEN: u64 = 1;

/// The byte stream that a sequence of messages forms on the wire: the
/// concatenation of their bytes, in order.
pub open spec fn stream(msgs: Seq<Seq<u8>>) -> Seq<u8> {
    msgs.flatten()
}

/// The client reactor's state: the chunks read from the socket and staged for
/// the caller, and — as a ghost record — every message transmitted so far.
pub struct Client {
    received: Vec<Vec<u8>>,
    sent: Ghost<Seq<Seq<u8>>>,
}

impl Client {
    /// The chunks read from the socket and not yet handed to the caller, as
    /// sequences of bytes, in arrival order.
    pub closed spec fn received_chunks(self) -> Seq<Seq<u8>> {
        self.received@.map_values(|m: Vec<u8>| m@)
    }

    /// Every message transmitted to the peer so far, in transmission order.
    pub closed spec fn sent_messages(self) -> Seq<Seq<u8>> {
        self.sent@
    }

    /// A fresh client: nothing received, nothing sent.
    pub fn new() -> (c: Client)
        ensures
            c.received_chunks() == Seq::<Seq<u8>>::empty(),
            c.sent_messages() == Seq::<Seq<u8>>::empty(),
    {
        let c = Client { received: Vec::new(), sent: Ghost(Seq::empty()) };
        proof {
            assert(c.received_chunks() =~= Seq::<Seq<u8>>::empty());
        }
        c
    }

    /// The single registration the client ever needs: both interests, held
    /// persistently (level-triggered), so no re-arming follows any cycle.
    pub fn registration() -> (e: Effect)
        ensures
            e == (Effect::Register { token: CLIENT_TOKEN, interest: Interest::Both }),
    {
        Effect::Register { token: CLIENT_TOKEN, interest: Interest::Both }
    }

    /// One successful non-blocking read delivered `chunk`: stage exactly
    /// those bytes for the caller, after everything read before. No byte is
    /// dropped, duplicated or reordered.
    pub fn on_read_chunk(&mut self, chunk: Vec<u8>)
        ensures
            final(self).received_chunks() == old(self).received_chunks().push(chunk@),
            final(self).sent_messages() == old(self).sent_messages(),
    {
        self.received.push(chunk);
        proof {
            assert(self.received_chunks()
                =~= old(self).received_chunks().push(chunk@));
        }
    }

    /// Hands the caller every staged chunk, in arrival order, leaving the
    /// stage empty.
    pub fn take_received(&mut self) -> (chunks: Vec<Vec<u8>>)
        ensures
            chunks@.map_values(|m: Vec<u8>| m@) == old(self).received_chunks(),
            final(self).received_chunks() == Seq::<Seq<u8>>::empty(),
            final(self).sent_messages() == old(self).sent_messages(),
    {
        let mut chunks: Vec<Vec<u8>> = Vec::new();
        std::mem::swap(&mut chunks, &mut self.received);
        proof {
            assert(self.received_chunks() =~= Seq::<Seq<u8>>::empty());
        }
        chunks
    }

    /// One writable cycle: every message the caller has enqueued so far is
    /// transmitted, in enqueue order and unchanged. The returned messages are
    /// exactly `pending`, and the wire stream grows by exactly the
    /// concatenation of their bytes.
    pub fn drain_pending(&mut self, pending: Vec<Vec<u8>>) -> (writes: Vec<Vec<u8>>)
        ensures
            writes == pending,
            final(self).sent_messages() == old(self).sent_messages()
                + pending@.map_values(|m: Vec<u8>| m@),
            final(self).received_chunks() == old(self).received_chunks(),
            stream(final(self).sent_messages()) == stream(old(self).sent_messages())
                + stream(pending@.map_values(|m: Vec<u8>| m@)),
    {
        let ghost batch = pending@.map_values(|m: Vec<u8>| m@);
        proof {
            lemma_flatten_concat(self.sent@, batch);
        }
        self.sent = Ghost(self.sent@ + batch);
        pending
    }
}

/// Law: transmitted messages form one byte stream. Sending the messages of
/// `before` and then those of `batch`, each in order, puts on the wire the
/// concatenation of all their bytes in that same order — however the stream
/// is later chunked by reads on the peer's side.
pub proof fn lemma_stream_preserves_order(before: Seq<Seq<u8>>, batch: Seq<Seq<u8>>)
    ensures
        stream(before + batch) == stream(before) + stream(batch),
{
    lemma_flatten_concat(before, batch);
}

} // verus!
