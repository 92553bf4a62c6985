use reactor::events::{Effect, Interest, ReadEnd};
use reactor::server::{Server, LISTENER_TOKEN};
use reactor::client::{Client, CLIENT_TOKEN};

fn concat(chunks: &[Vec<u8>]) -> Vec<u8> {
    let mut out: Vec<u8> = Vec::new();
    for c in chunks {
        out.extend_from_slice(c);
    }
    out
}

#[test]
fn server_echo_cycle() {
    // A client connects, sends "PING"; the echo is queued, interest flips to
    // writable, the writable cycle flushes "PING" back and flips to readable.
    let mut s = Server::new();
    let (t, e) = s.on_accept();
    assert_eq!(t, 1);
    assert!(t > LISTENER_TOKEN);
    assert_eq!(e, Effect::Register { token: t, interest: Interest::Readable });
    assert!(s.contains(t));
    assert_eq!(s.interest_of(t), Some(Interest::Readable));

    s.on_read_chunk(t, b"PING".to_vec());
    assert_eq!(s.pending_count(t), 1);

    let e = s.on_read_end(t, ReadEnd::WouldBlock);
    assert_eq!(e, Effect::Reregister { token: t, interest: Interest::Writable });
    assert_eq!(s.interest_of(t), Some(Interest::Writable));

    let (msgs, e) = s.on_writable(t);
    assert_eq!(msgs, vec![b"PING".to_vec()]);
    assert_eq!(e, Effect::Reregister { token: t, interest: Interest::Readable });
    assert_eq!(s.interest_of(t), Some(Interest::Readable));
    assert_eq!(s.pending_count(t), 0);
    assert!(s.contains(t));
}

#[test]
fn client_writes_in_enqueue_order() {
    // "hello" then "world" are transmitted in that order; the concatenation
    // of the written bytes is "helloworld".
    let mut c = Client::new();
    let writes = c.drain_pending(vec![b"hello".to_vec(), b"world".to_vec()]);
    assert_eq!(writes.len(), 2);
    assert_eq!(writes[0], b"hello".to_vec());
    assert_eq!(writes[1], b"world".to_vec());
    assert_eq!(concat(&writes), b"helloworld".to_vec());
}

#[test]
fn client_registration_is_both_persistent() {
    assert_eq!(
        Client::registration(),
        Effect::Register { token: CLIENT_TOKEN, interest: Interest::Both }
    );
}

#[test]
fn client_forwards_chunks_exactly() {
    let mut c = Client::new();
    c.on_read_chunk(b"ab".to_vec());
    c.on_read_chunk(b"cd".to_vec());
    let got = c.take_received();
    assert_eq!(got, vec![b"ab".to_vec(), b"cd".to_vec()]);
    assert_eq!(c.take_received(), Vec::<Vec<u8>>::new());
}

#[test]
fn client_empty_drain_writes_nothing() {
    let mut c = Client::new();
    let writes = c.drain_pending(Vec::new());
    assert!(writes.is_empty());
}

#[test]
fn server_queues_chunks_in_arrival_order() {
    let mut s = Server::new();
    let (t, _) = s.on_accept();
    s.on_read_chunk(t, b"one".to_vec());
    s.on_read_chunk(t, b"two".to_vec());
    assert_eq!(s.pending_count(t), 2);
    let (msgs, _) = s.on_writable(t);
    assert_eq!(msgs, vec![b"one".to_vec(), b"two".to_vec()]);
}

#[test]
fn would_block_keeps_connection() {
    // A "would block" outcome is not an error: the connection stays live and
    // is re-armed readable when nothing is queued.
    let mut s = Server::new();
    let (t, _) = s.on_accept();
    let e = s.on_read_end(t, ReadEnd::WouldBlock);
    assert_eq!(e, Effect::Reregister { token: t, interest: Interest::Readable });
    assert!(s.contains(t));
    assert_eq!(s.connection_count(), 1);
}

#[test]
fn interest_flips_writable_only_with_pending_output() {
    let mut s = Server::new();
    let (t, _) = s.on_accept();
    let e = s.on_read_end(t, ReadEnd::WouldBlock);
    assert_eq!(e, Effect::Reregister { token: t, interest: Interest::Readable });
    s.on_read_chunk(t, b"x".to_vec());
    let e = s.on_read_end(t, ReadEnd::WouldBlock);
    assert_eq!(e, Effect::Reregister { token: t, interest: Interest::Writable });
}

#[test]
fn io_error_removes_connection_once() {
    // A genuine error tears the connection down exactly once; repeated
    // teardown attempts change nothing.
    let mut s = Server::new();
    let (a, _) = s.on_accept();
    let (b, _) = s.on_accept();
    let e = s.on_read_end(a, ReadEnd::Failed);
    assert_eq!(e, Effect::Deregister { token: a });
    assert!(!s.contains(a));
    assert!(s.contains(b));
    assert_eq!(s.connection_count(), 1);
    let e = s.on_error(a);
    assert_eq!(e, Effect::Idle);
    assert_eq!(s.connection_count(), 1);
}

#[test]
fn error_hup_event_tears_down() {
    let mut s = Server::new();
    let (t, _) = s.on_accept();
    let e = s.on_error(t);
    assert_eq!(e, Effect::Deregister { token: t });
    assert!(!s.contains(t));
}

#[test]
fn peer_close_is_teardown_and_later_events_are_stale() {
    // The peer closes the stream: the zero-length read tears the connection
    // down, and every later readiness event for its identifier is ignored.
    let mut s = Server::new();
    let (t, _) = s.on_accept();
    s.on_read_chunk(t, b"tail".to_vec());
    let e = s.on_read_end(t, ReadEnd::Closed);
    assert_eq!(e, Effect::Deregister { token: t });
    assert!(!s.contains(t));

    let e = s.on_read_end(t, ReadEnd::WouldBlock);
    assert_eq!(e, Effect::Idle);
    let (msgs, e) = s.on_writable(t);
    assert!(msgs.is_empty());
    assert_eq!(e, Effect::Idle);
    let e = s.on_error(t);
    assert_eq!(e, Effect::Idle);
    assert!(!s.contains(t));
}

#[test]
fn stale_events_have_no_observable_effect() {
    // Readiness for an identifier that was never (or is no longer) in the
    // registry changes nothing and crashes nothing.
    let mut s = Server::new();
    let (live, _) = s.on_accept();
    s.on_read_chunk(live, b"keep".to_vec());

    let unknown = 42u64;
    s.on_read_chunk(unknown, b"lost".to_vec());
    assert!(!s.contains(unknown));
    assert_eq!(s.pending_count(unknown), 0);
    assert_eq!(s.on_read_end(unknown, ReadEnd::WouldBlock), Effect::Idle);
    assert_eq!(s.on_read_end(unknown, ReadEnd::Failed), Effect::Idle);
    let (msgs, e) = s.on_writable(unknown);
    assert!(msgs.is_empty());
    assert_eq!(e, Effect::Idle);
    assert_eq!(s.on_error(unknown), Effect::Idle);

    assert_eq!(s.connection_count(), 1);
    assert!(s.contains(live));
    assert_eq!(s.pending_count(live), 1);
}

#[test]
fn identifiers_are_monotone_and_never_reused() {
    let mut s = Server::new();
    let (a, _) = s.on_accept();
    let (b, _) = s.on_accept();
    let (c, _) = s.on_accept();
    assert_eq!((a, b, c), (1, 2, 3));
    s.on_error(b);
    let (d, _) = s.on_accept();
    assert_eq!(d, 4);
    assert!(!s.contains(b));
}

#[test]
fn empty_chunk_is_still_one_message() {
    let mut s = Server::new();
    let (t, _) = s.on_accept();
    s.on_read_chunk(t, Vec::new());
    assert_eq!(s.pending_count(t), 1);
    let (msgs, _) = s.on_writable(t);
    assert_eq!(msgs, vec![Vec::<u8>::new()]);
}
