use hydrogen::conn::{Connection, PeerAddr};
use hydrogen::error::SockError;
use hydrogen::event_loop::{plan_close_event, plan_read_event, plan_write_event, Action, Interest, Registry};
use hydrogen::server::{accept_failure_fatal, on_new_connection};
use hydrogen::socket::{RecvEvent, RecvStep, SendEvent, SocketOps};

fn addr() -> PeerAddr {
    PeerAddr { is_v6: false, ip: 0x7f00_0001, port: 9000 }
}

/// A fresh connection's buffers both exist and are empty when the connect
/// callback fires.
#[test]
fn accepted_fd_has_empty_buffers() {
    let mut reg = Registry::new();
    let mut ops = SocketOps::new();
    let c = Connection::new(11, addr());
    let interest = on_new_connection(&mut reg, &mut ops, c);
    assert_eq!(interest, Interest::R);
    assert_eq!(reg.get(11), Some(c));
    assert_eq!(c.bytes_avail(&ops), Ok(0));
    assert_eq!(ops.peek(11), Ok(0));
    assert_eq!(ops.send_begin(11), Ok(Vec::new()));
}

/// Echo, single shot: peer sends "hello", the drain buffers 5 bytes, the
/// user reads them back and queues the same 5 bytes, which one kernel
/// write carries out whole.
#[test]
fn echo_single_shot() {
    let mut reg = Registry::new();
    let mut ops = SocketOps::new();
    let c = Connection::new(5, addr());
    on_new_connection(&mut reg, &mut ops, c);

    assert_eq!(ops.recv_step(5, RecvEvent::Data(b"hello".to_vec()), 0), RecvStep::Continue(5));
    assert_eq!(ops.recv_step(5, RecvEvent::WouldBlock, 5), RecvStep::Done(5));
    let plan = plan_read_event(&reg, 5, &Ok(5));
    assert_eq!(plan, vec![Action::Rearm(5, Interest::R), Action::NotifyRecv(c)]);

    // Inside on_recv:
    assert_eq!(c.bytes_avail(&ops), Ok(5));
    assert_eq!(c.recv(&mut ops, 5), Ok(b"hello".to_vec()));
    assert_eq!(c.send(&mut ops, b"hello"), Ok(5));

    // The next write wake flushes everything to the peer.
    let payload = ops.send_begin(5).unwrap();
    assert_eq!(payload, b"hello".to_vec());
    let sent = payload.len();
    assert_eq!(ops.send_finish(5, payload, SendEvent::Sent(sent)), Ok((5, false)));
    assert_eq!(plan_write_event(&reg, 5, &Ok((5, false))), vec![Action::Rearm(5, Interest::R)]);
}

/// Peer half-close: "abc" arrives, the user consumes it, then the
/// peer-closed-write wake reports end of stream.
#[test]
fn peer_half_close() {
    let mut reg = Registry::new();
    let mut ops = SocketOps::new();
    let c = Connection::new(6, addr());
    on_new_connection(&mut reg, &mut ops, c);

    assert_eq!(ops.recv_step(6, RecvEvent::Data(b"abc".to_vec()), 0), RecvStep::Continue(3));
    assert_eq!(ops.recv_step(6, RecvEvent::WouldBlock, 3), RecvStep::Done(3));
    assert_eq!(c.recv(&mut ops, 3), Ok(b"abc".to_vec()));

    // The close-class wake carries peer-closed-write but not the error bit.
    let plan = plan_close_event(&reg, 6, false, None);
    assert_eq!(plan, vec![Action::NotifyError(c, SockError::Eof)]);
}

/// Large write with partial sends: the first kernel write takes only part
/// of the payload; write interest stays armed until the queue drains; the
/// peer sees every byte in order.
#[test]
fn large_write_partial_sends() {
    let mut reg = Registry::new();
    let mut ops = SocketOps::new();
    let c = Connection::new(8, addr());
    on_new_connection(&mut reg, &mut ops, c);

    let mut big: Vec<u8> = Vec::with_capacity(1 << 20);
    for i in 0..(1usize << 20) {
        big.push((i % 251) as u8);
    }
    assert_eq!(c.send(&mut ops, &big), Ok(1 << 20));

    let mut peer: Vec<u8> = Vec::new();
    let mut first = true;
    loop {
        let payload = ops.send_begin(8).unwrap();
        if payload.is_empty() {
            break;
        }
        // The kernel accepts at most 64 KiB per write in this run.
        let k = payload.len().min(64 << 10);
        peer.extend_from_slice(&payload[..k]);
        let needs_more = k < payload.len();
        let r = ops.send_finish(8, payload, SendEvent::Sent(k)).unwrap();
        assert_eq!(r, (k, needs_more));
        if first {
            assert!(r.1, "the first write is partial and must keep write interest");
            first = false;
        }
        let expected = if needs_more { Interest::RW } else { Interest::R };
        assert_eq!(
            plan_write_event(&reg, 8, &Ok(r)),
            vec![Action::Rearm(8, expected)]
        );
        if !needs_more {
            break;
        }
    }
    assert_eq!(peer, big);
}

/// Concurrent sends: each payload appears contiguous in the transmit
/// buffer; the order between the two groups is whichever the lock granted.
#[test]
fn concurrent_sends_stay_contiguous() {
    let mut reg = Registry::new();
    let mut ops = SocketOps::new();
    let c = Connection::new(2, addr());
    on_new_connection(&mut reg, &mut ops, c);

    let a = vec![b'A'; 1000];
    let b = vec![b'B'; 1000];
    assert_eq!(c.send(&mut ops, &a), Ok(1000));
    assert_eq!(c.send(&mut ops, &b), Ok(1000));

    let queued = ops.send_begin(2).unwrap();
    assert_eq!(queued.len(), 2000);
    assert!(queued[..1000].iter().all(|&x| x == b'A'));
    assert!(queued[1000..].iter().all(|&x| x == b'B'));
}

/// Peer reset: the wake carries the error bit; the per-socket error slot
/// names the kernel error, or `Unknown` when it cannot; no data callback
/// fires for unread bytes.
#[test]
fn peer_reset() {
    let mut reg = Registry::new();
    let mut ops = SocketOps::new();
    let c = Connection::new(3, addr());
    on_new_connection(&mut reg, &mut ops, c);
    ops.recv_step(3, RecvEvent::Data(b"unread".to_vec()), 0);

    let plan = plan_close_event(&reg, 3, true, Some(SockError::Os(104)));
    assert_eq!(plan, vec![Action::NotifyError(c, SockError::Os(104))]);
    let plan = plan_close_event(&reg, 3, true, None);
    assert_eq!(plan, vec![Action::NotifyError(c, SockError::Unknown)]);
}

/// Server-initiated shutdown from inside on_recv: the connection leaves
/// the registry and the buffer tables; later wakes for the descriptor only
/// warn; its operations report an unknown descriptor.
#[test]
fn server_initiated_shutdown() {
    let mut reg = Registry::new();
    let mut ops = SocketOps::new();
    let c = Connection::new(4, addr());
    on_new_connection(&mut reg, &mut ops, c);
    ops.recv_step(4, RecvEvent::Data(b"quit".to_vec()), 0);

    // Inside on_recv the user tears the connection down.
    c.shutdown(&mut reg, &mut ops);

    assert_eq!(reg.get(4), None);
    assert_eq!(c.bytes_avail(&ops), Err(SockError::UnknownFd));
    assert_eq!(c.recv(&mut ops, 1), Err(SockError::UnknownFd));
    assert_eq!(c.send(&mut ops, b"x"), Err(SockError::UnknownFd));
    assert_eq!(plan_read_event(&reg, 4, &Ok(0)), vec![Action::WarnNoConn(4)]);
    assert_eq!(plan_close_event(&reg, 4, false, None), vec![Action::WarnNoConn(4)]);
}

/// The bytes a peer streams in are delivered by `recv` in order and in
/// full before end of stream, whatever the interleaving of drains and
/// reads.
#[test]
fn byte_stream_is_conserved() {
    let mut reg = Registry::new();
    let mut ops = SocketOps::new();
    let c = Connection::new(12, addr());
    on_new_connection(&mut reg, &mut ops, c);

    let stream: Vec<u8> = (0..=255u8).cycle().take(1000).collect();
    let mut delivered: Vec<u8> = Vec::new();

    // Interleave kernel deliveries with user reads of odd sizes.
    let mut offset = 0usize;
    let mut total = 0usize;
    while offset < stream.len() {
        let end = (offset + 137).min(stream.len());
        let step = ops.recv_step(12, RecvEvent::Data(stream[offset..end].to_vec()), total);
        total = match step {
            RecvStep::Continue(t) => t,
            other => panic!("unexpected step {:?}", other),
        };
        offset = end;
        delivered.extend_from_slice(&c.recv(&mut ops, 100).unwrap());
    }
    assert_eq!(ops.recv_step(12, RecvEvent::WouldBlock, total), RecvStep::Done(1000));

    // End of stream: drain what is left, then the close path reports EOF.
    loop {
        let chunk = c.recv(&mut ops, 64).unwrap();
        if chunk.is_empty() {
            break;
        }
        delivered.extend_from_slice(&chunk);
    }
    assert_eq!(delivered, stream);
    assert_eq!(
        plan_close_event(&reg, 12, false, None),
        vec![Action::NotifyError(c, SockError::Eof)]
    );
}

/// A failed accept is fatal exactly when the listener's own error slot was
/// set.
#[test]
fn accept_failure_classification() {
    assert!(accept_failure_fatal(Some(SockError::Os(24))));
    assert!(!accept_failure_fatal(None));
}
