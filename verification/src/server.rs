use vstd::prelude::*;
use crate::conn::Connection;
use crate::error::SockError;
use crate::event_loop::{add_conn, Interest, Registry};
use crate::socket::SocketOps;

verus! {

/// What the accept loop does with one freshly accepted connection: create
/// its receive and transmit buffers — both exist and are empty from here
/// on — and enroll it with read-only interest. The connect callback fires
/// right after this returns, so it always observes two empty buffers.
pub fn on_new_connection(reg: &mut Registry, ops: &mut SocketOps, conn: Connection) -> (i:
    Interest)
    requires
        old(ops).wf(),
    ensures
        final(ops).wf(),
        final(ops).rx_map() == old(ops).rx_map().insert(conn.socket, Seq::<u8>::empty()),
        final(ops).tx_map() == old(ops).tx_map().insert(conn.socket, Seq::<u8>::empty()),
        final(reg)@ == old(reg)@.insert(conn.socket, conn),
        final(ops).has_fd(conn.socket),
        final(ops).rx_map()[conn.socket].len() == 0,
        final(ops).tx_map()[conn.socket].len() == 0,
        i == Interest::R,
{
    ops.init(conn.socket);
    add_conn(reg, conn)
}

/// Classifies a failed accept: fatal iff the listener's own error slot was
/// set; otherwise the failure belongs to the connecting stream alone and
/// the accept loop continues.
pub fn accept_failure_fatal(listener_error: Option<SockError>) -> (b: bool)
    ensures
        b == (listener_error is Some),
{
    listener_error.is_some()
}

} // verus!
