use vstd::prelude::*;
use crate::error::SockError;
use crate::event_loop::{Registry, del_conn};
use crate::socket::SocketOps;

verus! {

/// A peer socket address held as plain values: the IP (an IPv4 address
/// occupies the low 32 bits), whether it is IPv6, and the port.
#[derive(Clone, Copy, Debug, PartialEq, Eq, Structural)]
pub struct PeerAddr {
    pub is_v6: bool,
    pub ip: u128,
    pub port: u16,
}

/// A connection handle: a descriptor paired with the peer's address.
/// Copyable; identity is the descriptor. Its lifetime begins at accept and
/// ends at shutdown, close or error.
#[derive(Clone, Copy, Debug, PartialEq, Eq, Structural)]
pub struct Connection {
    pub socket: i32,
    pub addr: PeerAddr,
}

impl Connection {
    /// Creates a new connection handle.
    pub fn new(socket: i32, addr: PeerAddr) -> (c: Connection)
        ensures
            c.socket == socket,
            c.addr == addr,
    {
        Connection { socket, addr }
    }

    /// Returns the current number of bytes in this connection's receive
    /// buffer.
    pub fn bytes_avail(&self, ops: &SocketOps) -> (r: Result<usize, SockError>)
        ensures
            ops.has_fd(self.socket) ==> (r matches Ok(n) && n == ops.rx_map()[self.socket].len()),
            !ops.has_fd(self.socket) ==> r == Err::<usize, SockError>(SockError::UnknownFd),
    {
        ops.peek(self.socket)
    }

    /// Removes up to `max` bytes from this connection's receive buffer and
    /// returns them.
    pub fn recv(&self, ops: &mut SocketOps, max: usize) -> (r: Result<Vec<u8>, SockError>)
        requires
            old(ops).wf(),
        ensures
            final(ops).wf(),
            final(ops).tx_map() == old(ops).tx_map(),
            !old(ops).has_fd(self.socket) ==> r == Err::<Vec<u8>, SockError>(SockError::UnknownFd)
                && final(ops).rx_map() == old(ops).rx_map(),
            old(ops).has_fd(self.socket) ==> (r matches Ok(v) && {
                let pre = old(ops).rx_map()[self.socket];
                let k = if max <= pre.len() {
                    max as int
                } else {
                    pre.len() as int
                };
                &&& v@ == pre.subrange(0, k)
                &&& final(ops).rx_map() == old(ops).rx_map().insert(
                    self.socket,
                    pre.subrange(k, pre.len() as int),
                )
            }),
    {
        ops.take(self.socket, max)
    }

    /// Copies `buf` onto the back of this connection's transmit buffer. The
    /// bytes leave on the next write wake; flipping write interest on is the
    /// reactor's affair.
    pub fn send(&self, ops: &mut SocketOps, buf: &[u8]) -> (r: Result<usize, SockError>)
        requires
            old(ops).wf(),
        ensures
            final(ops).wf(),
            final(ops).rx_map() == old(ops).rx_map(),
            !old(ops).has_fd(self.socket) ==> r == Err::<usize, SockError>(SockError::UnknownFd)
                && final(ops).tx_map() == old(ops).tx_map(),
            old(ops).has_fd(self.socket) ==> (r matches Ok(n) && n == buf@.len() && final(ops).tx_map() == old(ops).tx_map().insert(
                self.socket,
                old(ops).tx_map()[self.socket] + buf@,
            )),
    {
        ops.add_to_tx_buf(self.socket, buf)
    }

    /// Tears this connection down: removes it from the registry and drops
    /// its buffers. The caller unenrolls the descriptor from the
    /// multiplexer, performs the kernel half-close and closes the
    /// descriptor. Afterwards the descriptor is unknown: `bytes_avail`,
    /// `recv` and `send` on it report `UnknownFd`.
    pub fn shutdown(&self, reg: &mut Registry, ops: &mut SocketOps)
        requires
            old(ops).wf(),
        ensures
            final(ops).wf(),
            final(reg)@ == old(reg)@.remove(self.socket),
            final(ops).rx_map() == old(ops).rx_map().remove(self.socket),
            final(ops).tx_map() == old(ops).tx_map().remove(self.socket),
            !final(reg)@.contains_key(self.socket),
            !final(ops).has_fd(self.socket),
    {
        del_conn(reg, *self);
        ops.shutdown(self.socket);
    }
}

} // verus!
