use vstd::prelude::*;

verus! {

/// The errors that the socket layer and the reactor surface to callers and
/// to the error callback.
#[derive(Clone, Copy, Debug, PartialEq, Eq, Structural)]
pub enum SockError {
    /// The descriptor has no receive/transmit buffers: it was never
    /// initialized, or it was already shut down.
    UnknownFd,
    /// Peer-initiated end of stream: the kernel reported a zero-length read,
    /// or a close-class readiness event arrived without the error bit.
    Eof,
    /// The kernel accepted none of a non-empty payload on a write that did
    /// not signal would-block.
    WriteZero,
    /// A close-class event with the error bit arrived, but the per-socket
    /// error slot could not be read or was clear.
    Unknown,
    /// A kernel errno value.
    Os(i32),
}

} // verus!
