use vstd::prelude::*;
use std::collections::HashMap;
use crate::conn::Connection;
use crate::error::SockError;

verus! {

broadcast use vstd::std_specs::hash::group_hash_axioms;

/// The readiness bits of one multiplexer wake, with the two registration
/// mode bits. The shell converts kernel event bits to and from this record
/// one for one.
#[derive(Clone, Copy, Debug, PartialEq, Eq, Structural)]
pub struct EventFlags {
    pub readable: bool,
    pub writable: bool,
    pub error: bool,
    pub hangup: bool,
    pub peer_closed_write: bool,
    pub edge_triggered: bool,
    pub oneshot: bool,
}

/// The two interest sets a descriptor is ever enrolled with: read-only, or
/// read and write while the transmit buffer holds bytes.
#[derive(Clone, Copy, Debug, PartialEq, Eq, Structural)]
pub enum Interest {
    R,
    RW,
}

/// Builds the registration flags for an interest set. Both sets listen for
/// readability and the peer's half-close, in edge-triggered one-shot mode;
/// `RW` adds writability.
pub fn interest_flags(i: Interest) -> (e: EventFlags)
    ensures
        e.readable && e.peer_closed_write && e.edge_triggered && e.oneshot,
        !e.error && !e.hangup,
        e.writable == (i == Interest::RW),
{
    EventFlags {
        readable: true,
        writable: i == Interest::RW,
        error: false,
        hangup: false,
        peer_closed_write: true,
        edge_triggered: true,
        oneshot: true,
    }
}

/// A wake is close-class when any of error, hangup or peer-closed-write is
/// set; such a wake suppresses the read and write paths.
pub open spec fn is_close_event(e: EventFlags) -> bool {
    e.error || e.hangup || e.peer_closed_write
}

/// Whether the wake must take the close path.
pub fn close_event(e: &EventFlags) -> (b: bool)
    ensures
        b == is_close_event(*e),
{
    e.error || e.hangup || e.peer_closed_write
}

/// Whether the wake carries readability.
pub fn read_event(e: &EventFlags) -> (b: bool)
    ensures
        b == e.readable,
{
    e.readable
}

/// Whether the wake carries writability.
pub fn write_event(e: &EventFlags) -> (b: bool)
    ensures
        b == e.writable,
{
    e.writable
}

/// Whether the wake carries the error bit, which decides if the per-socket
/// error slot is consulted on the close path.
pub fn socket_error(e: &EventFlags) -> (b: bool)
    ensures
        b == e.error,
{
    e.error
}

/// How one wake is dispatched: the close path, or the read path followed by
/// the write path as the bits demand.
#[derive(Clone, Copy, Debug, PartialEq, Eq, Structural)]
pub enum EventClass {
    Close,
    ReadWrite { read: bool, write: bool },
}

/// Dispatches one wake: close-class events take the close path and nothing
/// else; otherwise the read path runs if readable, then the write path if
/// writable.
pub fn classify_event(e: &EventFlags) -> (c: EventClass)
    ensures
        is_close_event(*e) ==> c == EventClass::Close,
        !is_close_event(*e) ==> c == (EventClass::ReadWrite { read: e.readable, write: e.writable }),
{
    if close_event(e) {
        EventClass::Close
    } else {
        EventClass::ReadWrite { read: e.readable, write: e.writable }
    }
}

/// The connection registry: descriptor to connection. An entry exists iff
/// the descriptor is currently enrolled with the multiplexer.
pub struct Registry {
    map: HashMap<i32, Connection>,
}

impl View for Registry {
    type V = Map<i32, Connection>;

    closed spec fn view(&self) -> Map<i32, Connection> {
        self.map@
    }
}

impl Registry {
    /// Creates an empty registry.
    pub fn new() -> (r: Registry)
        ensures
            r@ == Map::<i32, Connection>::empty(),
    {
        Registry { map: HashMap::new() }
    }

    /// Inserts `c` under its descriptor.
    pub fn add(&mut self, c: Connection)
        ensures
            final(self)@ == old(self)@.insert(c.socket, c),
    {
        self.map.insert(c.socket, c);
    }

    /// Removes the entry of `fd`, if any.
    pub fn del(&mut self, fd: i32)
        ensures
            final(self)@ == old(self)@.remove(fd),
    {
        self.map.remove(&fd);
    }

    /// Looks a connection up by descriptor.
    pub fn get(&self, fd: i32) -> (r: Option<Connection>)
        ensures
            self@.contains_key(fd) ==> r == Some(self@[fd]),
            !self@.contains_key(fd) ==> r is None,
    {
        match self.map.get(&fd) {
            Some(c) => Some(*c),
            None => None,
        }
    }
}

/// Registers a connection: inserts it into the registry and reports the
/// interest set — read-only — its descriptor must be enrolled with.
pub fn add_conn(reg: &mut Registry, conn: Connection) -> (i: Interest)
    ensures
        final(reg)@ == old(reg)@.insert(conn.socket, conn),
        i == Interest::R,
{
    reg.add(conn);
    Interest::R
}

/// Deregisters a connection; the caller unenrolls the descriptor from the
/// multiplexer.
pub fn del_conn(reg: &mut Registry, conn: Connection)
    ensures
        final(reg)@ == old(reg)@.remove(conn.socket),
{
    reg.del(conn.socket);
}

/// One step a handled wake obliges the shell to perform. The order of
/// actions within a plan is binding.
#[derive(Clone, Copy, Debug, PartialEq, Eq, Structural)]
pub enum Action {
    /// Re-enroll the descriptor with the given interest set (the one-shot
    /// wake disabled it), via the multiplexer's modify operation.
    Rearm(i32, Interest),
    /// Invoke the registered data callback.
    NotifyRecv(Connection),
    /// Invoke the registered error callback.
    NotifyError(Connection, SockError),
    /// The descriptor was not in the registry: log a warning and move on (a
    /// benign race during teardown).
    WarnNoConn(i32),
}

/// The interest flip a user-initiated send may request once the transmit
/// buffer turns non-empty: re-enroll the descriptor with read+write.
pub fn needs_write(fd: i32) -> (a: Action)
    ensures
        a == Action::Rearm(fd, Interest::RW),
{
    Action::Rearm(fd, Interest::RW)
}

/// The error the close path reports: with the error bit set, the value of
/// the per-socket error slot, or `Unknown` when the slot was clear or could
/// not be read; without the error bit, the peer's end of stream.
pub open spec fn spec_close_error(error_bit: bool, last_error: Option<SockError>) -> SockError {
    if error_bit {
        match last_error {
            Some(e) => e,
            None => SockError::Unknown,
        }
    } else {
        SockError::Eof
    }
}

/// Synthesizes the error the close path reports to the error callback.
pub fn close_error(error_bit: bool, last_error: Option<SockError>) -> (e: SockError)
    ensures
        e == spec_close_error(error_bit, last_error),
{
    if error_bit {
        match last_error {
            Some(err) => err,
            None => SockError::Unknown,
        }
    } else {
        SockError::Eof
    }
}

/// Plans the close path for `fd`: the synthesized error goes to the error
/// callback, which owns the teardown; the reactor neither re-arms nor
/// closes here. A missing registry entry only warns.
pub fn plan_close_event(reg: &Registry, fd: i32, error_bit: bool, last_error: Option<
    SockError,
>) -> (p: Vec<Action>)
    ensures
        reg@.contains_key(fd) ==> p@ == seq![
            Action::NotifyError(reg@[fd], spec_close_error(error_bit, last_error)),
        ],
        !reg@.contains_key(fd) ==> p@ == seq![Action::WarnNoConn(fd)],
{
    let err = close_error(error_bit, last_error);
    let mut p: Vec<Action> = Vec::new();
    match reg.get(fd) {
        Some(conn) => p.push(Action::NotifyError(conn, err)),
        None => p.push(Action::WarnNoConn(fd)),
    }
    proof {
        if reg@.contains_key(fd) {
            assert(p@ =~= seq![
                Action::NotifyError(reg@[fd], spec_close_error(error_bit, last_error)),
            ]);
        } else {
            assert(p@ =~= seq![Action::WarnNoConn(fd)]);
        }
    }
    p
}

/// Plans the read path for `fd`, given the outcome of the receive drain.
/// On success the descriptor re-arms with read interest *before* the data
/// callback, so that sends issued from inside the callback never race a
/// stale interest set. On a drain error the connection is not re-armed and
/// the error callback fires.
pub fn plan_read_event(reg: &Registry, fd: i32, drain: &Result<usize, SockError>) -> (p: Vec<
    Action,
>)
    ensures
        !reg@.contains_key(fd) ==> p@ == seq![Action::WarnNoConn(fd)],
        reg@.contains_key(fd) ==> (match drain {
            Ok(_) => p@ == seq![Action::Rearm(fd, Interest::R), Action::NotifyRecv(reg@[fd])],
            Err(e) => p@ == seq![Action::NotifyError(reg@[fd], *e)],
        }),
{
    let mut p: Vec<Action> = Vec::new();
    match reg.get(fd) {
        Some(conn) => match drain {
            Ok(_) => {
                p.push(Action::Rearm(fd, Interest::R));
                p.push(Action::NotifyRecv(conn));
            },
            Err(e) => p.push(Action::NotifyError(conn, *e)),
        },
        None => p.push(Action::WarnNoConn(fd)),
    }
    proof {
        if reg@.contains_key(fd) {
            match drain {
                Ok(_) => {
                    assert(p@ =~= seq![
                        Action::Rearm(fd, Interest::R),
                        Action::NotifyRecv(reg@[fd]),
                    ]);
                },
                Err(e) => {
                    assert(p@ =~= seq![Action::NotifyError(reg@[fd], *e)]);
                },
            }
        } else {
            assert(p@ =~= seq![Action::WarnNoConn(fd)]);
        }
    }
    p
}

/// Plans the write path for `fd`, given the outcome of the transmit flush.
/// A flush that left bytes queued — a partial write or would-block —
/// re-arms read+write; a complete flush re-arms read-only; a flush error
/// fires the error callback without re-arming.
pub fn plan_write_event(reg: &Registry, fd: i32, flush: &Result<(usize, bool), SockError>) -> (p:
    Vec<Action>)
    ensures
        !reg@.contains_key(fd) ==> p@ == seq![Action::WarnNoConn(fd)],
        reg@.contains_key(fd) ==> (match flush {
            Ok(sr) => p@ == seq![
                Action::Rearm(fd, if sr.1 { Interest::RW } else { Interest::R }),
            ],
            Err(e) => p@ == seq![Action::NotifyError(reg@[fd], *e)],
        }),
{
    let mut p: Vec<Action> = Vec::new();
    match reg.get(fd) {
        Some(conn) => match flush {
            Ok((_, needs_w)) => {
                if *needs_w {
                    p.push(Action::Rearm(fd, Interest::RW));
                } else {
                    p.push(Action::Rearm(fd, Interest::R));
                }
            },
            Err(e) => p.push(Action::NotifyError(conn, *e)),
        },
        None => p.push(Action::WarnNoConn(fd)),
    }
    proof {
        if reg@.contains_key(fd) {
            match flush {
                Ok(sr) => {
                    assert(p@ =~= seq![
                        Action::Rearm(fd, if sr.1 { Interest::RW } else { Interest::R }),
                    ]);
                },
                Err(e) => {
                    assert(p@ =~= seq![Action::NotifyError(reg@[fd], *e)]);
                },
            }
        } else {
            assert(p@ =~= seq![Action::WarnNoConn(fd)]);
        }
    }
    p
}

} // verus!
