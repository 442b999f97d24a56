use vstd::prelude::*;
use std::collections::HashMap;
use crate::buf::Buffer;
use crate::error::SockError;

verus! {

broadcast use vstd::std_specs::hash::group_hash_axioms;

/// The per-descriptor staging tables: a receive and a transmit buffer for
/// every initialized descriptor.
///
/// A descriptor has entries in both tables iff it has been `init`-ed and not
/// yet `shutdown`-ed. The tables are modelled as maps from descriptor to the
/// byte sequence its buffer holds.
pub struct SocketOps {
    rx: HashMap<i32, Buffer>,
    tx: HashMap<i32, Buffer>,
}

/// One observed outcome of a kernel read on a nonblocking socket: some
/// bytes, the would-block indication, the zero-length read that signals peer
/// end of stream, or a hard error with its errno.
pub enum RecvEvent {
    Data(Vec<u8>),
    WouldBlock,
    Closed,
    Failed(i32),
}

/// What the receive drain does after one kernel-read outcome: issue another
/// read, stop with the running total, or stop with an error.
#[derive(Clone, Copy, Debug, PartialEq, Eq, Structural)]
pub enum RecvStep {
    Continue(usize),
    Done(usize),
    Fail(SockError),
}

/// One observed outcome of the single kernel write of a transmit flush.
#[derive(Clone, Copy, Debug, PartialEq, Eq, Structural)]
pub enum SendEvent {
    Sent(usize),
    WouldBlock,
    Failed(i32),
}

impl SocketOps {
    /// The receive-side contents, per descriptor.
    pub closed spec fn rx_map(&self) -> Map<i32, Seq<u8>> {
        Map::new(|fd: i32| self.rx@.contains_key(fd), |fd: i32| self.rx@[fd]@)
    }

    /// The transmit-side contents, per descriptor.
    pub closed spec fn tx_map(&self) -> Map<i32, Seq<u8>> {
        Map::new(|fd: i32| self.tx@.contains_key(fd), |fd: i32| self.tx@[fd]@)
    }

    /// Both tables key exactly the same descriptors.
    pub open spec fn wf(&self) -> bool {
        self.rx_map().dom() == self.tx_map().dom()
    }

    /// A descriptor is known iff `init` ran for it and no `shutdown`
    /// followed.
    pub open spec fn has_fd(&self, fd: i32) -> bool {
        self.rx_map().contains_key(fd)
    }

    /// Creates empty tables: no descriptor is known.
    pub fn new() -> (r: SocketOps)
        ensures
            r.wf(),
            r.rx_map() == Map::<i32, Seq<u8>>::empty(),
            r.tx_map() == Map::<i32, Seq<u8>>::empty(),
    {
        let r = SocketOps { rx: HashMap::new(), tx: HashMap::new() };
        proof {
            assert(r.rx_map() =~= Map::<i32, Seq<u8>>::empty());
            assert(r.tx_map() =~= Map::<i32, Seq<u8>>::empty());
        }
        r
    }

    /// Creates empty receive and transmit buffers for `fd`. Calling it again
    /// for a known descriptor replaces both buffers with empty ones.
    pub fn init(&mut self, fd: i32)
        requires
            old(self).wf(),
        ensures
            final(self).wf(),
            final(self).rx_map() == old(self).rx_map().insert(fd, Seq::<u8>::empty()),
            final(self).tx_map() == old(self).tx_map().insert(fd, Seq::<u8>::empty()),
    {
        self.rx.insert(fd, Buffer::new());
        self.tx.insert(fd, Buffer::new());
        proof {
            assert(self.rx_map() =~= old(self).rx_map().insert(fd, Seq::<u8>::empty()));
            assert(self.tx_map() =~= old(self).tx_map().insert(fd, Seq::<u8>::empty()));
            assert(self.rx_map().dom() =~= self.tx_map().dom());
        }
    }

    /// Returns the receive-buffer length of `fd` without modifying it.
    pub fn peek(&self, fd: i32) -> (r: Result<usize, SockError>)
        ensures
            self.has_fd(fd) ==> (r matches Ok(n) && n == self.rx_map()[fd].len()),
            !self.has_fd(fd) ==> r == Err::<usize, SockError>(SockError::UnknownFd),
    {
        match self.rx.get(&fd) {
            Some(b) => Ok(b.len()),
            None => Err(SockError::UnknownFd),
        }
    }

    /// Removes up to `max` leading bytes from `fd`'s receive buffer and
    /// returns them; returns fewer when the buffer is shorter.
    pub fn take(&mut self, fd: i32, max: usize) -> (r: Result<Vec<u8>, SockError>)
        requires
            old(self).wf(),
        ensures
            final(self).wf(),
            final(self).tx_map() == old(self).tx_map(),
            !old(self).has_fd(fd) ==> r == Err::<Vec<u8>, SockError>(SockError::UnknownFd)
                && final(self).rx_map() == old(self).rx_map(),
            old(self).has_fd(fd) ==> (r matches Ok(v) && {
                let pre = old(self).rx_map()[fd];
                let k = if max <= pre.len() {
                    max as int
                } else {
                    pre.len() as int
                };
                &&& v@ == pre.subrange(0, k)
                &&& final(self).rx_map() == old(self).rx_map().insert(
                    fd,
                    pre.subrange(k, pre.len() as int),
                )
            }),
    {
        match self.rx.remove(&fd) {
            Some(mut b) => {
                let v = b.extract(max);
                self.rx.insert(fd, b);
                proof {
                    let pre = old(self).rx_map()[fd];
                    let k = if max <= pre.len() {
                        max as int
                    } else {
                        pre.len() as int
                    };
                    assert(self.rx_map() =~= old(self).rx_map().insert(
                        fd,
                        pre.subrange(k, pre.len() as int),
                    ));
                    assert(self.tx_map() =~= old(self).tx_map());
                    assert(self.rx_map().dom() =~= self.tx_map().dom());
                }
                Ok(v)
            },
            None => {
                proof {
                    assert(self.rx_map() =~= old(self).rx_map());
                    assert(self.tx_map() =~= old(self).tx_map());
                }
                Err(SockError::UnknownFd)
            },
        }
    }

    /// Appends `buf` to `fd`'s transmit buffer and returns how many bytes
    /// were queued. Queuing does not schedule a flush: write interest is the
    /// reactor's affair.
    pub fn add_to_tx_buf(&mut self, fd: i32, buf: &[u8]) -> (r: Result<usize, SockError>)
        requires
            old(self).wf(),
        ensures
            final(self).wf(),
            final(self).rx_map() == old(self).rx_map(),
            !old(self).has_fd(fd) ==> r == Err::<usize, SockError>(SockError::UnknownFd)
                && final(self).tx_map() == old(self).tx_map(),
            old(self).has_fd(fd) ==> (r matches Ok(n) && n == buf@.len() && final(self).tx_map()
                == old(self).tx_map().insert(fd, old(self).tx_map()[fd] + buf@)),
    {
        match self.tx.remove(&fd) {
            Some(mut b) => {
                b.append(buf);
                self.tx.insert(fd, b);
                proof {
                    assert(self.tx_map() =~= old(self).tx_map().insert(
                        fd,
                        old(self).tx_map()[fd] + buf@,
                    ));
                    assert(self.rx_map() =~= old(self).rx_map());
                    assert(self.rx_map().dom() =~= self.tx_map().dom());
                }
                Ok(buf.len())
            },
            None => {
                proof {
                    assert(self.rx_map() =~= old(self).rx_map());
                    assert(self.tx_map() =~= old(self).tx_map());
                }
                Err(SockError::UnknownFd)
            },
        }
    }

    /// Advances the receive drain of `fd` by one kernel-read outcome.
    /// `total` is the running byte count of the current drain. Bytes are
    /// appended to the receive buffer in arrival order; the drain continues
    /// until the would-block indication, as edge-triggered readiness
    /// requires.
    pub fn recv_step(&mut self, fd: i32, ev: RecvEvent, total: usize) -> (r: RecvStep)
        requires
            old(self).wf(),
            ev matches RecvEvent::Data(d) ==> total + d@.len() <= usize::MAX,
        ensures
            final(self).wf(),
            final(self).tx_map() == old(self).tx_map(),
            !old(self).has_fd(fd) ==> r == RecvStep::Fail(SockError::UnknownFd) && final(self).rx_map() == old(self).rx_map(),
            old(self).has_fd(fd) ==> match ev {
                RecvEvent::Data(d) => r == RecvStep::Continue((total + d@.len()) as usize)
                    && final(self).rx_map() == old(self).rx_map().insert(
                    fd,
                    old(self).rx_map()[fd] + d@,
                ),
                RecvEvent::WouldBlock => r == RecvStep::Done(total) && final(self).rx_map()
                    == old(self).rx_map(),
                RecvEvent::Closed => r == RecvStep::Fail(SockError::Eof) && final(self).rx_map()
                    == old(self).rx_map(),
                RecvEvent::Failed(errno) => r == RecvStep::Fail(SockError::Os(errno)) && final(self).rx_map() == old(self).rx_map(),
            },
    {
        let ghost gev = ev;
        match self.rx.remove(&fd) {
            Some(mut b) => {
                let step: RecvStep = match ev {
                    RecvEvent::Data(d) => {
                        b.append(d.as_slice());
                        RecvStep::Continue(total + d.len())
                    },
                    RecvEvent::WouldBlock => RecvStep::Done(total),
                    RecvEvent::Closed => RecvStep::Fail(SockError::Eof),
                    RecvEvent::Failed(errno) => RecvStep::Fail(SockError::Os(errno)),
                };
                self.rx.insert(fd, b);
                proof {
                    if let RecvEvent::Data(d) = gev {
                        assert(self.rx_map() =~= old(self).rx_map().insert(
                            fd,
                            old(self).rx_map()[fd] + d@,
                        ));
                    } else {
                        assert(self.rx_map() =~= old(self).rx_map());
                    }
                    assert(self.tx_map() =~= old(self).tx_map());
                    assert(self.rx_map().dom() =~= self.tx_map().dom());
                }
                step
            },
            None => {
                proof {
                    assert(self.rx_map() =~= old(self).rx_map());
                    assert(self.tx_map() =~= old(self).tx_map());
                }
                RecvStep::Fail(SockError::UnknownFd)
            },
        }
    }

    /// Starts a transmit flush: removes and returns the whole transmit
    /// buffer of `fd`. The caller hands the payload to one kernel write and
    /// reports the outcome to `send_finish`.
    pub fn send_begin(&mut self, fd: i32) -> (r: Result<Vec<u8>, SockError>)
        requires
            old(self).wf(),
        ensures
            final(self).wf(),
            final(self).rx_map() == old(self).rx_map(),
            !old(self).has_fd(fd) ==> r == Err::<Vec<u8>, SockError>(SockError::UnknownFd)
                && final(self).tx_map() == old(self).tx_map(),
            old(self).has_fd(fd) ==> (r matches Ok(v) && v@ == old(self).tx_map()[fd] && final(self).tx_map() == old(self).tx_map().insert(fd, Seq::<u8>::empty())),
    {
        match self.tx.remove(&fd) {
            Some(mut b) => {
                let v = b.take_all();
                self.tx.insert(fd, b);
                proof {
                    assert(self.tx_map() =~= old(self).tx_map().insert(fd, Seq::<u8>::empty()));
                    assert(self.rx_map() =~= old(self).rx_map());
                    assert(self.rx_map().dom() =~= self.tx_map().dom());
                }
                Ok(v)
            },
            None => {
                proof {
                    assert(self.rx_map() =~= old(self).rx_map());
                    assert(self.tx_map() =~= old(self).tx_map());
                }
                Err(SockError::UnknownFd)
            },
        }
    }

    /// Completes a transmit flush for `fd`, given the payload that
    /// `send_begin` extracted and the outcome of the one kernel write.
    /// Returns the bytes sent paired with whether write interest must remain
    /// armed:
    /// - would-block: the whole payload returns to the front of the
    ///   transmit buffer; write interest stays armed unless the payload was
    ///   empty;
    /// - partial write: the unsent suffix returns to the front of the
    ///   transmit buffer and write interest stays armed;
    /// - full write, or an empty payload: write interest may drop;
    /// - a zero-length write of a non-empty payload is reported as
    ///   `WriteZero`; other kernel errors propagate, and the payload is
    ///   dropped with the connection that is being torn down.
    pub fn send_finish(&mut self, fd: i32, payload: Vec<u8>, ev: SendEvent) -> (r: Result<
        (usize, bool),
        SockError,
    >)
        requires
            old(self).wf(),
            ev matches SendEvent::Sent(n) ==> n <= payload@.len(),
        ensures
            final(self).wf(),
            final(self).rx_map() == old(self).rx_map(),
            !old(self).has_fd(fd) ==> r == Err::<(usize, bool), SockError>(SockError::UnknownFd)
                && final(self).tx_map() == old(self).tx_map(),
            old(self).has_fd(fd) ==> match ev {
                SendEvent::Sent(n) => if n == 0 && payload@.len() == 0 {
                    r == Ok::<(usize, bool), SockError>((0, false)) && final(self).tx_map() == old(self).tx_map()
                } else if n == 0 {
                    r == Err::<(usize, bool), SockError>(SockError::WriteZero) && final(self).tx_map() == old(self).tx_map()
                } else if n < payload@.len() {
                    r == Ok::<(usize, bool), SockError>((n, true)) && final(self).tx_map() == old(self).tx_map().insert(
                        fd,
                        payload@.subrange(n as int, payload@.len() as int) + old(self).tx_map()[fd],
                    )
                } else {
                    r == Ok::<(usize, bool), SockError>((n, false)) && final(self).tx_map() == old(self).tx_map()
                },
                SendEvent::WouldBlock => r == Ok::<(usize, bool), SockError>(
                    (0, payload@.len() > 0),
                ) && final(self).tx_map() == old(self).tx_map().insert(
                    fd,
                    payload@ + old(self).tx_map()[fd],
                ),
                SendEvent::Failed(errno) => r == Err::<(usize, bool), SockError>(
                    SockError::Os(errno),
                ) && final(self).tx_map() == old(self).tx_map(),
            },
    {
        match self.tx.remove(&fd) {
            Some(mut b) => {
                let r: Result<(usize, bool), SockError> = match ev {
                    SendEvent::Sent(n) => {
                        if n == 0 && payload.len() == 0 {
                            Ok((0, false))
                        } else if n == 0 {
                            Err(SockError::WriteZero)
                        } else if n < payload.len() {
                            let unsent = payload.as_slice();
                            b.prepend(&unsent[n..payload.len()]);
                            Ok((n, true))
                        } else {
                            Ok((n, false))
                        }
                    },
                    SendEvent::WouldBlock => {
                        b.prepend(payload.as_slice());
                        Ok((0, payload.len() > 0))
                    },
                    SendEvent::Failed(errno) => Err(SockError::Os(errno)),
                };
                self.tx.insert(fd, b);
                proof {
                    let pre = old(self).tx_map()[fd];
                    match ev {
                        SendEvent::Sent(n) => {
                            if 0 < n < payload@.len() {
                                assert(self.tx_map() =~= old(self).tx_map().insert(
                                    fd,
                                    payload@.subrange(n as int, payload@.len() as int) + pre,
                                ));
                            } else {
                                assert(self.tx_map() =~= old(self).tx_map());
                            }
                        },
                        SendEvent::WouldBlock => {
                            assert(self.tx_map() =~= old(self).tx_map().insert(
                                fd,
                                payload@ + pre,
                            ));
                        },
                        SendEvent::Failed(_) => {
                            assert(self.tx_map() =~= old(self).tx_map());
                        },
                    }
                    assert(self.rx_map() =~= old(self).rx_map());
                    assert(self.rx_map().dom() =~= self.tx_map().dom());
                }
                r
            },
            None => {
                proof {
                    assert(self.rx_map() =~= old(self).rx_map());
                    assert(self.tx_map() =~= old(self).tx_map());
                }
                Err(SockError::UnknownFd)
            },
        }
    }

    /// Drops `fd`'s buffers: the descriptor becomes unknown to every
    /// subsequent operation. The kernel-level half-close and close are the
    /// caller's.
    pub fn shutdown(&mut self, fd: i32)
        requires
            old(self).wf(),
        ensures
            final(self).wf(),
            final(self).rx_map() == old(self).rx_map().remove(fd),
            final(self).tx_map() == old(self).tx_map().remove(fd),
    {
        self.rx.remove(&fd);
        self.tx.remove(&fd);
        proof {
            assert(self.rx_map() =~= old(self).rx_map().remove(fd));
            assert(self.tx_map() =~= old(self).tx_map().remove(fd));
            assert(self.rx_map().dom() =~= self.tx_map().dom());
        }
    }
}

/// Interprets the outcome of the per-socket error query
/// (`getsockopt(SO_ERROR)`): `query_ok` says whether the query itself
/// succeeded, `errno` is the value it read. A failed query and a clear slot
/// both report nothing.
pub fn interpret_so_error(query_ok: bool, errno: i32) -> (r: Option<SockError>)
    ensures
        r == if query_ok && errno != 0 {
            Option::Some(SockError::Os(errno))
        } else {
            Option::<SockError>::None
        },
{
    if query_ok && errno != 0 {
        Some(SockError::Os(errno))
    } else {
        None
    }
}

/// The concatenation of a burst's chunks, in arrival order.
pub open spec fn concat_chunks(cs: Seq<Seq<u8>>) -> Seq<u8>
    decreases cs.len(),
{
    if cs.len() == 0 {
        Seq::<u8>::empty()
    } else {
        cs[0] + concat_chunks(cs.skip(1))
    }
}

/// The receive buffer after a drain appends a burst's chunks one kernel
/// read at a time, as `recv_step` does on each `Data` outcome.
pub open spec fn drained_rx(rx: Seq<u8>, cs: Seq<Seq<u8>>) -> Seq<u8>
    decreases cs.len(),
{
    if cs.len() == 0 {
        rx
    } else {
        drained_rx(rx + cs[0], cs.skip(1))
    }
}

/// The running total after a drain counts a burst's chunks one kernel read
/// at a time, as `recv_step` does on each `Data` outcome.
pub open spec fn drained_total(total: int, cs: Seq<Seq<u8>>) -> int
    decreases cs.len(),
{
    if cs.len() == 0 {
        total
    } else {
        drained_total(total + cs[0].len(), cs.skip(1))
    }
}

/// Edge-triggered drain: a burst the kernel hands over as the chunks `cs`
/// followed by would-block ends the wake's single drain with one total
/// equal to the burst's length, and appends exactly the burst to the
/// receive buffer in order — however the kernel chunked it into scratch
/// reads.
pub proof fn lemma_drain_accumulates(rx: Seq<u8>, total: int, cs: Seq<Seq<u8>>)
    ensures
        drained_rx(rx, cs) == rx + concat_chunks(cs),
        drained_total(total, cs) == total + concat_chunks(cs).len(),
    decreases cs.len(),
{
    if cs.len() == 0 {
        assert(drained_rx(rx, cs) =~= rx + concat_chunks(cs));
    } else {
        lemma_drain_accumulates(rx + cs[0], total + cs[0].len(), cs.skip(1));
        assert((rx + cs[0]) + concat_chunks(cs.skip(1)) =~= rx + concat_chunks(cs));
    }
}

/// After a teardown the descriptor is unknown: once both tables lose `fd`,
/// every subsequent `peek`, `take`, `add_to_tx_buf`, `recv_step`,
/// `send_begin` and `send_finish` on it — whose contracts return
/// `UnknownFd` exactly for unknown descriptors — reports `UnknownFd`.
pub proof fn lemma_shutdown_unknown_fd(pre: SocketOps, post: SocketOps, fd: i32)
    requires
        post.rx_map() == pre.rx_map().remove(fd),
        post.tx_map() == pre.tx_map().remove(fd),
    ensures
        !post.has_fd(fd),
{
}

} // verus!
