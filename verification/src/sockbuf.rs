use vstd::prelude::*;
use crate::buf::Buffer;

verus! {

/// A per-socket staging buffer: the same front-drain, back-append byte
/// queue as [`Buffer`], under the names the socket layer's callers use.
pub struct SocketBuffer {
    inner: Buffer,
}

impl View for SocketBuffer {
    type V = Seq<u8>;

    closed spec fn view(&self) -> Seq<u8> {
        self.inner@
    }
}

impl SocketBuffer {
    /// Creates an empty buffer.
    pub fn new() -> (r: SocketBuffer)
        ensures
            r@ == Seq::<u8>::empty(),
    {
        SocketBuffer { inner: Buffer::new() }
    }

    /// Returns the number of bytes currently stored.
    pub fn len(&self) -> (n: usize)
        ensures
            n == self@.len(),
    {
        self.inner.len()
    }

    /// Appends `buf` at the back.
    pub fn push(&mut self, buf: &[u8])
        ensures
            final(self)@ == old(self)@ + buf@,
    {
        self.inner.append(buf);
    }

    /// Inserts `buf` at the front; the bytes already stored follow it
    /// unchanged.
    pub fn push_front(&mut self, buf: &[u8])
        ensures
            final(self)@ == buf@ + old(self)@,
    {
        self.inner.prepend(buf);
    }

    /// Removes and returns up to `max` leading bytes; returns fewer when
    /// the buffer is shorter.
    pub fn take(&mut self, max: usize) -> (r: Vec<u8>)
        ensures
            r@.len() == if max <= old(self)@.len() {
                max as int
            } else {
                old(self)@.len() as int
            },
            r@ == old(self)@.subrange(0, r@.len() as int),
            final(self)@ == old(self)@.subrange(r@.len() as int, old(self)@.len() as int),
    {
        self.inner.extract(max)
    }

    /// Removes and returns the whole contents, leaving the buffer empty.
    pub fn take_all(&mut self) -> (r: Vec<u8>)
        ensures
            r@ == old(self)@,
            final(self)@ == Seq::<u8>::empty(),
    {
        self.inner.take_all()
    }
}

} // verus!
