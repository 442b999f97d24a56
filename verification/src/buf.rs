use vstd::prelude::*;

verus! {

/// A front-drain, back-append byte queue: the staging area used for both the
/// receive and the transmit side of a connection.
///
/// The queue is modelled as the sequence of bytes it holds. `append` adds at
/// the back, `prepend` inserts at the front, `extract` removes from the
/// front. Bytes reach the consumer in the order they were appended, and
/// prepended bytes precede all previously stored bytes.
pub struct Buffer {
    bytes: Vec<u8>,
}

impl View for Buffer {
    type V = Seq<u8>;

    closed spec fn view(&self) -> Seq<u8> {
        self.bytes@
    }
}

impl Buffer {
    /// Creates an empty buffer.
    pub fn new() -> (r: Buffer)
        ensures
            r@ == Seq::<u8>::empty(),
    {
        Buffer { bytes: Vec::new() }
    }

    /// Returns the number of bytes currently stored.
    pub fn len(&self) -> (n: usize)
        ensures
            n == self@.len(),
    {
        self.bytes.len()
    }

    /// Inserts `buf` at the end of this buffer.
    pub fn append(&mut self, buf: &[u8])
        ensures
            final(self)@ == old(self)@ + buf@,
    {
        let ghost pre = self.bytes@;
        self.bytes.extend_from_slice(buf);
        proof {
            assert forall|i: int| 0 <= i < self.bytes@.len() implies self.bytes@[i] == (pre
                + buf@)[i] by {}
            assert(self.bytes@ =~= pre + buf@);
        }
    }

    /// Inserts `buf` at the beginning of this buffer; the bytes already
    /// stored follow it unchanged.
    pub fn prepend(&mut self, buf: &[u8])
        ensures
            final(self)@ == buf@ + old(self)@,
    {
        let ghost pre = self.bytes@;
        let mut nv: Vec<u8> = Vec::new();
        nv.extend_from_slice(buf);
        proof {
            assert forall|i: int| 0 <= i < nv@.len() implies nv@[i] == buf@[i] by {}
            assert(nv@ =~= buf@);
        }
        nv.append(&mut self.bytes);
        self.bytes = nv;
    }

    /// Removes and returns up to `len` leading bytes; returns fewer when the
    /// buffer is shorter. The remaining bytes keep their order.
    pub fn extract(&mut self, len: usize) -> (r: Vec<u8>)
        ensures
            r@.len() == if len <= old(self)@.len() {
                len as int
            } else {
                old(self)@.len() as int
            },
            r@ == old(self)@.subrange(0, r@.len() as int),
            final(self)@ == old(self)@.subrange(r@.len() as int, old(self)@.len() as int),
    {
        let k: usize = if self.bytes.len() < len {
            self.bytes.len()
        } else {
            len
        };
        let mut rest = self.bytes.split_off(k);
        core::mem::swap(&mut self.bytes, &mut rest);
        rest
    }

    /// Removes and returns the whole contents, leaving the buffer empty.
    pub fn take_all(&mut self) -> (r: Vec<u8>)
        ensures
            r@ == old(self)@,
            final(self)@ == Seq::<u8>::empty(),
    {
        let mut r: Vec<u8> = Vec::new();
        core::mem::swap(&mut self.bytes, &mut r);
        r
    }
}

/// One client-visible operation on a byte queue: append at the back, or
/// extract up to a number of leading bytes from the front.
pub enum BufOp {
    Append(Seq<u8>),
    Extract(nat),
}

/// How many bytes an extract of up to `n` removes from contents `s`.
pub open spec fn extracted_len(s: Seq<u8>, n: nat) -> int {
    if n <= s.len() {
        n as int
    } else {
        s.len() as int
    }
}

/// The contents left after running `ops` against starting contents `s`.
pub open spec fn run_contents(s: Seq<u8>, ops: Seq<BufOp>) -> Seq<u8>
    decreases ops.len(),
{
    if ops.len() == 0 {
        s
    } else {
        match ops[0] {
            BufOp::Append(b) => run_contents(s + b, ops.skip(1)),
            BufOp::Extract(n) => run_contents(s.skip(extracted_len(s, n)), ops.skip(1)),
        }
    }
}

/// The bytes the extracts of `ops` deliver, in delivery order.
pub open spec fn run_delivered(s: Seq<u8>, ops: Seq<BufOp>) -> Seq<u8>
    decreases ops.len(),
{
    if ops.len() == 0 {
        Seq::<u8>::empty()
    } else {
        match ops[0] {
            BufOp::Append(b) => run_delivered(s + b, ops.skip(1)),
            BufOp::Extract(n) => s.take(extracted_len(s, n)) + run_delivered(
                s.skip(extracted_len(s, n)),
                ops.skip(1),
            ),
        }
    }
}

/// The bytes the appends of `ops` add, in append order.
pub open spec fn appended(ops: Seq<BufOp>) -> Seq<u8>
    decreases ops.len(),
{
    if ops.len() == 0 {
        Seq::<u8>::empty()
    } else {
        match ops[0] {
            BufOp::Append(b) => b + appended(ops.skip(1)),
            BufOp::Extract(_) => appended(ops.skip(1)),
        }
    }
}

/// Extract is length-preserving: appending `b` to an empty buffer and then
/// extracting `b.len()` leading bytes — per the contracts of `append` and
/// `extract` — yields exactly `b` and leaves the buffer empty.
pub proof fn lemma_append_then_extract(b: Seq<u8>)
    ensures
        (Seq::<u8>::empty() + b).subrange(0, b.len() as int) == b,
        (Seq::<u8>::empty() + b).subrange(b.len() as int, b.len() as int) == Seq::<u8>::empty(),
{
    assert((Seq::<u8>::empty() + b).subrange(0, b.len() as int) =~= b);
    assert((Seq::<u8>::empty() + b).subrange(b.len() as int, b.len() as int)
        =~= Seq::<u8>::empty());
}

/// Prepend-then-extract: after appending `a` and then prepending `b` to an
/// empty buffer the contents are `b + a`, and extracting `a.len() +
/// b.len()` bytes yields `b + a` and leaves the buffer empty: prepended
/// bytes precede all previously stored bytes.
pub proof fn lemma_prepend_then_extract(a: Seq<u8>, b: Seq<u8>)
    ensures
        b + (Seq::<u8>::empty() + a) == b + a,
        (b + a).subrange(0, (a.len() + b.len()) as int) == b + a,
        (b + a).subrange((a.len() + b.len()) as int, (b + a).len() as int) == Seq::<u8>::empty(),
{
    assert(b + (Seq::<u8>::empty() + a) =~= b + a);
    assert((b + a).subrange(0, (a.len() + b.len()) as int) =~= b + a);
    assert((b + a).subrange((a.len() + b.len()) as int, (b + a).len() as int)
        =~= Seq::<u8>::empty());
}

/// Byte-stream conservation: across any interleaving of appends and
/// extracts, the bytes the extracts delivered followed by the bytes still
/// stored equal the starting contents followed by every appended byte, in
/// order. Once the buffer drains empty, the delivered lengths therefore
/// sum to exactly the number of bytes appended.
pub proof fn lemma_stream_conservation(s: Seq<u8>, ops: Seq<BufOp>)
    ensures
        run_delivered(s, ops) + run_contents(s, ops) == s + appended(ops),
    decreases ops.len(),
{
    if ops.len() == 0 {
        assert(run_delivered(s, ops) + run_contents(s, ops) =~= s + appended(ops));
    } else {
        match ops[0] {
            BufOp::Append(b) => {
                lemma_stream_conservation(s + b, ops.skip(1));
                assert((s + b) + appended(ops.skip(1)) =~= s + appended(ops));
            },
            BufOp::Extract(n) => {
                let k = extracted_len(s, n);
                let rest = ops.skip(1);
                lemma_stream_conservation(s.skip(k), rest);
                assert((s.take(k) + run_delivered(s.skip(k), rest)) + run_contents(s.skip(k), rest)
                    =~= s.take(k) + (run_delivered(s.skip(k), rest) + run_contents(
                    s.skip(k),
                    rest,
                )));
                assert(s.take(k) + (s.skip(k) + appended(rest)) =~= s + appended(ops));
            },
        }
    }
}

} // verus!
