//! The byte ring that carries messages between the driver and the GSP.
use vstd::prelude::*;
use crate::error::{Error, Result};
use crate::memory::DmaBuffer;
use crate::wire::{WireDecode, WireEncode, WireLayout, WireRoundTrip};

verus! {

/// The position `k` bytes after position `p` in a ring of `cap` bytes
/// (for `p < cap` and `k <= cap`).
pub open spec fn ring_index(cap: nat, p: nat, k: nat) -> nat {
    if p + k >= cap {
        (p + k - cap) as nat
    } else {
        p + k
    }
}

/// How many bytes position `i` lies after position `p` in a ring of `cap`
/// bytes (for `p, i < cap`).
pub open spec fn ring_offset(cap: nat, p: nat, i: nat) -> nat {
    if i >= p {
        (i - p) as nat
    } else {
        (i + cap - p) as nat
    }
}

/// The abstract state of a ring: the buffer's bytes, its capacity and the
/// positions where the next read and the next write take place.
pub struct RingView {
    pub bytes: Seq<u8>,
    pub capacity: nat,
    pub read_pos: nat,
    pub write_pos: nat,
}

impl RingView {
    /// The positions lie inside the buffer, whose length is the capacity.
    pub open spec fn wf(self) -> bool {
        &&& self.bytes.len() == self.capacity
        &&& self.capacity == 0 ==> self.read_pos == 0 && self.write_pos == 0
        &&& self.capacity > 0 ==> self.read_pos < self.capacity && self.write_pos < self.capacity
    }

    /// Number of bytes written and not yet read.
    pub open spec fn available_read(self) -> nat {
        if self.write_pos >= self.read_pos {
            (self.write_pos - self.read_pos) as nat
        } else {
            (self.capacity - (self.read_pos - self.write_pos)) as nat
        }
    }

    /// Number of bytes that can still be written; one slot is always kept
    /// free so that a full ring is told apart from an empty one.
    pub open spec fn available_write(self) -> int {
        if self.write_pos >= self.read_pos {
            self.capacity - (self.write_pos - self.read_pos) - 1
        } else {
            self.read_pos - self.write_pos - 1
        }
    }

    /// The bytes written and not yet read, oldest first.
    pub open spec fn pending(self) -> Seq<u8> {
        Seq::new(
            self.available_read(),
            |k: int| self.bytes[ring_index(self.capacity, self.read_pos, k as nat) as int],
        )
    }

    /// What writing `w` returns and the ring it leaves: `Err(Busy)`, the
    /// ring unchanged, when `w` does not fit in the free space; otherwise
    /// byte k of `w` goes `k` bytes after the write position, wrapping at
    /// the end of the buffer, and the write position moves past `w`.
    pub open spec fn write_outcome(self, w: Seq<u8>) -> (Result<()>, RingView) {
        if self.available_write() < w.len() {
            (Err(Error::Busy), self)
        } else {
            (
                Ok(()),
                RingView {
                    bytes: Seq::new(
                        self.capacity,
                        |i: int|
                            {
                                let k = ring_offset(self.capacity, self.write_pos, i as nat);
                                if k < w.len() {
                                    w[k as int]
                                } else {
                                    self.bytes[i]
                                }
                            },
                    ),
                    write_pos: ring_index(self.capacity, self.write_pos, w.len()),
                    ..self
                },
            )
        }
    }

    /// What reading `n` bytes returns and the ring it leaves: `None`, the
    /// ring unchanged, when fewer than `n` bytes are pending; otherwise the
    /// `n` bytes from the read position on, wrapping at the end of the
    /// buffer, and the read position moves past them.
    pub open spec fn read_outcome(self, n: nat) -> (Option<Seq<u8>>, RingView) {
        if self.available_read() < n {
            (None, self)
        } else {
            (
                Some(
                    Seq::new(
                        n,
                        |k: int| self.bytes[ring_index(self.capacity, self.read_pos, k as nat) as int],
                    ),
                ),
                RingView { read_pos: ring_index(self.capacity, self.read_pos, n), ..self },
            )
        }
    }
}

/// What a read of a `T` returns, given the bytes the read found.
pub open spec fn decoded<T: WireDecode>(o: Option<Seq<u8>>) -> Option<T> {
    match o {
        Some(b) => Some(T::from_wire(b)),
        None => None,
    }
}

/// Free and pending space always add up to one less than the capacity, and
/// the pending bytes are as many as `available_read` says.
pub proof fn lemma_ring_space(r: RingView)
    requires
        r.wf(),
        r.capacity > 0,
    ensures
        r.available_read() + r.available_write() == r.capacity - 1,
        r.pending().len() == r.available_read(),
        0 <= r.available_write(),
{
}

/// A successful write appends its bytes to the pending bytes: the ring is a
/// FIFO of bytes.
pub proof fn lemma_write_appends(r: RingView, w: Seq<u8>)
    requires
        r.wf(),
        r.capacity > 0,
        r.write_outcome(w).0 is Ok,
    ensures
        r.write_outcome(w).1.wf(),
        r.write_outcome(w).1.pending() == r.pending() + w,
        r.write_outcome(w).1.read_pos == r.read_pos,
{
    let s = r.write_outcome(w).1;
    let cap = r.capacity;
    let a = r.available_read();
    assert(s.available_read() == a + w.len());
    assert forall|k: int| 0 <= k < s.pending().len() implies #[trigger] s.pending()[k] == (
    r.pending() + w)[k] by {
        let i = ring_index(cap, r.read_pos, k as nat);
        if k < a {
            assert(ring_offset(cap, r.write_pos, i) >= w.len());
        } else {
            assert(ring_offset(cap, r.write_pos, i) == k - a);
        }
    }
    assert(s.pending() =~= r.pending() + w);
}

/// A successful read returns the oldest pending bytes and removes them.
pub proof fn lemma_read_takes_front(r: RingView, n: nat)
    requires
        r.wf(),
        r.read_outcome(n).0 is Some,
    ensures
        r.read_outcome(n).1.wf(),
        r.read_outcome(n).0 == Some(r.pending().subrange(0, n as int)),
        r.read_outcome(n).1.pending() == r.pending().subrange(n as int, r.pending().len() as int),
        r.read_outcome(n).1.available_read() == r.available_read() - n,
        r.read_outcome(n).1.write_pos == r.write_pos,
        r.read_outcome(n).1.bytes == r.bytes,
{
    let s = r.read_outcome(n).1;
    let cap = r.capacity;
    assert(s.available_read() == r.available_read() - n);
    assert forall|k: int| 0 <= k < s.pending().len() implies #[trigger] s.pending()[k]
        == r.pending()[k + n] by {
        assert(ring_index(cap, s.read_pos, k as nat) == ring_index(cap, r.read_pos, (k + n) as nat));
    }
    assert(s.pending() =~= r.pending().subrange(n as int, r.pending().len() as int));
    assert(r.read_outcome(n).0->Some_0 =~= r.pending().subrange(0, n as int));
}

/// Bytes written one run after another into a ring are read back run by
/// run, in the order they were written.
pub proof fn lemma_ring_fifo(r: RingView, w1: Seq<u8>, w2: Seq<u8>)
    requires
        r.wf(),
        r.capacity > 0,
        r.available_read() == 0,
        r.write_outcome(w1).0 is Ok,
        r.write_outcome(w1).1.write_outcome(w2).0 is Ok,
    ensures
        ({
            let s = r.write_outcome(w1).1.write_outcome(w2).1;
            &&& s.read_outcome(w1.len()).0 == Some(w1)
            &&& s.read_outcome(w1.len()).1.read_outcome(w2.len()).0 == Some(w2)
            &&& s.read_outcome(w1.len()).1.read_outcome(w2.len()).1.available_read() == 0
        }),
{
    let s1 = r.write_outcome(w1).1;
    let s = s1.write_outcome(w2).1;
    lemma_ring_space(r);
    lemma_write_appends(r, w1);
    lemma_write_appends(s1, w2);
    assert(r.pending() =~= Seq::<u8>::empty());
    assert(s.pending() =~= w1 + w2);
    lemma_read_takes_front(s, w1.len());
    let t = s.read_outcome(w1.len()).1;
    assert(s.pending().subrange(0, w1.len() as int) =~= w1);
    assert(t.pending() =~= w2);
    lemma_read_takes_front(t, w2.len());
    assert(t.pending().subrange(0, w2.len() as int) =~= w2);
}

/// A value written into an empty ring is what the next read of its type
/// returns.
pub proof fn lemma_ring_round_trip<T: WireRoundTrip>(r: RingView, x: T)
    requires
        r.wf(),
        r.capacity > 0,
        r.available_read() == 0,
        r.write_outcome(x.wire_bytes()).0 is Ok,
    ensures
        decoded::<T>(r.write_outcome(x.wire_bytes()).1.read_outcome(T::wire_len()).0) == Some(x),
{
    T::lemma_round_trip(x);
    let w = x.wire_bytes();
    let s = r.write_outcome(w).1;
    lemma_ring_space(r);
    lemma_write_appends(r, w);
    assert(r.pending() =~= Seq::<u8>::empty());
    assert(s.pending() =~= w);
    lemma_read_takes_front(s, T::wire_len());
    assert(s.pending().subrange(0, T::wire_len() as int) =~= w);
}

/// A ring of bytes in a DMA buffer, read and written at separate positions.
pub struct RingBuffer {
    buffer: DmaBuffer,
    read_pos: usize,
    write_pos: usize,
    capacity: usize,
}

impl View for RingBuffer {
    type V = RingView;

    closed spec fn view(&self) -> RingView {
        RingView {
            bytes: self.buffer.bytes(),
            capacity: self.capacity as nat,
            read_pos: self.read_pos as nat,
            write_pos: self.write_pos as nat,
        }
    }
}

impl RingBuffer {
    /// The buffer the ring lives in.
    pub closed spec fn dma(&self) -> DmaBuffer {
        self.buffer
    }

    /// An empty ring over the whole of `buffer`.
    pub fn new(buffer: DmaBuffer) -> (r: Self)
        ensures
            r@ == (RingView {
                bytes: buffer.bytes(),
                capacity: buffer.bytes().len(),
                read_pos: 0,
                write_pos: 0,
            }),
            r@.wf(),
            r.dma().cpu_address() == buffer.cpu_address(),
            r.dma().bus_address() == buffer.bus_address(),
    {
        let capacity = buffer.size();
        Self { buffer, read_pos: 0, write_pos: 0, capacity }
    }

    /// The capacity of the ring in bytes.
    pub fn capacity(&self) -> (r: usize)
        ensures
            r == self@.capacity,
    {
        self.capacity
    }

    /// The buffer the ring lives in.
    pub fn buffer(&self) -> (r: &DmaBuffer)
        ensures
            *r == self.dma(),
            r.bytes() == self@.bytes,
    {
        &self.buffer
    }

    /// Replaces the ring's bytes by `src` (as found in device memory),
    /// keeping the read and write positions.
    pub fn load_bytes(&mut self, src: &[u8])
        requires
            old(self)@.wf(),
            src@.len() == old(self)@.capacity,
        ensures
            final(self)@ == (RingView { bytes: src@, ..old(self)@ }),
            final(self)@.wf(),
            final(self).dma().cpu_address() == old(self).dma().cpu_address(),
            final(self).dma().bus_address() == old(self).dma().bus_address(),
    {
        self.buffer.load(src);
    }

    /// The position one byte after `pos`.
    fn next_pos(&self, pos: usize) -> (r: usize)
        requires
            self@.wf(),
            pos < self@.capacity,
        ensures
            r == ring_index(self@.capacity, pos as nat, 1),
    {
        if pos + 1 == self.capacity {
            0
        } else {
            pos + 1
        }
    }

    /// The position `n` bytes after `pos`.
    fn advance(&self, pos: usize, n: usize) -> (r: usize)
        requires
            self@.wf(),
            pos < self@.capacity,
            n <= self@.capacity,
        ensures
            r == ring_index(self@.capacity, pos as nat, n as nat),
    {
        if n >= self.capacity - pos {
            n - (self.capacity - pos)
        } else {
            pos + n
        }
    }

    /// Writes `data` at the write position; see `RingView::write_outcome`.
    pub fn write<T: WireEncode>(&mut self, data: &T) -> (r: Result<()>)
        requires
            old(self)@.wf(),
            old(self)@.capacity > 0,
        ensures
            final(self)@.wf(),
            (r, final(self)@) == old(self)@.write_outcome(data.wire_bytes()),
            final(self).dma().cpu_address() == old(self).dma().cpu_address(),
            final(self).dma().bus_address() == old(self).dma().bus_address(),
    {
        proof {
            data.lemma_encoded_len();
        }
        let size = T::wire_size();
        if self.available_write() < size {
            return Err(Error::Busy);
        }
        let w = data.to_wire();
        let ghost cap = self@.capacity;
        let ghost wp = self@.write_pos;
        let mut pos = self.write_pos;
        let mut k: usize = 0;
        while k < size
            invariant
                self@.wf(),
                cap == self@.capacity,
                cap > 0,
                wp == old(self)@.write_pos,
                self@.read_pos == old(self)@.read_pos,
                self@.write_pos == old(self)@.write_pos,
                self@.capacity == old(self)@.capacity,
                w@ == data.wire_bytes(),
                size == w@.len(),
                size <= old(self)@.available_write(),
                k <= size,
                pos < cap,
                pos == ring_index(cap, wp, k as nat),
                self.dma().cpu_address() == old(self).dma().cpu_address(),
                self.dma().bus_address() == old(self).dma().bus_address(),
                forall|i: int|
                    0 <= i < cap ==> #[trigger] self@.bytes[i] == if ring_offset(cap, wp, i as nat)
                        < k {
                        w@[ring_offset(cap, wp, i as nat) as int]
                    } else {
                        old(self)@.bytes[i]
                    },
            decreases size - k,
        {
            let b: u8 = w[k];
            let _ = self.buffer.write(pos, &b);
            assert(ring_offset(cap, wp, pos as nat) == k);
            pos = self.next_pos(pos);
            k = k + 1;
        }
        self.write_pos = pos;
        proof {
            assert(self@.bytes =~= old(self)@.write_outcome(data.wire_bytes()).1.bytes);
        }
        Ok(())
    }

    /// The `n` bytes from the read position on.
    fn peek_bytes(&self, n: usize) -> (r: Vec<u8>)
        requires
            self@.wf(),
            n <= self@.available_read(),
        ensures
            Some(r@) == self@.read_outcome(n as nat).0,
    {
        let mut out: Vec<u8> = Vec::new();
        let ghost cap = self@.capacity;
        let ghost rp = self@.read_pos;
        let mut pos = self.read_pos;
        let mut k: usize = 0;
        while k < n
            invariant
                self@.wf(),
                cap == self@.capacity,
                rp == self@.read_pos,
                n <= self@.available_read(),
                k <= n,
                out@.len() == k,
                k < n ==> pos < cap,
                k < n ==> pos == ring_index(cap, rp, k as nat),
                forall|j: int|
                    0 <= j < k ==> #[trigger] out@[j] == self@.bytes[ring_index(cap, rp, j as nat) as int],
            decreases n - k,
        {
            let b = match self.buffer.read::<u8>(pos) {
                Ok(b) => b,
                Err(_) => 0,
            };
            out.push(b);
            if k + 1 < n {
                pos = self.next_pos(pos);
            }
            k = k + 1;
        }
        assert(out@ =~= self@.read_outcome(n as nat).0->Some_0);
        out
    }

    /// Reads a `T` at the read position and moves past it; see
    /// `RingView::read_outcome`. Never fails.
    pub fn read<T: WireDecode>(&mut self) -> (r: Result<Option<T>>)
        requires
            old(self)@.wf(),
        ensures
            final(self)@.wf(),
            r == Ok::<Option<T>, Error>(decoded::<T>(old(self)@.read_outcome(T::wire_len()).0)),
            final(self)@ == old(self)@.read_outcome(T::wire_len()).1,
            final(self).dma() == old(self).dma(),
    {
        let size = T::wire_size();
        if self.available_read() < size {
            return Ok(None);
        }
        let bytes = self.peek_bytes(size);
        self.read_pos = self.advance(self.read_pos, size);
        Ok(Some(T::read_wire(bytes.as_slice())))
    }

    /// Reads a `T` at the read position without moving past it.
    pub fn peek<T: WireDecode>(&self) -> (r: Option<T>)
        requires
            self@.wf(),
        ensures
            r == decoded::<T>(self@.read_outcome(T::wire_len()).0),
    {
        let size = T::wire_size();
        if self.available_read() < size {
            return None;
        }
        let bytes = self.peek_bytes(size);
        Some(T::read_wire(bytes.as_slice()))
    }

    /// Moves the read position past `n` pending bytes.
    pub fn discard(&mut self, n: usize)
        requires
            old(self)@.wf(),
            n <= old(self)@.available_read(),
        ensures
            final(self)@.wf(),
            final(self)@ == old(self)@.read_outcome(n as nat).1,
            final(self).dma() == old(self).dma(),
    {
        if self.capacity == 0 {
            return;
        }
        self.read_pos = self.advance(self.read_pos, n);
    }

    fn available_write(&self) -> (r: usize)
        requires
            self@.wf(),
            self@.capacity > 0,
        ensures
            r == self@.available_write(),
            r + self@.available_read() == self@.capacity - 1,
    {
        if self.write_pos >= self.read_pos {
            self.capacity - (self.write_pos - self.read_pos) - 1
        } else {
            self.read_pos - self.write_pos - 1
        }
    }

    /// One byte of a non-empty ring always stays free: free and pending
    /// space add up to one less than the capacity, so a full ring is never
    /// taken for an empty one.
    pub proof fn lemma_space(&self)
        requires
            self@.wf(),
            self@.capacity > 0,
        ensures
            self@.available_read() + self@.available_write() == self@.capacity - 1,
            self@.available_read() < self@.capacity,
    {
        lemma_ring_space(self@);
    }

    /// Number of bytes written and not yet read.
    pub fn available_read(&self) -> (r: usize)
        requires
            self@.wf(),
        ensures
            r == self@.available_read(),
    {
        if self.write_pos >= self.read_pos {
            self.write_pos - self.read_pos
        } else {
            self.capacity - (self.read_pos - self.write_pos)
        }
    }
}

} // verus!
