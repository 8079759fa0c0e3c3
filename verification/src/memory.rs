use vstd::prelude::*;
use vstd::slice::slice_subrange;
use crate::error::{Error, Result};
use crate::wire::{WireDecode, WireEncode, WireLayout, WireRoundTrip, zeros};

verus! {

/// `bytes` with the run starting at `offset` replaced by `w`.
pub open spec fn splice(bytes: Seq<u8>, offset: int, w: Seq<u8>) -> Seq<u8> {
    bytes.subrange(0, offset) + w + bytes.subrange(offset + w.len(), bytes.len() as int)
}

/// A buffer shared with the GPU: its address as the CPU sees it, its bus
/// address for the GPU, and its contents.
pub struct DmaBuffer {
    virt_addr: usize,
    dma_addr: u64,
    data: Vec<u8>,
}

impl DmaBuffer {
    /// The contents of the buffer.
    pub closed spec fn bytes(&self) -> Seq<u8> {
        self.data@
    }

    /// The CPU address the buffer was created with.
    pub closed spec fn cpu_address(&self) -> usize {
        self.virt_addr
    }

    /// The bus address the GPU uses for the buffer.
    pub closed spec fn bus_address(&self) -> u64 {
        self.dma_addr
    }

    /// Creates a zero-filled buffer of `size` bytes.
    pub fn new(virt_addr: usize, dma_addr: u64, size: usize) -> (r: Self)
        ensures
            r.bytes() == zeros(size as nat),
            r.cpu_address() == virt_addr,
            r.bus_address() == dma_addr,
    {
        let mut data: Vec<u8> = Vec::new();
        crate::wire::push_zeros(&mut data, size);
        assert(data@ =~= zeros(size as nat));
        Self { virt_addr, dma_addr, data }
    }

    /// The bus address of the buffer.
    pub fn dma_addr(&self) -> (r: u64)
        ensures
            r == self.bus_address(),
    {
        self.dma_addr
    }

    /// The CPU address of the buffer.
    pub fn virt_addr(&self) -> (r: usize)
        ensures
            r == self.cpu_address(),
    {
        self.virt_addr
    }

    /// The length of the buffer in bytes.
    pub fn size(&self) -> (r: usize)
        ensures
            r == self.bytes().len(),
    {
        self.data.len()
    }

    /// Copies `w` into the buffer at `offset`.
    fn put_bytes(&mut self, offset: usize, w: &Vec<u8>)
        requires
            offset + w@.len() <= old(self).bytes().len(),
        ensures
            final(self).bytes() == splice(old(self).bytes(), offset as int, w@),
            final(self).cpu_address() == old(self).cpu_address(),
            final(self).bus_address() == old(self).bus_address(),
    {
        let len = self.data.len();
        let mut k: usize = 0;
        while k < w.len()
            invariant
                k <= w@.len(),
                len == old(self).data@.len(),
                offset + w@.len() <= old(self).bytes().len(),
                self.data@.len() == old(self).data@.len(),
                self.virt_addr == old(self).virt_addr,
                self.dma_addr == old(self).dma_addr,
                forall|i: int|
                    0 <= i < self.data@.len() ==> #[trigger] self.data@[i] == if offset <= i
                        < offset + k {
                        w@[i - offset]
                    } else {
                        old(self).data@[i]
                    },
            decreases w@.len() - k,
        {
            self.data.set(offset + k, w[k]);
            k = k + 1;
        }
        assert(self.data@ =~= splice(old(self).data@, offset as int, w@));
    }

    /// Writes `data` into the buffer at byte `offset`; `Err(Invalid)` when it
    /// would not fit, the buffer then unchanged.
    pub fn write<T: WireEncode>(&mut self, offset: usize, data: &T) -> (r: Result<()>)
        ensures
            final(self).cpu_address() == old(self).cpu_address(),
            final(self).bus_address() == old(self).bus_address(),
            offset + T::wire_len() > old(self).bytes().len() ==> r == Err::<(), Error>(
                Error::Invalid,
            ) && final(self).bytes() == old(self).bytes(),
            offset + T::wire_len() <= old(self).bytes().len() ==> r == Ok::<(), Error>(())
                && final(self).bytes() == splice(old(self).bytes(), offset as int, data.wire_bytes()),
    {
        let n = T::wire_size();
        if offset > self.data.len() || n > self.data.len() - offset {
            return Err(Error::Invalid);
        }
        let w = data.to_wire();
        self.put_bytes(offset, &w);
        Ok(())
    }

    /// Reads a value from the buffer at byte `offset`; `Err(Invalid)` when it
    /// would not fit.
    pub fn read<T: WireDecode>(&self, offset: usize) -> (r: Result<T>)
        ensures
            offset + T::wire_len() > self.bytes().len() ==> r == Err::<T, Error>(Error::Invalid),
            offset + T::wire_len() <= self.bytes().len() ==> r == Ok::<T, Error>(
                T::from_wire(self.bytes().subrange(offset as int, offset + T::wire_len())),
            ),
    {
        let n = T::wire_size();
        if offset > self.data.len() || n > self.data.len() - offset {
            return Err(Error::Invalid);
        }
        let s = slice_subrange(self.data.as_slice(), offset, offset + n);
        Ok(T::read_wire(s))
    }

    /// Replaces the contents of the buffer by `src`, of the same length.
    pub fn load(&mut self, src: &[u8])
        requires
            src@.len() == old(self).bytes().len(),
        ensures
            final(self).bytes() == src@,
            final(self).cpu_address() == old(self).cpu_address(),
            final(self).bus_address() == old(self).bus_address(),
    {
        let mut k: usize = 0;
        while k < src.len()
            invariant
                k <= src@.len(),
                src@.len() == self.data@.len(),
                self.virt_addr == old(self).virt_addr,
                self.dma_addr == old(self).dma_addr,
                forall|i: int|
                    0 <= i < self.data@.len() ==> #[trigger] self.data@[i] == if i < k {
                        src@[i]
                    } else {
                        old(self).data@[i]
                    },
            decreases src@.len() - k,
        {
            self.data.set(k, src[k]);
            k = k + 1;
        }
        assert(self.data@ =~= src@);
    }

    /// The contents of the buffer.
    pub fn as_slice(&self) -> (r: &[u8])
        ensures
            r@ == self.bytes(),
    {
        self.data.as_slice()
    }

    /// The contents of the buffer, for writing in place.
    pub fn as_mut_slice(&mut self) -> (r: &mut [u8])
        ensures
            r@ == old(self).bytes(),
            final(self).bytes() == final(r)@,
            final(self).cpu_address() == old(self).cpu_address(),
            final(self).bus_address() == old(self).bus_address(),
    {
        self.data.as_mut_slice()
    }
}

/// What a value written at `offset` reads back as: a read at the same
/// offset, after a write that fit, gives the written value.
pub proof fn lemma_write_then_read<T: WireRoundTrip>(before: Seq<u8>, offset: int, x: T)
    requires
        0 <= offset,
        offset + T::wire_len() <= before.len(),
    ensures
        T::from_wire(
            splice(before, offset, x.wire_bytes()).subrange(offset, offset + T::wire_len()),
        ) == x,
        splice(before, offset, x.wire_bytes()).len() == before.len(),
{
    T::lemma_round_trip(x);
    assert(splice(before, offset, x.wire_bytes()).subrange(offset, offset + T::wire_len())
        =~= x.wire_bytes());
}

/// Identifier of a GEM object, as handed to user space.
#[derive(Debug, Clone, Copy, PartialEq, Eq, Structural)]
pub struct GemHandle(pub u32);

/// A GEM buffer object: its handle, size and the DMA buffer backing it, if any.
pub struct GemObject {
    handle: GemHandle,
    size: usize,
    dma_buffer: Option<DmaBuffer>,
}

impl GemObject {
    /// The handle of the object.
    pub closed spec fn gem_handle(&self) -> GemHandle {
        self.handle
    }

    /// The size of the object in bytes.
    pub closed spec fn gem_size(&self) -> usize {
        self.size
    }

    /// The DMA buffer attached to the object.
    pub closed spec fn backing(&self) -> Option<DmaBuffer> {
        self.dma_buffer
    }

    /// A new object with no DMA buffer attached.
    pub fn new(handle: GemHandle, size: usize) -> (r: Self)
        ensures
            r.gem_handle() == handle,
            r.gem_size() == size,
            r.backing() is None,
    {
        Self { handle, size, dma_buffer: None }
    }

    /// The handle of the object.
    pub fn handle(&self) -> (r: GemHandle)
        ensures
            r == self.gem_handle(),
    {
        self.handle
    }

    /// The size of the object in bytes.
    pub fn size(&self) -> (r: usize)
        ensures
            r == self.gem_size(),
    {
        self.size
    }

    /// Attaches `buffer` as the object's backing store, replacing any other.
    pub fn attach_dma_buffer(&mut self, buffer: DmaBuffer)
        ensures
            final(self).backing() == Some(buffer),
            final(self).gem_handle() == old(self).gem_handle(),
            final(self).gem_size() == old(self).gem_size(),
    {
        self.dma_buffer = Some(buffer);
    }

    /// The DMA buffer attached to the object, if any.
    pub fn dma_buffer(&self) -> (r: Option<&DmaBuffer>)
        ensures
            match r {
                Some(b) => self.backing() == Some(*b),
                None => self.backing() is None,
            },
    {
        self.dma_buffer.as_ref()
    }
}

/// Caching attributes of a memory allocation, as a bit set.
#[derive(Debug, Clone, Copy)]
pub struct MemoryFlags(pub u32);

impl MemoryFlags {
    pub const COHERENT: u32 = 1;
    pub const CACHED: u32 = 2;
    pub const WRITE_COMBINED: u32 = 4;

    /// Flags with the given bits.
    pub fn new(flags: u32) -> (r: Self)
        ensures
            r.0 == flags,
    {
        Self(flags)
    }

    /// The raw bits.
    pub fn bits(&self) -> (r: u32)
        ensures
            r == self.0,
    {
        self.0
    }

    /// Whether the COHERENT bit is set.
    pub fn is_coherent(&self) -> (r: bool)
        ensures
            r == (self.0 & Self::COHERENT != 0),
    {
        self.0 & Self::COHERENT != 0
    }

    /// Whether the CACHED bit is set.
    pub fn is_cached(&self) -> (r: bool)
        ensures
            r == (self.0 & Self::CACHED != 0),
    {
        self.0 & Self::CACHED != 0
    }

    /// Whether the WRITE_COMBINED bit is set.
    pub fn is_write_combined(&self) -> (r: bool)
        ensures
            r == (self.0 & Self::WRITE_COMBINED != 0),
    {
        self.0 & Self::WRITE_COMBINED != 0
    }
}

/// Each flag bit is read independently of the others: a set made of some of
/// the three bits reports exactly those bits.
pub proof fn lemma_flag_bits_independent(c: bool, k: bool, w: bool)
    ensures
        ({
            let bits: u32 = (if c { 1u32 } else { 0u32 }) | (if k { 2u32 } else { 0u32 }) | (if w {
                4u32
            } else {
                0u32
            });
            &&& (bits & 1u32 != 0) == c
            &&& (bits & 2u32 != 0) == k
            &&& (bits & 4u32 != 0) == w
        }),
{
    let cb: u32 = if c { 1u32 } else { 0u32 };
    let kb: u32 = if k { 2u32 } else { 0u32 };
    let wb: u32 = if w { 4u32 } else { 0u32 };
    assert(((cb | kb | wb) & 1u32 != 0) == (cb == 1u32) && ((cb | kb | wb) & 2u32 != 0) == (kb
        == 2u32) && ((cb | kb | wb) & 4u32 != 0) == (wb == 4u32)) by (bit_vector)
        requires
            cb == 0u32 || cb == 1u32,
            kb == 0u32 || kb == 2u32,
            wb == 0u32 || wb == 4u32,
    ;
}

} // verus!
