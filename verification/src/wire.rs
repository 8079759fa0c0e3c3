//! Byte layout of values stored in DMA memory and in the GSP queue.
//!
//! Every value has a fixed size on the wire; integers are little-endian and
//! structures are laid out field by field as a C compiler would lay them out,
//! with zero bytes as padding.
use vstd::prelude::*;
use vstd::bytes::{
    spec_u16_from_le_bytes, spec_u16_to_le_bytes, spec_u32_from_le_bytes,
    spec_u32_to_le_bytes, spec_u64_from_le_bytes, spec_u64_to_le_bytes, u16_from_le_bytes,
    u16_to_le_bytes, u32_from_le_bytes, u32_to_le_bytes, u64_from_le_bytes, u64_to_le_bytes,
    lemma_auto_spec_u16_to_from_le_bytes, lemma_auto_spec_u32_to_from_le_bytes,
    lemma_auto_spec_u64_to_from_le_bytes,
};

verus! {

/// A type with a fixed number of bytes on the wire.
pub trait WireLayout: Sized {
    /// Number of bytes a value occupies.
    spec fn wire_len() -> nat;

    /// Every value occupies at least one byte.
    proof fn lemma_wire_len_positive()
        ensures
            Self::wire_len() > 0,
    ;

    /// Number of bytes a value occupies, at run time.
    fn wire_size() -> (n: usize)
        ensures
            n as nat == Self::wire_len(),
            n > 0,
    ;
}

/// A type that can be written as bytes.
pub trait WireEncode: WireLayout {
    /// The bytes that stand for a value.
    spec fn wire_bytes(&self) -> Seq<u8>;

    /// The bytes of every value have the type's length.
    proof fn lemma_encoded_len(&self)
        ensures
            self.wire_bytes().len() == Self::wire_len(),
    ;

    /// Writes a value as bytes.
    fn to_wire(&self) -> (r: Vec<u8>)
        ensures
            r@ == self.wire_bytes(),
            r@.len() == Self::wire_len(),
    ;
}

/// A type that can be read back from bytes.
pub trait WireDecode: WireLayout {
    /// The value that a run of `wire_len()` bytes stands for.
    spec fn from_wire(bytes: Seq<u8>) -> Self;

    /// Reads a value from exactly `wire_len()` bytes.
    fn read_wire(bytes: &[u8]) -> (r: Self)
        requires
            bytes@.len() == Self::wire_len(),
        ensures
            r == Self::from_wire(bytes@),
    ;
}

/// A type whose bytes read back as the value that was written.
pub trait WireRoundTrip: WireEncode + WireDecode {
    /// Reading the bytes of a value gives the value back.
    proof fn lemma_round_trip(x: Self)
        ensures
            Self::from_wire(x.wire_bytes()) == x,
            x.wire_bytes().len() == Self::wire_len(),
    ;
}

/// `n` zero bytes, used as padding.
pub open spec fn zeros(n: nat) -> Seq<u8> {
    Seq::new(n, |i: int| 0u8)
}

/// Appends `n` zero bytes to `v`.
pub fn push_zeros(v: &mut Vec<u8>, n: usize)
    ensures
        final(v)@ == old(v)@ + zeros(n as nat),
{
    let mut k: usize = 0;
    while k < n
        invariant
            k <= n,
            v@ == old(v)@ + zeros(k as nat),
        decreases n - k,
    {
        v.push(0u8);
        k = k + 1;
        assert(v@ =~= old(v)@ + zeros(k as nat));
    }
}

impl WireLayout for u8 {
    open spec fn wire_len() -> nat {
        1
    }

    proof fn lemma_wire_len_positive() {
    }

    fn wire_size() -> (n: usize) {
        1
    }
}

impl WireEncode for u8 {
    open spec fn wire_bytes(&self) -> Seq<u8> {
        seq![*self]
    }

    proof fn lemma_encoded_len(&self) {
        
    }

    fn to_wire(&self) -> (r: Vec<u8>) {
        let mut v: Vec<u8> = Vec::new();
        v.push(*self);
        assert(v@ =~= seq![*self]);
        v
    }
}

impl WireDecode for u8 {
    open spec fn from_wire(bytes: Seq<u8>) -> Self {
        bytes[0]
    }

    fn read_wire(bytes: &[u8]) -> (r: Self) {
        bytes[0]
    }
}

impl WireRoundTrip for u8 {
    proof fn lemma_round_trip(x: Self) {
    }
}

impl WireLayout for u16 {
    open spec fn wire_len() -> nat {
        2
    }

    proof fn lemma_wire_len_positive() {
    }

    fn wire_size() -> (n: usize) {
        2
    }
}

impl WireEncode for u16 {
    open spec fn wire_bytes(&self) -> Seq<u8> {
        spec_u16_to_le_bytes(*self)
    }

    proof fn lemma_encoded_len(&self) {
        lemma_auto_spec_u16_to_from_le_bytes();
    }

    fn to_wire(&self) -> (r: Vec<u8>) {
        u16_to_le_bytes(*self)
    }
}

impl WireDecode for u16 {
    open spec fn from_wire(bytes: Seq<u8>) -> Self {
        spec_u16_from_le_bytes(bytes)
    }

    fn read_wire(bytes: &[u8]) -> (r: Self) {
        u16_from_le_bytes(bytes)
    }
}

impl WireRoundTrip for u16 {
    proof fn lemma_round_trip(x: Self) {
        lemma_auto_spec_u16_to_from_le_bytes();
    }
}

impl WireLayout for u32 {
    open spec fn wire_len() -> nat {
        4
    }

    proof fn lemma_wire_len_positive() {
    }

    fn wire_size() -> (n: usize) {
        4
    }
}

impl WireEncode for u32 {
    open spec fn wire_bytes(&self) -> Seq<u8> {
        spec_u32_to_le_bytes(*self)
    }

    proof fn lemma_encoded_len(&self) {
        lemma_auto_spec_u32_to_from_le_bytes();
    }

    fn to_wire(&self) -> (r: Vec<u8>) {
        u32_to_le_bytes(*self)
    }
}

impl WireDecode for u32 {
    open spec fn from_wire(bytes: Seq<u8>) -> Self {
        spec_u32_from_le_bytes(bytes)
    }

    fn read_wire(bytes: &[u8]) -> (r: Self) {
        u32_from_le_bytes(bytes)
    }
}

impl WireRoundTrip for u32 {
    proof fn lemma_round_trip(x: Self) {
        lemma_auto_spec_u32_to_from_le_bytes();
    }
}

impl WireLayout for u64 {
    open spec fn wire_len() -> nat {
        8
    }

    proof fn lemma_wire_len_positive() {
    }

    fn wire_size() -> (n: usize) {
        8
    }
}

impl WireEncode for u64 {
    open spec fn wire_bytes(&self) -> Seq<u8> {
        spec_u64_to_le_bytes(*self)
    }

    proof fn lemma_encoded_len(&self) {
        lemma_auto_spec_u64_to_from_le_bytes();
    }

    fn to_wire(&self) -> (r: Vec<u8>) {
        u64_to_le_bytes(*self)
    }
}

impl WireDecode for u64 {
    open spec fn from_wire(bytes: Seq<u8>) -> Self {
        spec_u64_from_le_bytes(bytes)
    }

    fn read_wire(bytes: &[u8]) -> (r: Self) {
        u64_from_le_bytes(bytes)
    }
}

impl WireRoundTrip for u64 {
    proof fn lemma_round_trip(x: Self) {
        lemma_auto_spec_u64_to_from_le_bytes();
    }
}

} // verus!
