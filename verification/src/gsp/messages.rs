//! GSP messages and their layout in the queue.
//!
//! Each message starts with a 16-byte header; fields follow in declaration
//! order, little-endian, aligned as in a C structure, padding bytes zero.
use vstd::prelude::*;
use vstd::slice::slice_subrange;
use vstd::bytes::{
    spec_u16_from_le_bytes, spec_u16_to_le_bytes, spec_u32_from_le_bytes,
    spec_u32_to_le_bytes, spec_u64_from_le_bytes, spec_u64_to_le_bytes, u16_from_le_bytes,
    u16_to_le_bytes, u32_from_le_bytes, u32_to_le_bytes, u64_from_le_bytes, u64_to_le_bytes,
    lemma_auto_spec_u16_to_from_le_bytes, lemma_auto_spec_u32_to_from_le_bytes,
    lemma_auto_spec_u64_to_from_le_bytes,
};
use crate::wire::{
    WireDecode, WireEncode, WireLayout, WireRoundTrip, push_zeros, zeros,
};

verus! {

/// The engine a job runs on.
#[derive(Debug, Clone, Copy, PartialEq, Eq, Structural)]
pub enum JobType {
    Graphics,
    Compute,
    Copy,
    VideoDecode,
    VideoEncode,
}

/// The number that stands for a job type on the wire.
pub open spec fn job_type_code(j: JobType) -> u8 {
    match j {
        JobType::Graphics => 0,
        JobType::Compute => 1,
        JobType::Copy => 2,
        JobType::VideoDecode => 3,
        JobType::VideoEncode => 4,
    }
}

impl JobType {
    /// The number that stands for this job type on the wire.
    pub fn code(self) -> (r: u8)
        ensures
            r == job_type_code(self),
    {
        match self {
            JobType::Graphics => 0,
            JobType::Compute => 1,
            JobType::Copy => 2,
            JobType::VideoDecode => 3,
            JobType::VideoEncode => 4,
        }
    }
}

/// Header of every GSP message.
#[derive(Debug, Clone, Copy, PartialEq, Eq, Structural)]
pub struct GspMessage {
    pub sequence: u32,
    pub unit_id: u8,
    pub size: u16,
    pub category: u8,
    pub status: u32,
}

impl GspMessage {
    /// A header for message number `sequence` of `category`, `size` bytes
    /// long, for unit 0 with status 0.
    pub fn new(sequence: u32, category: u8, size: u16) -> (r: Self)
        ensures
            r == (GspMessage { sequence, unit_id: 0, size, category, status: 0 }),
    {
        Self { sequence, unit_id: 0, size, category, status: 0 }
    }
}

impl WireLayout for GspMessage {
    open spec fn wire_len() -> nat {
        16
    }

    proof fn lemma_wire_len_positive() {
    }

    fn wire_size() -> (n: usize) {
        16
    }
}

impl WireEncode for GspMessage {
    open spec fn wire_bytes(&self) -> Seq<u8> {
        spec_u32_to_le_bytes(self.sequence) + seq![self.unit_id] + zeros(1) + spec_u16_to_le_bytes(
            self.size,
        ) + seq![self.category] + zeros(3) + spec_u32_to_le_bytes(self.status)
    }

    proof fn lemma_encoded_len(&self) {
        lemma_auto_spec_u16_to_from_le_bytes();
        lemma_auto_spec_u32_to_from_le_bytes();
    }

    fn to_wire(&self) -> (r: Vec<u8>) {
        proof {
            lemma_auto_spec_u16_to_from_le_bytes();
            lemma_auto_spec_u32_to_from_le_bytes();
        }
        let mut v = u32_to_le_bytes(self.sequence);
        v.push(self.unit_id);
        push_zeros(&mut v, 1);
        let mut s = u16_to_le_bytes(self.size);
        v.append(&mut s);
        v.push(self.category);
        push_zeros(&mut v, 3);
        let mut st = u32_to_le_bytes(self.status);
        v.append(&mut st);
        assert(v@ =~= self.wire_bytes());
        v
    }
}

impl WireDecode for GspMessage {
    open spec fn from_wire(b: Seq<u8>) -> Self {
        GspMessage {
            sequence: spec_u32_from_le_bytes(b.subrange(0, 4)),
            unit_id: b[4],
            size: spec_u16_from_le_bytes(b.subrange(6, 8)),
            category: b[8],
            status: spec_u32_from_le_bytes(b.subrange(12, 16)),
        }
    }

    fn read_wire(b: &[u8]) -> (r: Self) {
        GspMessage {
            sequence: u32_from_le_bytes(slice_subrange(b, 0, 4)),
            unit_id: b[4],
            size: u16_from_le_bytes(slice_subrange(b, 6, 8)),
            category: b[8],
            status: u32_from_le_bytes(slice_subrange(b, 12, 16)),
        }
    }
}

impl WireRoundTrip for GspMessage {
    proof fn lemma_round_trip(x: Self) {
        lemma_auto_spec_u16_to_from_le_bytes();
        lemma_auto_spec_u32_to_from_le_bytes();
        let b = x.wire_bytes();
        assert(b.subrange(0, 4) =~= spec_u32_to_le_bytes(x.sequence));
        assert(b.subrange(6, 8) =~= spec_u16_to_le_bytes(x.size));
        assert(b.subrange(12, 16) =~= spec_u32_to_le_bytes(x.status));
    }
}

/// A job for the GSP to run.
#[derive(Debug, Clone, Copy)]
pub struct JobSubmitMessage {
    pub header: GspMessage,
    pub job_type: JobType,
    pub context_handle: u32,
    pub cmd_buffer_addr: u64,
    pub cmd_buffer_size: u32,
    pub fence_id: u64,
}

impl WireLayout for JobSubmitMessage {
    open spec fn wire_len() -> nat {
        48
    }

    proof fn lemma_wire_len_positive() {
    }

    fn wire_size() -> (n: usize) {
        48
    }
}

impl WireEncode for JobSubmitMessage {
    open spec fn wire_bytes(&self) -> Seq<u8> {
        self.header.wire_bytes() + seq![job_type_code(self.job_type)] + zeros(3)
            + spec_u32_to_le_bytes(self.context_handle) + spec_u64_to_le_bytes(
            self.cmd_buffer_addr,
        ) + spec_u32_to_le_bytes(self.cmd_buffer_size) + zeros(4) + spec_u64_to_le_bytes(
            self.fence_id,
        )
    }

    proof fn lemma_encoded_len(&self) {
        self.header.lemma_encoded_len();
        lemma_auto_spec_u32_to_from_le_bytes();
        lemma_auto_spec_u64_to_from_le_bytes();
    }

    fn to_wire(&self) -> (r: Vec<u8>) {
        proof {
            self.header.lemma_encoded_len();
            lemma_auto_spec_u32_to_from_le_bytes();
            lemma_auto_spec_u64_to_from_le_bytes();
        }
        let mut v = self.header.to_wire();
        v.push(self.job_type.code());
        push_zeros(&mut v, 3);
        let mut a = u32_to_le_bytes(self.context_handle);
        v.append(&mut a);
        let mut b = u64_to_le_bytes(self.cmd_buffer_addr);
        v.append(&mut b);
        let mut c = u32_to_le_bytes(self.cmd_buffer_size);
        v.append(&mut c);
        push_zeros(&mut v, 4);
        let mut d = u64_to_le_bytes(self.fence_id);
        v.append(&mut d);
        assert(v@ =~= self.wire_bytes());
        v
    }
}

/// The GSP reports that the job with `fence_id` ended with `status`.
#[derive(Debug, Clone, Copy, PartialEq, Eq, Structural)]
pub struct JobCompleteMessage {
    pub header: GspMessage,
    pub fence_id: u64,
    pub status: u32,
}

impl WireLayout for JobCompleteMessage {
    open spec fn wire_len() -> nat {
        32
    }

    proof fn lemma_wire_len_positive() {
    }

    fn wire_size() -> (n: usize) {
        32
    }
}

impl WireEncode for JobCompleteMessage {
    open spec fn wire_bytes(&self) -> Seq<u8> {
        self.header.wire_bytes() + spec_u64_to_le_bytes(self.fence_id) + spec_u32_to_le_bytes(
            self.status,
        ) + zeros(4)
    }

    proof fn lemma_encoded_len(&self) {
        self.header.lemma_encoded_len();
        lemma_auto_spec_u32_to_from_le_bytes();
        lemma_auto_spec_u64_to_from_le_bytes();
    }

    fn to_wire(&self) -> (r: Vec<u8>) {
        proof {
            self.header.lemma_encoded_len();
            lemma_auto_spec_u32_to_from_le_bytes();
            lemma_auto_spec_u64_to_from_le_bytes();
        }
        let mut v = self.header.to_wire();
        let mut a = u64_to_le_bytes(self.fence_id);
        v.append(&mut a);
        let mut b = u32_to_le_bytes(self.status);
        v.append(&mut b);
        push_zeros(&mut v, 4);
        assert(v@ =~= self.wire_bytes());
        v
    }
}

impl WireDecode for JobCompleteMessage {
    open spec fn from_wire(b: Seq<u8>) -> Self {
        JobCompleteMessage {
            header: GspMessage::from_wire(b.subrange(0, 16)),
            fence_id: spec_u64_from_le_bytes(b.subrange(16, 24)),
            status: spec_u32_from_le_bytes(b.subrange(24, 28)),
        }
    }

    fn read_wire(b: &[u8]) -> (r: Self) {
        JobCompleteMessage {
            header: GspMessage::read_wire(slice_subrange(b, 0, 16)),
            fence_id: u64_from_le_bytes(slice_subrange(b, 16, 24)),
            status: u32_from_le_bytes(slice_subrange(b, 24, 28)),
        }
    }
}

impl WireRoundTrip for JobCompleteMessage {
    proof fn lemma_round_trip(x: Self) {
        x.header.lemma_encoded_len();
        GspMessage::lemma_round_trip(x.header);
        lemma_auto_spec_u32_to_from_le_bytes();
        lemma_auto_spec_u64_to_from_le_bytes();
        let b = x.wire_bytes();
        assert(b.subrange(0, 16) =~= x.header.wire_bytes());
        assert(b.subrange(16, 24) =~= spec_u64_to_le_bytes(x.fence_id));
        assert(b.subrange(24, 28) =~= spec_u32_to_le_bytes(x.status));
    }
}

/// A request to the GSP to allocate, free, map or unmap memory.
#[derive(Debug, Clone, Copy)]
pub struct MemoryAllocMessage {
    pub header: GspMessage,
    pub op: u8,
    pub size: u64,
    pub flags: u32,
}

impl WireLayout for MemoryAllocMessage {
    open spec fn wire_len() -> nat {
        40
    }

    proof fn lemma_wire_len_positive() {
    }

    fn wire_size() -> (n: usize) {
        40
    }
}

impl WireEncode for MemoryAllocMessage {
    open spec fn wire_bytes(&self) -> Seq<u8> {
        self.header.wire_bytes() + seq![self.op] + zeros(7) + spec_u64_to_le_bytes(self.size)
            + spec_u32_to_le_bytes(self.flags) + zeros(4)
    }

    proof fn lemma_encoded_len(&self) {
        self.header.lemma_encoded_len();
        lemma_auto_spec_u32_to_from_le_bytes();
        lemma_auto_spec_u64_to_from_le_bytes();
    }

    fn to_wire(&self) -> (r: Vec<u8>) {
        proof {
            self.header.lemma_encoded_len();
            lemma_auto_spec_u32_to_from_le_bytes();
            lemma_auto_spec_u64_to_from_le_bytes();
        }
        let mut v = self.header.to_wire();
        v.push(self.op);
        push_zeros(&mut v, 7);
        let mut a = u64_to_le_bytes(self.size);
        v.append(&mut a);
        let mut b = u32_to_le_bytes(self.flags);
        v.append(&mut b);
        push_zeros(&mut v, 4);
        assert(v@ =~= self.wire_bytes());
        v
    }
}

/// The GSP's answer to a memory request: the handle and GPU address.
#[derive(Debug, Clone, Copy, PartialEq, Eq, Structural)]
pub struct MemoryResponseMessage {
    pub header: GspMessage,
    pub handle: u32,
    pub gpu_addr: u64,
}

impl WireLayout for MemoryResponseMessage {
    open spec fn wire_len() -> nat {
        32
    }

    proof fn lemma_wire_len_positive() {
    }

    fn wire_size() -> (n: usize) {
        32
    }
}

impl WireEncode for MemoryResponseMessage {
    open spec fn wire_bytes(&self) -> Seq<u8> {
        self.header.wire_bytes() + spec_u32_to_le_bytes(self.handle) + zeros(4)
            + spec_u64_to_le_bytes(self.gpu_addr)
    }

    proof fn lemma_encoded_len(&self) {
        self.header.lemma_encoded_len();
        lemma_auto_spec_u32_to_from_le_bytes();
        lemma_auto_spec_u64_to_from_le_bytes();
    }

    fn to_wire(&self) -> (r: Vec<u8>) {
        proof {
            self.header.lemma_encoded_len();
            lemma_auto_spec_u32_to_from_le_bytes();
            lemma_auto_spec_u64_to_from_le_bytes();
        }
        let mut v = self.header.to_wire();
        let mut a = u32_to_le_bytes(self.handle);
        v.append(&mut a);
        push_zeros(&mut v, 4);
        let mut b = u64_to_le_bytes(self.gpu_addr);
        v.append(&mut b);
        assert(v@ =~= self.wire_bytes());
        v
    }
}

impl WireDecode for MemoryResponseMessage {
    open spec fn from_wire(b: Seq<u8>) -> Self {
        MemoryResponseMessage {
            header: GspMessage::from_wire(b.subrange(0, 16)),
            handle: spec_u32_from_le_bytes(b.subrange(16, 20)),
            gpu_addr: spec_u64_from_le_bytes(b.subrange(24, 32)),
        }
    }

    fn read_wire(b: &[u8]) -> (r: Self) {
        MemoryResponseMessage {
            header: GspMessage::read_wire(slice_subrange(b, 0, 16)),
            handle: u32_from_le_bytes(slice_subrange(b, 16, 20)),
            gpu_addr: u64_from_le_bytes(slice_subrange(b, 24, 32)),
        }
    }
}

impl WireRoundTrip for MemoryResponseMessage {
    proof fn lemma_round_trip(x: Self) {
        x.header.lemma_encoded_len();
        GspMessage::lemma_round_trip(x.header);
        lemma_auto_spec_u32_to_from_le_bytes();
        lemma_auto_spec_u64_to_from_le_bytes();
        let b = x.wire_bytes();
        assert(b.subrange(0, 16) =~= x.header.wire_bytes());
        assert(b.subrange(16, 20) =~= spec_u32_to_le_bytes(x.handle));
        assert(b.subrange(24, 32) =~= spec_u64_to_le_bytes(x.gpu_addr));
    }
}

/// The GSP reports an error with a code and further information.
#[derive(Debug, Clone, Copy, PartialEq, Eq, Structural)]
pub struct ErrorMessage {
    pub header: GspMessage,
    pub error_code: u32,
    pub error_info: u64,
}

impl WireLayout for ErrorMessage {
    open spec fn wire_len() -> nat {
        32
    }

    proof fn lemma_wire_len_positive() {
    }

    fn wire_size() -> (n: usize) {
        32
    }
}

impl WireEncode for ErrorMessage {
    open spec fn wire_bytes(&self) -> Seq<u8> {
        self.header.wire_bytes() + spec_u32_to_le_bytes(self.error_code) + zeros(4)
            + spec_u64_to_le_bytes(self.error_info)
    }

    proof fn lemma_encoded_len(&self) {
        self.header.lemma_encoded_len();
        lemma_auto_spec_u32_to_from_le_bytes();
        lemma_auto_spec_u64_to_from_le_bytes();
    }

    fn to_wire(&self) -> (r: Vec<u8>) {
        proof {
            self.header.lemma_encoded_len();
            lemma_auto_spec_u32_to_from_le_bytes();
            lemma_auto_spec_u64_to_from_le_bytes();
        }
        let mut v = self.header.to_wire();
        let mut a = u32_to_le_bytes(self.error_code);
        v.append(&mut a);
        push_zeros(&mut v, 4);
        let mut b = u64_to_le_bytes(self.error_info);
        v.append(&mut b);
        assert(v@ =~= self.wire_bytes());
        v
    }
}

impl WireDecode for ErrorMessage {
    open spec fn from_wire(b: Seq<u8>) -> Self {
        ErrorMessage {
            header: GspMessage::from_wire(b.subrange(0, 16)),
            error_code: spec_u32_from_le_bytes(b.subrange(16, 20)),
            error_info: spec_u64_from_le_bytes(b.subrange(24, 32)),
        }
    }

    fn read_wire(b: &[u8]) -> (r: Self) {
        ErrorMessage {
            header: GspMessage::read_wire(slice_subrange(b, 0, 16)),
            error_code: u32_from_le_bytes(slice_subrange(b, 16, 20)),
            error_info: u64_from_le_bytes(slice_subrange(b, 24, 32)),
        }
    }
}

impl WireRoundTrip for ErrorMessage {
    proof fn lemma_round_trip(x: Self) {
        x.header.lemma_encoded_len();
        GspMessage::lemma_round_trip(x.header);
        lemma_auto_spec_u32_to_from_le_bytes();
        lemma_auto_spec_u64_to_from_le_bytes();
        let b = x.wire_bytes();
        assert(b.subrange(0, 16) =~= x.header.wire_bytes());
        assert(b.subrange(16, 20) =~= spec_u32_to_le_bytes(x.error_code));
        assert(b.subrange(24, 32) =~= spec_u64_to_le_bytes(x.error_info));
    }
}

} // verus!
