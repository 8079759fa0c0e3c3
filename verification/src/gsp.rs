//! Communication with the GPU System Processor (GSP): the messages, the
//! queue they travel through and the client that sends and receives them.
//!
//! Copying the queue to and from device memory, and ringing the mailbox
//! doorbell, are I/O and are left to the caller: after a message was queued
//! (`Ok`), copy `queue_buffer()` to the device and write 1 to
//! `mailbox::DOORBELL`; before polling, read the device memory back with
//! `load_queue`.
use vstd::prelude::*;
use crate::error::{Error, Result};
use crate::memory::DmaBuffer;
use crate::wire::{WireDecode, WireEncode, WireLayout, WireRoundTrip};
use vstd::bytes::{
    spec_u16_from_le_bytes, spec_u16_to_le_bytes, spec_u32_from_le_bytes, spec_u32_to_le_bytes,
    spec_u64_from_le_bytes, spec_u64_to_le_bytes, lemma_auto_spec_u16_to_from_le_bytes,
    lemma_auto_spec_u32_to_from_le_bytes, lemma_auto_spec_u64_to_from_le_bytes,
};

pub mod category;
pub mod mailbox;
pub mod memory_op;
mod messages;
mod ring;

pub use messages::{
    ErrorMessage, GspMessage, JobCompleteMessage, JobSubmitMessage, JobType, MemoryAllocMessage,
    MemoryResponseMessage, job_type_code,
};
pub use ring::{
    RingBuffer, RingView, decoded, lemma_read_takes_front, lemma_ring_fifo, lemma_ring_round_trip,
    lemma_ring_space, lemma_write_appends, ring_index, ring_offset,
};

verus! {

/// A message received from the GSP.
#[derive(Debug, Clone, Copy, PartialEq, Eq, Structural)]
pub enum GspResponse {
    JobComplete { fence_id: u64, status: u32 },
    MemoryAlloc { handle: u32, addr: u64 },
    Error { code: u32, info: u64 },
}

/// The mailbox registers of the GSP, at `base_addr`.
pub struct MailboxRegs {
    base_addr: usize,
}

impl MailboxRegs {
    /// The base address of the mailbox registers.
    pub closed spec fn base(&self) -> usize {
        self.base_addr
    }

    /// Mailbox registers at `base_addr`.
    pub fn new(base_addr: usize) -> (r: Self)
        ensures
            r.base() == base_addr,
    {
        Self { base_addr }
    }

    /// The base address of the mailbox registers.
    pub fn base_addr(&self) -> (r: usize)
        ensures
            r == self.base(),
    {
        self.base_addr
    }
}

/// The sequence number that follows `s`, wrapping to 0 after the largest.
pub open spec fn next_sequence_number(s: u32) -> u32 {
    if s == u32::MAX {
        0
    } else {
        (s + 1) as u32
    }
}

/// Sequence numbers count up by one, modulo 2^32.
pub proof fn lemma_sequence_counts_up(s: u32)
    ensures
        next_sequence_number(s) as int == (s as int + 1) % 0x1_0000_0000,
{
}

/// The message that submits a job.
pub open spec fn job_submit_message(
    sequence: u32,
    job_type: JobType,
    context_handle: u32,
    cmd_buffer: DmaBuffer,
    fence_id: u64,
) -> JobSubmitMessage {
    JobSubmitMessage {
        header: GspMessage {
            sequence,
            unit_id: 0,
            size: JobSubmitMessage::wire_len() as u16,
            category: category::JOB_SUBMIT,
            status: 0,
        },
        job_type,
        context_handle,
        cmd_buffer_addr: cmd_buffer.bus_address(),
        cmd_buffer_size: cmd_buffer.bytes().len() as u32,
        fence_id,
    }
}

/// The message that asks for `size` bytes of memory with `flags`.
pub open spec fn memory_alloc_message(sequence: u32, size: usize, flags: u32) -> MemoryAllocMessage {
    MemoryAllocMessage {
        header: GspMessage {
            sequence,
            unit_id: 0,
            size: MemoryAllocMessage::wire_len() as u16,
            category: category::MEMORY,
            status: 0,
        },
        op: memory_op::ALLOC,
        size: size as u64,
        flags,
    }
}

/// `rest` with `resp` received before it.
pub open spec fn with_response(
    resp: GspResponse,
    rest: (Seq<GspResponse>, RingView),
) -> (Seq<GspResponse>, RingView) {
    (seq![resp] + rest.0, rest.1)
}

/// The response carried by a whole message of category `cat`, whose bytes
/// (header included) are `body`.
pub open spec fn response_of(cat: u8, body: Seq<u8>) -> GspResponse {
    if cat == category::JOB_COMPLETE {
        let m = JobCompleteMessage::from_wire(body);
        GspResponse::JobComplete { fence_id: m.fence_id, status: m.status }
    } else if cat == category::MEMORY_RESPONSE {
        let m = MemoryResponseMessage::from_wire(body);
        GspResponse::MemoryAlloc { handle: m.handle, addr: m.gpu_addr }
    } else {
        let m = ErrorMessage::from_wire(body);
        GspResponse::Error { code: m.error_code, info: m.error_info }
    }
}

/// Whether messages of category `cat` carry a response.
pub open spec fn has_response(cat: u8) -> bool {
    cat == category::JOB_COMPLETE || cat == category::MEMORY_RESPONSE || cat == category::ERROR
}

/// Length of a response message: each kind is 32 bytes long.
pub open spec fn response_len() -> nat {
    32
}

/// Number of bytes skipped for a message of another category whose header
/// gives `size`: the whole message, and at least its header.
pub open spec fn skip_len(size: u16) -> nat {
    if size < 16 {
        16
    } else {
        size as nat
    }
}

/// What draining the queue `r` returns, and the queue it leaves.
///
/// The header at the read position is looked at without being consumed.
/// For a response category the whole response message is read and turned
/// into a `GspResponse`; any other message is skipped as a whole, by the
/// size its header gives. Draining stops, leaving the message in the queue,
/// when no whole header or message is pending.
pub open spec fn poll_outcome(r: RingView) -> (Seq<GspResponse>, RingView)
    decreases r.available_read(),
    via poll_outcome_decreases
{
    if !r.wf() {
        (Seq::empty(), r)
    } else {
        match r.read_outcome(GspMessage::wire_len()).0 {
            None => (Seq::empty(), r),
            Some(hb) => {
                let h = GspMessage::from_wire(hb);
                if has_response(h.category) {
                    match r.read_outcome(response_len()) {
                        (None, _) => (Seq::empty(), r),
                        (Some(body), s) => with_response(
                            response_of(h.category, body),
                            poll_outcome(s),
                        ),
                    }
                } else if skip_len(h.size) <= r.available_read() {
                    poll_outcome(r.read_outcome(skip_len(h.size)).1)
                } else {
                    (Seq::empty(), r)
                }
            },
        }
    }
}

#[via_fn]
proof fn poll_outcome_decreases(r: RingView) {
    if r.wf() {
        if r.read_outcome(16).0 is Some {
            let h = GspMessage::from_wire(r.read_outcome(16).0->Some_0);
            if r.read_outcome(32).0 is Some {
                lemma_read_takes_front(r, 32);
            }
            if skip_len(h.size) <= r.available_read() {
                lemma_read_takes_front(r, skip_len(h.size));
            }
        }
    }
}

/// A response message as it lies in the queue.
pub enum ResponseMessage {
    JobComplete(JobCompleteMessage),
    MemoryResponse(MemoryResponseMessage),
    Error(ErrorMessage),
}

impl ResponseMessage {
    /// The bytes of the message.
    pub open spec fn bytes(self) -> Seq<u8> {
        match self {
            ResponseMessage::JobComplete(m) => m.wire_bytes(),
            ResponseMessage::MemoryResponse(m) => m.wire_bytes(),
            ResponseMessage::Error(m) => m.wire_bytes(),
        }
    }

    /// The response the message carries.
    pub open spec fn response(self) -> GspResponse {
        match self {
            ResponseMessage::JobComplete(m) => GspResponse::JobComplete {
                fence_id: m.fence_id,
                status: m.status,
            },
            ResponseMessage::MemoryResponse(m) => GspResponse::MemoryAlloc {
                handle: m.handle,
                addr: m.gpu_addr,
            },
            ResponseMessage::Error(m) => GspResponse::Error {
                code: m.error_code,
                info: m.error_info,
            },
        }
    }

    /// The header's category is the one of the message's kind.
    pub open spec fn categorised(self) -> bool {
        match self {
            ResponseMessage::JobComplete(m) => m.header.category == category::JOB_COMPLETE,
            ResponseMessage::MemoryResponse(m) => m.header.category == category::MEMORY_RESPONSE,
            ResponseMessage::Error(m) => m.header.category == category::ERROR,
        }
    }
}

/// The bytes of `ms`, one message after the other.
pub open spec fn response_stream(ms: Seq<ResponseMessage>) -> Seq<u8>
    decreases ms.len(),
{
    if ms.len() == 0 {
        Seq::empty()
    } else {
        ms[0].bytes() + response_stream(ms.drop_first())
    }
}

/// The responses carried by `ms`, in order.
pub open spec fn responses_of(ms: Seq<ResponseMessage>) -> Seq<GspResponse> {
    ms.map_values(|m: ResponseMessage| m.response())
}

proof fn lemma_response_message_bytes(m: ResponseMessage)
    requires
        m.categorised(),
    ensures
        m.bytes().len() == response_len(),
        has_response(GspMessage::from_wire(m.bytes().subrange(0, 16)).category),
        response_of(GspMessage::from_wire(m.bytes().subrange(0, 16)).category, m.bytes())
            == m.response(),
{
    match m {
        ResponseMessage::JobComplete(x) => {
            x.lemma_encoded_len();
            x.header.lemma_encoded_len();
            JobCompleteMessage::lemma_round_trip(x);
            GspMessage::lemma_round_trip(x.header);
            assert(x.wire_bytes().subrange(0, 16) =~= x.header.wire_bytes());
        },
        ResponseMessage::MemoryResponse(x) => {
            x.lemma_encoded_len();
            x.header.lemma_encoded_len();
            MemoryResponseMessage::lemma_round_trip(x);
            GspMessage::lemma_round_trip(x.header);
            assert(x.wire_bytes().subrange(0, 16) =~= x.header.wire_bytes());
        },
        ResponseMessage::Error(x) => {
            x.lemma_encoded_len();
            x.header.lemma_encoded_len();
            ErrorMessage::lemma_round_trip(x);
            GspMessage::lemma_round_trip(x.header);
            assert(x.wire_bytes().subrange(0, 16) =~= x.header.wire_bytes());
        },
    }
}

/// Response messages queued one after the other are returned by draining
/// the queue, in the order they were queued, and the queue is left empty.
pub proof fn lemma_poll_returns_queued_responses(r: RingView, ms: Seq<ResponseMessage>)
    requires
        r.wf(),
        r.pending() == response_stream(ms),
        forall|i: int| 0 <= i < ms.len() ==> (#[trigger] ms[i]).categorised(),
    ensures
        poll_outcome(r).0 == responses_of(ms),
        poll_outcome(r).1.available_read() == 0,
    decreases ms.len(),
{
    if ms.len() == 0 {
        assert(r.pending().len() == 0);
        assert(responses_of(ms) =~= Seq::<GspResponse>::empty());
    } else {
        let m = ms[0];
        let rest = ms.drop_first();
        lemma_response_message_bytes(m);
        let b = m.bytes();
        assert(r.pending() == b + response_stream(rest));
        assert(r.pending().len() == r.available_read());
        lemma_read_takes_front(r, 16);
        assert(r.pending().subrange(0, 16) =~= b.subrange(0, 16));
        lemma_read_takes_front(r, 32);
        assert(r.pending().subrange(0, 32) =~= b);
        let s = r.read_outcome(32).1;
        assert(s.pending() =~= response_stream(rest));
        assert forall|i: int| 0 <= i < rest.len() implies (#[trigger] rest[i]).categorised() by {
            assert(rest[i] == ms[i + 1]);
        }
        lemma_poll_returns_queued_responses(s, rest);
        assert(responses_of(ms) =~= seq![m.response()] + responses_of(rest));
    }
}

/// A message that carries no response, as it lies in the queue: its header
/// and the bytes that follow the header.
pub struct SkippedMessage {
    pub header: GspMessage,
    pub payload: Seq<u8>,
}

impl SkippedMessage {
    /// The category is none of JOB_COMPLETE (0x02), MEMORY_RESPONSE (0x04)
    /// and ERROR (0xFF), and the header's size covers the header and payload.
    pub open spec fn well_formed(self) -> bool {
        &&& self.header.category != 0x02u8
        &&& self.header.category != 0x04u8
        &&& self.header.category != 0xFFu8
        &&& self.header.size >= 16
        &&& self.payload.len() + 16 == self.header.size
    }

    /// The bytes of the message.
    pub open spec fn bytes(self) -> Seq<u8> {
        self.header.wire_bytes() + self.payload
    }
}

/// The bytes of `os`, one message after the other.
pub open spec fn skipped_stream(os: Seq<SkippedMessage>) -> Seq<u8>
    decreases os.len(),
{
    if os.len() == 0 {
        Seq::empty()
    } else {
        os[0].bytes() + skipped_stream(os.drop_first())
    }
}

/// Messages of every category but JOB_COMPLETE, MEMORY_RESPONSE and ERROR
/// carry no response: draining a queue that holds such messages, each of the
/// size its header gives, followed by response messages, returns exactly the
/// responses of the latter, in order, and leaves the queue empty.
pub proof fn lemma_poll_skips_other_messages(
    r: RingView,
    os: Seq<SkippedMessage>,
    ms: Seq<ResponseMessage>,
)
    requires
        r.wf(),
        r.pending() == skipped_stream(os) + response_stream(ms),
        forall|i: int| 0 <= i < os.len() ==> (#[trigger] os[i]).well_formed(),
        forall|i: int| 0 <= i < ms.len() ==> (#[trigger] ms[i]).categorised(),
    ensures
        poll_outcome(r).0 == responses_of(ms),
        poll_outcome(r).1.available_read() == 0,
    decreases os.len(),
{
    if os.len() == 0 {
        assert(r.pending() =~= response_stream(ms));
        lemma_poll_returns_queued_responses(r, ms);
    } else {
        let o = os[0];
        let rest = os.drop_first();
        o.header.lemma_encoded_len();
        GspMessage::lemma_round_trip(o.header);
        let b = o.bytes();
        let n = o.header.size as nat;
        assert(b.len() == n);
        assert(r.pending() =~= b + (skipped_stream(rest) + response_stream(ms)));
        assert(r.pending().len() == r.available_read());
        lemma_read_takes_front(r, 16);
        assert(r.pending().subrange(0, 16) =~= o.header.wire_bytes());
        assert(!has_response(o.header.category));
        assert(skip_len(o.header.size) == n);
        lemma_read_takes_front(r, n);
        let s = r.read_outcome(n).1;
        assert(s.pending() =~= skipped_stream(rest) + response_stream(ms));
        assert forall|i: int| 0 <= i < rest.len() implies (#[trigger] rest[i]).well_formed() by {
            assert(rest[i] == os[i + 1]);
        }
        lemma_poll_skips_other_messages(s, rest, ms);
    }
}

/// The fields of the job-submit message, as they lie in its bytes: the
/// sequence number, the JOB_SUBMIT category and the message's 48-byte size
/// in the header; then the job type's code, the context, the command
/// buffer's bus address and size, and the fence.
pub proof fn lemma_job_submit_fields(
    sequence: u32,
    job_type: JobType,
    context_handle: u32,
    cmd_buffer: DmaBuffer,
    fence_id: u64,
)
    ensures
        ({
            let b = job_submit_message(sequence, job_type, context_handle, cmd_buffer, fence_id).wire_bytes();
            &&& b.len() == 48
            &&& spec_u32_from_le_bytes(b.subrange(0, 4)) == sequence
            &&& spec_u16_from_le_bytes(b.subrange(6, 8)) == 48
            &&& b[8] == 0x01u8
            &&& b[16] == match job_type {
                JobType::Graphics => 0u8,
                JobType::Compute => 1u8,
                JobType::Copy => 2u8,
                JobType::VideoDecode => 3u8,
                JobType::VideoEncode => 4u8,
            }
            &&& spec_u32_from_le_bytes(b.subrange(20, 24)) == context_handle
            &&& spec_u64_from_le_bytes(b.subrange(24, 32)) == cmd_buffer.bus_address()
            &&& spec_u32_from_le_bytes(b.subrange(32, 36)) == cmd_buffer.bytes().len() as u32
            &&& spec_u64_from_le_bytes(b.subrange(40, 48)) == fence_id
        }),
{
    let m = job_submit_message(sequence, job_type, context_handle, cmd_buffer, fence_id);
    lemma_auto_spec_u16_to_from_le_bytes();
    lemma_auto_spec_u32_to_from_le_bytes();
    lemma_auto_spec_u64_to_from_le_bytes();
    m.lemma_encoded_len();
    m.header.lemma_encoded_len();
    let b = m.wire_bytes();
    let h = m.header.wire_bytes();
    assert(b.subrange(0, 16) =~= h);
    assert(h.subrange(0, 4) =~= spec_u32_to_le_bytes(m.header.sequence));
    assert(b.subrange(0, 4) =~= h.subrange(0, 4));
    assert(h.subrange(6, 8) =~= spec_u16_to_le_bytes(m.header.size));
    assert(b.subrange(6, 8) =~= h.subrange(6, 8));
    assert(b[8] == h[8]);
    assert(b.subrange(20, 24) =~= spec_u32_to_le_bytes(context_handle));
    assert(b.subrange(24, 32) =~= spec_u64_to_le_bytes(cmd_buffer.bus_address()));
    assert(b.subrange(32, 36) =~= spec_u32_to_le_bytes(cmd_buffer.bytes().len() as u32));
    assert(b.subrange(40, 48) =~= spec_u64_to_le_bytes(fence_id));
}

/// The fields of the memory request that `alloc_memory` queues, as they lie
/// in its bytes: the sequence number, the MEMORY category (0x03) and the
/// message's 40-byte size in the header; then the ALLOC operation (0x01),
/// the requested size and the flags.
pub proof fn lemma_memory_alloc_fields(sequence: u32, size: usize, flags: u32)
    ensures
        ({
            let b = memory_alloc_message(sequence, size, flags).wire_bytes();
            &&& b.len() == 40
            &&& spec_u32_from_le_bytes(b.subrange(0, 4)) == sequence
            &&& spec_u16_from_le_bytes(b.subrange(6, 8)) == 40
            &&& b[8] == 0x03u8
            &&& b[16] == 0x01u8
            &&& spec_u64_from_le_bytes(b.subrange(24, 32)) == size as u64
            &&& spec_u32_from_le_bytes(b.subrange(32, 36)) == flags
        }),
{
    let m = memory_alloc_message(sequence, size, flags);
    lemma_auto_spec_u16_to_from_le_bytes();
    lemma_auto_spec_u32_to_from_le_bytes();
    lemma_auto_spec_u64_to_from_le_bytes();
    m.lemma_encoded_len();
    m.header.lemma_encoded_len();
    let b = m.wire_bytes();
    let h = m.header.wire_bytes();
    assert(b.subrange(0, 16) =~= h);
    assert(h.subrange(0, 4) =~= spec_u32_to_le_bytes(m.header.sequence));
    assert(b.subrange(0, 4) =~= h.subrange(0, 4));
    assert(h.subrange(6, 8) =~= spec_u16_to_le_bytes(m.header.size));
    assert(b.subrange(6, 8) =~= h.subrange(6, 8));
    assert(b[8] == h[8]);
    assert(b.subrange(24, 32) =~= spec_u64_to_le_bytes(size as u64));
    assert(b.subrange(32, 36) =~= spec_u32_to_le_bytes(flags));
}

/// The driver's side of the GSP queue.
pub struct GspClient {
    queue: RingBuffer,
    mailbox: MailboxRegs,
    sequence: u32,
    context_handle: u32,
}

impl GspClient {
    /// The queue.
    pub closed spec fn queue_view(&self) -> RingView {
        self.queue@
    }

    /// The CPU address of the queue's buffer.
    pub closed spec fn queue_cpu_address(&self) -> usize {
        self.queue.dma().cpu_address()
    }

    /// The bus address of the queue's buffer.
    pub closed spec fn queue_bus_address(&self) -> u64 {
        self.queue.dma().bus_address()
    }

    /// The sequence number of the next message.
    pub closed spec fn sequence_number(&self) -> u32 {
        self.sequence
    }

    /// The context that submitted jobs run in.
    pub closed spec fn context(&self) -> u32 {
        self.context_handle
    }

    /// The base address of the mailbox registers.
    pub closed spec fn mailbox_base(&self) -> usize {
        self.mailbox.base()
    }

    /// A client over an empty queue in `queue_buffer`, with its mailbox at
    /// `mailbox_addr`; sequence numbers start at 0, in context 0.
    pub fn new(queue_buffer: DmaBuffer, mailbox_addr: usize) -> (r: Self)
        ensures
            r.queue_view() == (RingView {
                bytes: queue_buffer.bytes(),
                capacity: queue_buffer.bytes().len(),
                read_pos: 0,
                write_pos: 0,
            }),
            r.queue_view().wf(),
            r.queue_cpu_address() == queue_buffer.cpu_address(),
            r.queue_bus_address() == queue_buffer.bus_address(),
            r.sequence_number() == 0,
            r.context() == 0,
            r.mailbox_base() == mailbox_addr,
    {
        Self {
            queue: RingBuffer::new(queue_buffer),
            mailbox: MailboxRegs::new(mailbox_addr),
            sequence: 0,
            context_handle: 0,
        }
    }

    /// A client over `queue`, which may already hold messages, with its
    /// mailbox at `mailbox_addr`; sequence numbers start at 0, in context 0.
    pub fn with_queue(queue: RingBuffer, mailbox_addr: usize) -> (r: Self)
        ensures
            r.queue_view() == queue@,
            r.queue_cpu_address() == queue.dma().cpu_address(),
            r.queue_bus_address() == queue.dma().bus_address(),
            r.sequence_number() == 0,
            r.context() == 0,
            r.mailbox_base() == mailbox_addr,
    {
        Self { queue, mailbox: MailboxRegs::new(mailbox_addr), sequence: 0, context_handle: 0 }
    }

    /// The capacity of the queue in bytes.
    pub fn queue_capacity(&self) -> (r: usize)
        ensures
            r == self.queue_view().capacity,
    {
        self.queue.capacity()
    }

    /// The buffer the queue lives in, for copying it to device memory.
    pub fn queue_buffer(&self) -> (r: &DmaBuffer)
        ensures
            r.bytes() == self.queue_view().bytes,
            r.cpu_address() == self.queue_cpu_address(),
            r.bus_address() == self.queue_bus_address(),
    {
        self.queue.buffer()
    }

    /// Replaces the queue's bytes by `src`, as read from device memory; the
    /// read and write positions are kept.
    pub fn load_queue(&mut self, src: &[u8])
        requires
            old(self).queue_view().wf(),
            src@.len() == old(self).queue_view().capacity,
        ensures
            final(self).queue_view() == (RingView { bytes: src@, ..old(self).queue_view() }),
            final(self).queue_view().wf(),
            final(self).queue_cpu_address() == old(self).queue_cpu_address(),
            final(self).queue_bus_address() == old(self).queue_bus_address(),
            final(self).sequence_number() == old(self).sequence_number(),
            final(self).context() == old(self).context(),
            final(self).mailbox_base() == old(self).mailbox_base(),
    {
        self.queue.load_bytes(src);
    }

    /// The mailbox registers.
    pub fn mailbox(&self) -> (r: &MailboxRegs)
        ensures
            r.base() == self.mailbox_base(),
    {
        &self.mailbox
    }

    fn next_sequence(&mut self) -> (r: u32)
        ensures
            r == old(self).sequence,
            final(self).sequence == next_sequence_number(old(self).sequence),
            final(self).queue == old(self).queue,
            final(self).mailbox == old(self).mailbox,
            final(self).context_handle == old(self).context_handle,
    {
        let seq = self.sequence;
        self.sequence = self.sequence.wrapping_add(1);
        seq
    }

    fn context_handle(&self) -> (r: u32)
        ensures
            r == self.context_handle,
    {
        self.context_handle
    }

    /// Sets the context that submitted jobs run in.
    pub fn set_context_handle(&mut self, handle: u32)
        ensures
            final(self).context() == handle,
            final(self).queue_view() == old(self).queue_view(),
            final(self).queue_cpu_address() == old(self).queue_cpu_address(),
            final(self).queue_bus_address() == old(self).queue_bus_address(),
            final(self).sequence_number() == old(self).sequence_number(),
            final(self).mailbox_base() == old(self).mailbox_base(),
    {
        self.context_handle = handle;
    }

    /// Queues a job of `job_type` running the commands in `cmd_buffer`,
    /// signalled by `fence_id`. The message takes the next sequence number
    /// whether or not it could be queued; see `RingView::write_outcome` for
    /// when queueing fails.
    pub fn submit_job(
        &mut self,
        job_type: JobType,
        cmd_buffer: &DmaBuffer,
        fence_id: u64,
    ) -> (r: Result<()>)
        requires
            old(self).queue_view().wf(),
            old(self).queue_view().capacity > 0,
        ensures
            final(self).queue_view().wf(),
            (r, final(self).queue_view()) == old(self).queue_view().write_outcome(
                job_submit_message(
                    old(self).sequence_number(),
                    job_type,
                    old(self).context(),
                    *cmd_buffer,
                    fence_id,
                ).wire_bytes(),
            ),
            final(self).sequence_number() == next_sequence_number(old(self).sequence_number()),
            final(self).context() == old(self).context(),
            final(self).mailbox_base() == old(self).mailbox_base(),
            final(self).queue_cpu_address() == old(self).queue_cpu_address(),
            final(self).queue_bus_address() == old(self).queue_bus_address(),
            r is Ok <==> 48 <= old(self).queue_view().available_write(),
            r is Err ==> r == Err::<(), Error>(Error::Busy) && final(self).queue_view() == old(
                self,
            ).queue_view(),
            r is Ok ==> ({
                let before = old(self).queue_view().pending();
                let after = final(self).queue_view().pending();
                let b = after.subrange(before.len() as int, after.len() as int);
                &&& after.len() == before.len() + 48
                &&& after.subrange(0, before.len() as int) == before
                &&& spec_u32_from_le_bytes(b.subrange(0, 4)) == old(self).sequence_number()
                &&& spec_u16_from_le_bytes(b.subrange(6, 8)) == 48
                &&& b[8] == 0x01u8
                &&& b[16] == match job_type {
                    JobType::Graphics => 0u8,
                    JobType::Compute => 1u8,
                    JobType::Copy => 2u8,
                    JobType::VideoDecode => 3u8,
                    JobType::VideoEncode => 4u8,
                }
                &&& spec_u32_from_le_bytes(b.subrange(20, 24)) == old(self).context()
                &&& spec_u64_from_le_bytes(b.subrange(24, 32)) == cmd_buffer.bus_address()
                &&& spec_u32_from_le_bytes(b.subrange(32, 36)) == cmd_buffer.bytes().len() as u32
                &&& spec_u64_from_le_bytes(b.subrange(40, 48)) == fence_id
            }),
    {
        proof {
            lemma_job_submit_fields(
                old(self).sequence,
                job_type,
                old(self).context_handle,
                *cmd_buffer,
                fence_id,
            );
            let w = job_submit_message(
                old(self).sequence,
                job_type,
                old(self).context_handle,
                *cmd_buffer,
                fence_id,
            ).wire_bytes();
            if 48 <= old(self).queue_view().available_write() {
                lemma_write_appends(old(self).queue_view(), w);
                let before = old(self).queue_view().pending();
                let after = old(self).queue_view().write_outcome(w).1.pending();
                assert(after.subrange(before.len() as int, after.len() as int) =~= w);
                assert(after.subrange(0, before.len() as int) =~= before);
            }
        }
        let msg = JobSubmitMessage {
            header: GspMessage::new(
                self.next_sequence(),
                category::JOB_SUBMIT,
                JobSubmitMessage::wire_size() as u16,
            ),
            job_type,
            context_handle: self.context_handle(),
            cmd_buffer_addr: cmd_buffer.dma_addr(),
            cmd_buffer_size: cmd_buffer.size() as u32,
            fence_id,
        };
        self.queue.write(&msg)?;
        Ok(())
    }

    /// Queues a request for `size` bytes of memory with `flags`. On success
    /// returns 0: the handle itself arrives later as a `MemoryAlloc`
    /// response. The message takes the next sequence number whether or not
    /// it could be queued.
    pub fn alloc_memory(&mut self, size: usize, flags: u32) -> (r: Result<u32>)
        requires
            old(self).queue_view().wf(),
            old(self).queue_view().capacity > 0,
        ensures
            final(self).queue_view().wf(),
            ({
                let (w, q) = old(self).queue_view().write_outcome(
                    memory_alloc_message(old(self).sequence_number(), size, flags).wire_bytes(),
                );
                &&& final(self).queue_view() == q
                &&& r == match w {
                    Ok(_) => Ok::<u32, Error>(0),
                    Err(e) => Err(e),
                }
            }),
            final(self).sequence_number() == next_sequence_number(old(self).sequence_number()),
            final(self).context() == old(self).context(),
            final(self).mailbox_base() == old(self).mailbox_base(),
            final(self).queue_cpu_address() == old(self).queue_cpu_address(),
            final(self).queue_bus_address() == old(self).queue_bus_address(),
            r is Ok <==> 40 <= old(self).queue_view().available_write(),
            r is Ok ==> r == Ok::<u32, Error>(0),
            r is Err ==> r == Err::<u32, Error>(Error::Busy) && final(self).queue_view() == old(
                self,
            ).queue_view(),
            r is Ok ==> ({
                let before = old(self).queue_view().pending();
                let after = final(self).queue_view().pending();
                let b = after.subrange(before.len() as int, after.len() as int);
                &&& after.len() == before.len() + 40
                &&& after.subrange(0, before.len() as int) == before
                &&& spec_u32_from_le_bytes(b.subrange(0, 4)) == old(self).sequence_number()
                &&& spec_u16_from_le_bytes(b.subrange(6, 8)) == 40
                &&& b[8] == 0x03u8
                &&& b[16] == 0x01u8
                &&& spec_u64_from_le_bytes(b.subrange(24, 32)) == size as u64
                &&& spec_u32_from_le_bytes(b.subrange(32, 36)) == flags
            }),
    {
        proof {
            lemma_memory_alloc_fields(old(self).sequence, size, flags);
            let w = memory_alloc_message(old(self).sequence, size, flags).wire_bytes();
            if 40 <= old(self).queue_view().available_write() {
                lemma_write_appends(old(self).queue_view(), w);
                let before = old(self).queue_view().pending();
                let after = old(self).queue_view().write_outcome(w).1.pending();
                assert(after.subrange(before.len() as int, after.len() as int) =~= w);
                assert(after.subrange(0, before.len() as int) =~= before);
            }
        }
        let msg = MemoryAllocMessage {
            header: GspMessage::new(
                self.next_sequence(),
                category::MEMORY,
                MemoryAllocMessage::wire_size() as u16,
            ),
            op: memory_op::ALLOC,
            size: size as u64,
            flags,
        };
        self.queue.write(&msg)?;
        Ok(0)
    }

    /// Drains the queue and returns the responses it held, in order; see
    /// `poll_outcome`. Never fails.
    pub fn poll_responses(&mut self) -> (r: Result<Vec<GspResponse>>)
        requires
            old(self).queue_view().wf(),
        ensures
            final(self).queue_view().wf(),
            r is Ok,
            r->Ok_0@ == poll_outcome(old(self).queue_view()).0,
            final(self).queue_view() == poll_outcome(old(self).queue_view()).1,
            final(self).sequence_number() == old(self).sequence_number(),
            final(self).context() == old(self).context(),
            final(self).mailbox_base() == old(self).mailbox_base(),
            final(self).queue_cpu_address() == old(self).queue_cpu_address(),
            final(self).queue_bus_address() == old(self).queue_bus_address(),
    {
        let mut responses: Vec<GspResponse> = Vec::new();
        loop
            invariant
                self.queue@.wf(),
                self.sequence == old(self).sequence,
                self.context_handle == old(self).context_handle,
                self.mailbox == old(self).mailbox,
                self.queue.dma().cpu_address() == old(self).queue.dma().cpu_address(),
                self.queue.dma().bus_address() == old(self).queue.dma().bus_address(),
                poll_outcome(old(self).queue@).0 == responses@ + poll_outcome(self.queue@).0,
                poll_outcome(old(self).queue@).1 == poll_outcome(self.queue@).1,
            decreases self.queue@.available_read(),
        {
            let ghost r0 = self.queue@;
            let header = match self.queue.peek::<GspMessage>() {
                None => {
                    assert(responses@ + Seq::<GspResponse>::empty() =~= responses@);
                    return Ok(responses);
                },
                Some(h) => h,
            };
            let cat = header.category;
            let response = if cat == category::JOB_COMPLETE {
                match self.queue.read::<JobCompleteMessage>() {
                    Ok(Some(m)) => GspResponse::JobComplete { fence_id: m.fence_id, status: m.status },
                    _ => {
                        assert(responses@ + Seq::<GspResponse>::empty() =~= responses@);
                        return Ok(responses);
                    },
                }
            } else if cat == category::MEMORY_RESPONSE {
                match self.queue.read::<MemoryResponseMessage>() {
                    Ok(Some(m)) => GspResponse::MemoryAlloc { handle: m.handle, addr: m.gpu_addr },
                    _ => {
                        assert(responses@ + Seq::<GspResponse>::empty() =~= responses@);
                        return Ok(responses);
                    },
                }
            } else if cat == category::ERROR {
                match self.queue.read::<ErrorMessage>() {
                    Ok(Some(m)) => GspResponse::Error { code: m.error_code, info: m.error_info },
                    _ => {
                        assert(responses@ + Seq::<GspResponse>::empty() =~= responses@);
                        return Ok(responses);
                    },
                }
            } else {
                let n: usize = if header.size < 16 {
                    16
                } else {
                    header.size as usize
                };
                if n > self.queue.available_read() {
                    assert(responses@ + Seq::<GspResponse>::empty() =~= responses@);
                    return Ok(responses);
                }
                self.queue.discard(n);
                proof {
                    lemma_read_takes_front(r0, n as nat);
                }
                continue;
            };
            proof {
                lemma_read_takes_front(r0, 32);
                assert(responses@.push(response) + poll_outcome(self.queue@).0 =~= responses@ + (
                seq![response] + poll_outcome(self.queue@).0));
            }
            responses.push(response);
        }
    }
}

} // verus!
