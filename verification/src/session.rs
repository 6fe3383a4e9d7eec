//! One round trip on the bus: serialize a request, write it through the
//! transport, and — unless the request is broadcast-addressed — read back
//! and validate a status frame. The trace predicates below are the
//! request/response state machine: they say, for every outcome, exactly
//! which operations the transport observed and what the result must be.

use crate::checksum::checksum_of;
use crate::instruction::{frame_bytes, Instruction, InstructionPacket, MAX_PARAMETER_COUNT};
use crate::outcome::{
    rx_of_read_fault, rx_of_write_fault, rx_outcome_of_read_fault, tx_result_of, FrameFault,
    ReadFault, RxResult, TxResult, WriteFault,
};
use crate::status::{header_sentinel, StatusPacket, StatusView, HEADER_BYTE};
use crate::transport::{read_echo, Event, Transport};
use vstd::prelude::*;

verus! {

/// The broadcast device id: addressed to every device on the chain; no
/// device replies to it.
pub const BROADCAST_ID: u8 = 0xFE;

/// Receive machine, awaiting the two header bytes. The stream is rejected
/// as corrupt the moment the sentinel fails; a read fault maps to its
/// outcome and stops the exchange.
pub open spec fn rx_trace(delta: Seq<Event>, r: RxResult) -> bool {
    &&& delta.len() >= 1
    &&& delta[0] matches Event::Read { count, data } && {
        &&& count == 2
        &&& match data {
            Err(f) => delta.len() == 1 && r == rx_of_read_fault(f),
            Ok(h) => {
                if h != header_sentinel() {
                    delta.len() == 1 && r == RxResult::RxCorrupt(FrameFault::BadHeader)
                } else {
                    rx_trace_after_header(delta.skip(1), r)
                }
            },
        }
    }
}

/// Receive machine, awaiting the three metadata bytes: device id, length,
/// error flags. A length byte too small to cover the two bytes every
/// status frame carries is a protocol violation.
pub open spec fn rx_trace_after_header(delta: Seq<Event>, r: RxResult) -> bool {
    &&& delta.len() >= 1
    &&& delta[0] matches Event::Read { count, data } && {
        &&& count == 3
        &&& match data {
            Err(f) => delta.len() == 1 && r == rx_of_read_fault(f),
            Ok(m) => {
                &&& m.len() == 3
                &&& if m[1] < 2 {
                    delta.len() == 1 && r == RxResult::RxCorrupt(FrameFault::BadLength)
                } else {
                    rx_trace_after_meta(delta.skip(1), m[0], m[1], m[2], r)
                }
            },
        }
    }
}

/// Receive machine, awaiting exactly `length - 2` parameter bytes.
pub open spec fn rx_trace_after_meta(
    delta: Seq<Event>,
    id: u8,
    length: u8,
    error: u8,
    r: RxResult,
) -> bool {
    &&& delta.len() >= 1
    &&& delta[0] matches Event::Read { count, data } && {
        &&& count == (length - 2) as nat
        &&& match data {
            Err(f) => delta.len() == 1 && r == rx_of_read_fault(f),
            Ok(p) => {
                &&& p.len() == length - 2
                &&& rx_trace_after_params(delta.skip(1), id, length, error, p, r)
            },
        }
    }
}

/// Receive machine, awaiting the one checksum byte, then validating: the
/// recomputed checksum must equal the received byte exactly, else the
/// frame is corrupt.
pub open spec fn rx_trace_after_params(
    delta: Seq<Event>,
    id: u8,
    length: u8,
    error: u8,
    parameters: Seq<u8>,
    r: RxResult,
) -> bool {
    &&& delta.len() == 1
    &&& delta[0] matches Event::Read { count, data } && {
        &&& count == 1
        &&& match data {
            Err(f) => r == rx_of_read_fault(f),
            Ok(c) => {
                &&& c.len() == 1
                &&& if c[0] != checksum_of(id, length, error, parameters) {
                    r == RxResult::RxCorrupt(FrameFault::ChecksumMismatch)
                } else {
                    r matches RxResult::Success(op) && op matches Some(p) && p@ == (StatusView {
                        id,
                        length,
                        error,
                        parameters,
                        checksum: c[0],
                    })
                }
            },
        }
    }
}

/// One full round trip, from the transport history before the call (`pre`)
/// to the history after it (`post`): an oversize frame is refused before
/// the transport is touched; otherwise exactly one write of the serialized
/// frame happens, a write fault or a broadcast id ends the exchange there,
/// and an addressed request is followed by the receive machine.
pub open spec fn round_trip_trace(
    pre: Seq<Event>,
    post: Seq<Event>,
    id: u8,
    instruction: Instruction,
    parameters: Seq<u8>,
    r: RxResult,
) -> bool {
    if parameters.len() > MAX_PARAMETER_COUNT {
        &&& post == pre
        &&& r == RxResult::RxFail
    } else {
        let delta = post.skip(pre.len() as int);
        &&& pre.is_prefix_of(post)
        &&& delta.len() >= 1
        &&& delta[0] matches Event::Write { bytes, fault } && {
            &&& bytes == frame_bytes(id, instruction.spec_code(), parameters)
            &&& match fault {
                Some(f) => delta.len() == 1 && r == rx_of_write_fault(f),
                None => {
                    if id == BROADCAST_ID {
                        delta.len() == 1 && r == RxResult::Success(None)
                    } else {
                        rx_trace(delta.skip(1), r)
                    }
                },
            }
        }
    }
}

/// Byte order for multi-byte register values. This layer is single-byte
/// only; the configuration is stored for the command facade that encodes
/// and decodes multi-byte parameter values.
#[derive(Clone, Copy, PartialEq, Eq, Structural, Debug)]
pub enum Endianness {
    Little,
    Big,
}

/// One session on the bus: exclusive ownership of one open transport and a
/// stored byte-order configuration. Stateless between round trips beyond
/// the transport itself — no queued commands, no cached frames, no retry.
pub struct PacketHandler<T: Transport> {
    endianness: Endianness,
    port: T,
}

impl<T: Transport> PacketHandler<T> {
    /// The ghost history of operations this session's transport observed.
    pub closed spec fn log(&self) -> Seq<Event> {
        self.port.log()
    }

    /// The stored byte-order configuration.
    pub closed spec fn spec_endianness(&self) -> Endianness {
        self.endianness
    }

    /// The transport this session owns.
    pub closed spec fn spec_port(&self) -> T {
        self.port
    }

    /// A session over an already-open transport. Multi-byte register
    /// values on this bus are little-endian, so that is the stored
    /// configuration.
    pub fn new(port: T) -> (r: PacketHandler<T>)
        ensures
            r.log() == port.log(),
            r.spec_endianness() == Endianness::Little,
    {
        PacketHandler { endianness: Endianness::Little, port }
    }

    /// The stored byte-order configuration, for the command facade.
    pub fn endianness(&self) -> (r: Endianness)
        ensures
            r == self.spec_endianness(),
    {
        self.endianness
    }

    /// A view of the owned transport, for inspecting what the bus saw.
    pub fn port(&self) -> (r: &T)
        ensures
            *r == self.spec_port(),
            r.log() == self.log(),
    {
        &self.port
    }

    /// Build a zero-parameter ping frame for the device and perform a full
    /// round trip.
    pub fn ping(&mut self, motor_id: u8) -> (r: RxResult)
        ensures
            round_trip_trace(
                old(self).log(),
                final(self).log(),
                motor_id,
                Instruction::Ping,
                Seq::<u8>::empty(),
                r,
            ),
            final(self).spec_endianness() == old(self).spec_endianness(),
    {
        let parameters: Vec<u8> = Vec::new();
        proof {
            assert(parameters@ =~= Seq::<u8>::empty());
        }
        self.tx_rx_packet(motor_id, Instruction::Ping, parameters)
    }

    /// General two-phase exchange: build the frame (an oversize frame is
    /// refused before any byte reaches the transport), write it, and —
    /// unless the id is broadcast, for which the protocol defines no
    /// response — read back and validate one status frame.
    pub fn tx_rx_packet(&mut self, id: u8, instruction: Instruction, parameters: Vec<u8>) -> (r:
        RxResult)
        ensures
            round_trip_trace(
                old(self).log(),
                final(self).log(),
                id,
                instruction,
                parameters@,
                r,
            ),
            final(self).spec_endianness() == old(self).spec_endianness(),
    {
        let ghost l0 = self.port.log();
        let packet = match InstructionPacket::new(id, instruction, parameters) {
            Ok(p) => p,
            Err(_) => {
                return RxResult::RxFail;
            },
        };
        let tx = self.tx_packet(&packet);
        let ghost l1 = self.port.log();
        proof {
            assert(l1.skip(l0.len() as int) =~= seq![l1.last()]);
        }
        match tx {
            TxResult::Success => {},
            TxResult::PortBusy => {
                return RxResult::PortBusy;
            },
            TxResult::TxFail => {
                return RxResult::RxFail;
            },
            TxResult::TxError => {
                return RxResult::RxFail;
            },
            TxResult::NotAvailable => {
                return RxResult::NotAvailable;
            },
        }
        if id == BROADCAST_ID {
            return RxResult::Success(None);
        }
        let r = self.rx_packet();
        proof {
            let post = self.port.log();
            assert forall|i: int| 0 <= i < l0.len() implies l0[i] == post[i] by {
                assert(l0[i] == l1[i]);
                assert(l1[i] == post.subrange(0, l1.len() as int)[i]);
            }
            assert(l0.is_prefix_of(post));
            let delta = post.skip(l0.len() as int);
            assert(delta[0] == post[l0.len() as int]);
            assert(l1.last() == post.subrange(0, l1.len() as int)[l1.len() - 1]);
            assert(delta[0] == l1.last());
            assert(delta.skip(1) =~= post.skip(l1.len() as int));
        }
        r
    }

    /// Serialize the frame and write it through the transport: exactly one
    /// write reaches the bus, and the outcome mirrors the transport's
    /// verdict on it.
    pub fn tx_packet(&mut self, packet: &InstructionPacket) -> (r: TxResult)
        requires
            packet.wf(),
        ensures
            final(self).log().len() == old(self).log().len() + 1,
            final(self).log().take(old(self).log().len() as int) == old(self).log(),
            final(self).log().last() matches Event::Write { bytes, fault } && {
                &&& bytes == packet.spec_bytes()
                &&& r == tx_result_of(fault)
            },
            final(self).spec_endianness() == old(self).spec_endianness(),
    {
        let bytes = packet.as_bytes();
        let res = self.port.write_all(&bytes);
        proof {
            assert(self.port.log().take(old(self).log().len() as int) =~= old(self).log());
        }
        match res {
            Ok(_) => TxResult::Success,
            Err(WriteFault::Busy) => TxResult::PortBusy,
            Err(WriteFault::Failure) => TxResult::TxFail,
            Err(WriteFault::Unavailable) => TxResult::NotAvailable,
        }
    }

    /// Read and validate one status frame: two header bytes, three
    /// metadata bytes, the parameter tail the length byte promises, one
    /// checksum byte, then the checksum recomputation. Every malformed
    /// stage surfaces as a corrupt outcome, every transport fault as its
    /// own outcome; nothing panics.
    pub fn rx_packet(&mut self) -> (r: RxResult)
        ensures
            old(self).log().is_prefix_of(final(self).log()),
            rx_trace(final(self).log().skip(old(self).log().len() as int), r),
            final(self).spec_endianness() == old(self).spec_endianness(),
    {
        let ghost l0 = self.port.log();
        let res1 = self.port.read_exact(2);
        let ghost e1 = read_echo(2 as nat, res1);
        proof {
            assert(self.port.log() =~= l0 + seq![e1]);
            assert((l0 + seq![e1]).skip(l0.len() as int) =~= seq![e1]);
            assert(l0.is_prefix_of(l0 + seq![e1]));
        }
        let header = match res1 {
            Ok(h) => h,
            Err(f) => {
                return rx_outcome_of_read_fault(f);
            },
        };
        proof {
            assert(header_sentinel().len() == 2);
            assert(header_sentinel()[0] == HEADER_BYTE);
            assert(header_sentinel()[1] == HEADER_BYTE);
        }
        if !(header[0] == HEADER_BYTE && header[1] == HEADER_BYTE) {
            return RxResult::RxCorrupt(FrameFault::BadHeader);
        }
        proof {
            assert(header@ =~= header_sentinel());
        }
        let res2 = self.port.read_exact(3);
        let ghost e2 = read_echo(3 as nat, res2);
        proof {
            assert(self.port.log() =~= l0 + seq![e1, e2]);
            assert((l0 + seq![e1, e2]).skip(l0.len() as int) =~= seq![e1, e2]);
            assert(seq![e1, e2].skip(1) =~= seq![e2]);
            assert(l0.is_prefix_of(l0 + seq![e1, e2]));
        }
        let meta = match res2 {
            Ok(m) => m,
            Err(f) => {
                return rx_outcome_of_read_fault(f);
            },
        };
        let meta_id = meta[0];
        let meta_length = meta[1];
        let meta_error = meta[2];
        if meta_length < 2 {
            return RxResult::RxCorrupt(FrameFault::BadLength);
        }
        let need = (meta_length - 2) as usize;
        let res3 = self.port.read_exact(need);
        let ghost e3 = read_echo(need as nat, res3);
        proof {
            assert(self.port.log() =~= l0 + seq![e1, e2, e3]);
            assert((l0 + seq![e1, e2, e3]).skip(l0.len() as int) =~= seq![e1, e2, e3]);
            assert(seq![e1, e2, e3].skip(1) =~= seq![e2, e3]);
            assert(seq![e2, e3].skip(1) =~= seq![e3]);
            assert(l0.is_prefix_of(l0 + seq![e1, e2, e3]));
        }
        let params = match res3 {
            Ok(p) => p,
            Err(f) => {
                return rx_outcome_of_read_fault(f);
            },
        };
        let res4 = self.port.read_exact(1);
        let ghost e4 = read_echo(1 as nat, res4);
        proof {
            assert(self.port.log() =~= l0 + seq![e1, e2, e3, e4]);
            assert((l0 + seq![e1, e2, e3, e4]).skip(l0.len() as int) =~= seq![e1, e2, e3, e4]);
            assert(seq![e1, e2, e3, e4].skip(1) =~= seq![e2, e3, e4]);
            assert(seq![e2, e3, e4].skip(1) =~= seq![e3, e4]);
            assert(seq![e3, e4].skip(1) =~= seq![e4]);
            assert(l0.is_prefix_of(l0 + seq![e1, e2, e3, e4]));
        }
        let checksum_bytes = match res4 {
            Ok(c) => c,
            Err(f) => {
                return rx_outcome_of_read_fault(f);
            },
        };
        let claimed = checksum_bytes[0];
        let validated = StatusPacket::new(
            header.as_slice(),
            meta_id,
            meta_length,
            meta_error,
            params.as_slice(),
            claimed,
        );
        match validated {
            Ok(p) => RxResult::Success(Some(p)),
            Err(f) => RxResult::RxCorrupt(f),
        }
    }
}

/// Law: a received stream whose first two bytes are not the header
/// sentinel is rejected as corrupt, whatever bytes follow.
pub proof fn lemma_bad_header_rejected(delta: Seq<Event>, h: Seq<u8>, r: RxResult)
    requires
        rx_trace(delta, r),
        delta[0] matches Event::Read { data, .. } && data == Ok::<Seq<u8>, ReadFault>(h),
        h != header_sentinel(),
    ensures
        r == RxResult::RxCorrupt(FrameFault::BadHeader),
{
}

/// Law: a stream that reaches its checksum byte carrying any value other
/// than the checksum of the fields it followed — in particular, a valid
/// stream whose checksum byte was flipped — is rejected as corrupt.
pub proof fn lemma_flipped_checksum_rejected(
    delta: Seq<Event>,
    meta: Seq<u8>,
    parameters: Seq<u8>,
    claimed: u8,
    r: RxResult,
)
    requires
        rx_trace(delta, r),
        delta.len() == 4,
        delta[0] matches Event::Read { data, .. } && data == Ok::<Seq<u8>, ReadFault>(
            header_sentinel(),
        ),
        delta[1] matches Event::Read { data, .. } && data == Ok::<Seq<u8>, ReadFault>(meta),
        delta[2] matches Event::Read { data, .. } && data == Ok::<Seq<u8>, ReadFault>(parameters),
        delta[3] matches Event::Read { data, .. } && data == Ok::<Seq<u8>, ReadFault>(
            seq![claimed],
        ),
        claimed != checksum_of(meta[0], meta[1], meta[2], parameters),
    ensures
        r == RxResult::RxCorrupt(FrameFault::ChecksumMismatch),
{
    assert(delta.skip(1)[0] == delta[1]);
    assert(delta.skip(1).skip(1) =~= delta.skip(2));
    assert(delta.skip(2)[0] == delta[2]);
    assert(delta.skip(2).skip(1) =~= delta.skip(3));
    assert(delta.skip(3)[0] == delta[3]);
    assert(delta.skip(1).len() == 3);
    assert(delta.skip(2).len() == 2);
    assert(delta.skip(3).len() == 1);
}

/// Law: a broadcast ping round trip adds exactly one write to the
/// transport history and performs zero reads; when the transport accepts
/// the write, the outcome is success with no status frame.
pub proof fn lemma_broadcast_ping(pre: Seq<Event>, post: Seq<Event>, r: RxResult)
    requires
        round_trip_trace(pre, post, BROADCAST_ID, Instruction::Ping, Seq::<u8>::empty(), r),
    ensures
        pre.is_prefix_of(post),
        post.len() == pre.len() + 1,
        post.last() is Write,
        (post.last() matches Event::Write { fault: None, .. }) ==> r == RxResult::Success(None),
{
    let delta = post.skip(pre.len() as int);
    assert(delta.len() == 1);
    assert(post.last() == delta[0]);
}

/// Law: two round trips issued in order on one session leave the
/// transport history as the first trip's operations followed by the
/// second's — the bus observes the traffic in strict call order, with no
/// reordering or interleaving.
pub proof fn lemma_round_trips_ordered(
    l0: Seq<Event>,
    l1: Seq<Event>,
    l2: Seq<Event>,
    id1: u8,
    ins1: Instruction,
    p1: Seq<u8>,
    r1: RxResult,
    id2: u8,
    ins2: Instruction,
    p2: Seq<u8>,
    r2: RxResult,
)
    requires
        round_trip_trace(l0, l1, id1, ins1, p1, r1),
        round_trip_trace(l1, l2, id2, ins2, p2, r2),
    ensures
        l0.is_prefix_of(l1),
        l1.is_prefix_of(l2),
        l2 =~= l0 + l1.skip(l0.len() as int) + l2.skip(l1.len() as int),
{
    lemma_trace_prefix(l0, l1, id1, ins1, p1, r1);
    lemma_trace_prefix(l1, l2, id2, ins2, p2, r2);
    assert forall|i: int| 0 <= i < l1.len() implies l1[i] == l2[i] by {
        assert(l1[i] == l2.subrange(0, l1.len() as int)[i]);
    }
    assert forall|i: int| 0 <= i < l0.len() implies l0[i] == l1[i] by {
        assert(l0[i] == l1.subrange(0, l0.len() as int)[i]);
    }
    assert(l2 =~= l0 + l1.skip(l0.len() as int) + l2.skip(l1.len() as int));
}

/// A round trip only ever extends the transport history.
pub proof fn lemma_trace_prefix(
    pre: Seq<Event>,
    post: Seq<Event>,
    id: u8,
    instruction: Instruction,
    parameters: Seq<u8>,
    r: RxResult,
)
    requires
        round_trip_trace(pre, post, id, instruction, parameters, r),
    ensures
        pre.is_prefix_of(post),
{
    if parameters.len() > MAX_PARAMETER_COUNT {
        assert(pre =~= post.subrange(0, pre.len() as int));
    }
}

} // verus!
