//! Inbound status frames. A status packet is produced only by validating
//! received bytes — never constructed directly by calling code — and its
//! invariant ties the checksum byte to every field it covers.

use crate::checksum::{checksum_of, verify_checksum};
use crate::outcome::FrameFault;
use vstd::prelude::*;
use vstd::slice::{slice_index_get, slice_to_vec};

verus! {

/// First of the two sentinel bytes that open every frame on the wire.
pub const HEADER_BYTE: u8 = 0xFF;

/// The two-byte header sentinel as a sequence.
pub open spec fn header_sentinel() -> Seq<u8> {
    seq![HEADER_BYTE, HEADER_BYTE]
}

/// Mathematical content of a status frame.
pub struct StatusView {
    pub id: u8,
    pub length: u8,
    pub error: u8,
    pub parameters: Seq<u8>,
    pub checksum: u8,
}

impl StatusView {
    /// Invariant of every status frame this layer hands out: the length
    /// byte counts the parameters plus two, and the checksum byte is the
    /// one the covered fields demand.
    pub open spec fn wf(self) -> bool {
        &&& self.length >= 2
        &&& self.parameters.len() == self.length - 2
        &&& self.checksum == checksum_of(self.id, self.length, self.error, self.parameters)
    }
}

/// A validated response frame read back from a device.
#[derive(PartialEq, Eq, Debug)]
pub struct StatusPacket {
    id: u8,
    length: u8,
    error: u8,
    params: Vec<u8>,
    checksum: u8,
}

impl View for StatusPacket {
    type V = StatusView;

    closed spec fn view(&self) -> StatusView {
        StatusView {
            id: self.id,
            length: self.length,
            error: self.error,
            parameters: self.params@,
            checksum: self.checksum,
        }
    }
}

/// What validating received frame fields yields: the frame's content, or
/// the first reason it is rejected — a wrong header sentinel, a length
/// byte that cannot cover the parameters, or a checksum mismatch.
pub open spec fn frame_check(
    header: Seq<u8>,
    id: u8,
    length: u8,
    error: u8,
    parameters: Seq<u8>,
    checksum: u8,
) -> Result<StatusView, FrameFault> {
    if header != header_sentinel() {
        Err(FrameFault::BadHeader)
    } else if length < 2 || parameters.len() != length - 2 {
        Err(FrameFault::BadLength)
    } else if checksum != checksum_of(id, length, error, parameters) {
        Err(FrameFault::ChecksumMismatch)
    } else {
        Ok(StatusView { id, length, error, parameters, checksum })
    }
}

/// The view of a validation result, for stating contracts.
pub open spec fn validated_view(r: Result<StatusPacket, FrameFault>) -> Result<StatusView, FrameFault> {
    match r {
        Ok(p) => Ok(p@),
        Err(f) => Err(f),
    }
}

impl StatusPacket {
    /// Validate received frame fields and assemble the packet, or report
    /// why the bytes are rejected; malformed input is returned as a value,
    /// never a panic.
    pub fn new(
        header: &[u8],
        id: u8,
        length: u8,
        error: u8,
        params: &[u8],
        checksum: u8,
    ) -> (r: Result<StatusPacket, FrameFault>)
        ensures
            validated_view(r) == frame_check(header@, id, length, error, params@, checksum),
            r matches Ok(p) ==> p@.wf(),
    {
        proof {
            assert(header_sentinel().len() == 2);
            assert(header_sentinel()[0] == HEADER_BYTE);
            assert(header_sentinel()[1] == HEADER_BYTE);
        }
        if !(header.len() == 2
            && *slice_index_get(header, 0) == HEADER_BYTE
            && *slice_index_get(header, 1) == HEADER_BYTE) {
            return Err(FrameFault::BadHeader);
        }
        proof {
            assert(header@ =~= header_sentinel());
        }
        if length < 2 || params.len() != (length - 2) as usize {
            return Err(FrameFault::BadLength);
        }
        if !verify_checksum(id, length, error, params, checksum) {
            return Err(FrameFault::ChecksumMismatch);
        }
        Ok(StatusPacket { id, length, error, params: slice_to_vec(params), checksum })
    }

    /// Device id the frame came from.
    pub fn id(&self) -> (r: u8)
        ensures
            r == self@.id,
    {
        self.id
    }

    /// The frame's length byte: parameter count plus two.
    pub fn length(&self) -> (r: u8)
        ensures
            r == self@.length,
    {
        self.length
    }

    /// The device's status/error bitfield, opaque to this layer.
    pub fn error(&self) -> (r: u8)
        ensures
            r == self@.error,
    {
        self.error
    }

    /// The frame's parameter bytes, opaque to this layer.
    pub fn parameters(&self) -> (r: &Vec<u8>)
        ensures
            r@ == self@.parameters,
    {
        &self.params
    }

    /// The checksum byte the frame carried (and that validation confirmed).
    pub fn checksum(&self) -> (r: u8)
        ensures
            r == self@.checksum,
    {
        self.checksum
    }
}

} // verus!
