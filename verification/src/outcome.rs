//! The closed sets of transmit and receive results, the faults a transport
//! can raise, and the fixed mappings between them. Every fault on the bus is
//! returned as a value; nothing in this layer terminates the process.

use crate::status::StatusPacket;
use vstd::prelude::*;

verus! {

/// Faults a transport can raise while writing a frame.
#[derive(Clone, Copy, PartialEq, Eq, Structural, Debug)]
pub enum WriteFault {
    /// The port is held by another exchange (contention).
    Busy,
    /// The write failed for any other input/output reason.
    Failure,
    /// The port is gone or was never open.
    Unavailable,
}

/// Faults a transport can raise while reading an exact number of bytes.
/// A transport never returns a short read silently: when fewer bytes than
/// requested are available it raises `Exhausted` instead.
#[derive(Clone, Copy, PartialEq, Eq, Structural, Debug)]
pub enum ReadFault {
    /// The port is held by another exchange (contention).
    Busy,
    /// The transport's configured read deadline expired.
    Timeout,
    /// The stream ended before the requested count was available.
    Exhausted,
    /// The read failed for any other input/output reason.
    Failure,
    /// The port is gone or was never open.
    Unavailable,
}

/// Why a received frame was rejected; carried inside the corrupt outcome
/// for diagnostics.
#[derive(Clone, Copy, PartialEq, Eq, Structural, Debug)]
pub enum FrameFault {
    /// The two leading bytes were not the `0xFF 0xFF` sentinel.
    BadHeader,
    /// The length byte was below the two bytes every status frame carries.
    BadLength,
    /// The received checksum byte differs from the one the fields demand.
    ChecksumMismatch,
    /// The stream ended before the frame's fixed-length tail was complete.
    Truncated,
}

/// Outcome of transmitting one instruction frame.
#[derive(Clone, Copy, PartialEq, Eq, Structural, Debug)]
pub enum TxResult {
    /// The whole serialized frame was handed to the transport.
    Success,
    /// The transport reported contention on the port.
    PortBusy,
    /// The transport failed to take the bytes.
    TxFail,
    /// The frame was refused at construction: its total length would
    /// exceed the wire limit of 250 bytes.
    TxError,
    /// The transport is gone or was never open.
    NotAvailable,
}

/// Outcome of one full round trip. `Success(None)` is the only legal
/// outcome for a broadcast-addressed round trip: no device replies to the
/// broadcast id.
#[derive(PartialEq, Eq, Debug)]
pub enum RxResult {
    /// A validated status frame, or no frame where none is defined.
    Success(Option<StatusPacket>),
    /// The transport reported contention on the port.
    PortBusy,
    /// The transport failed while writing or reading.
    RxFail,
    /// The transport's read deadline expired before a full frame arrived.
    RxTimeout,
    /// The received bytes do not form a valid status frame.
    RxCorrupt(FrameFault),
    /// The transport is gone or was never open.
    NotAvailable,
}

/// Transmit outcome for each way a write can end: accepted, or refused
/// with a fault.
pub open spec fn tx_result_of(fault: Option<WriteFault>) -> TxResult {
    match fault {
        None => TxResult::Success,
        Some(WriteFault::Busy) => TxResult::PortBusy,
        Some(WriteFault::Failure) => TxResult::TxFail,
        Some(WriteFault::Unavailable) => TxResult::NotAvailable,
    }
}

/// Round-trip outcome of a write fault: contention surfaces as a busy
/// port, anything else as a transport failure or an unavailable port.
pub open spec fn rx_of_write_fault(fault: WriteFault) -> RxResult {
    match fault {
        WriteFault::Busy => RxResult::PortBusy,
        WriteFault::Failure => RxResult::RxFail,
        WriteFault::Unavailable => RxResult::NotAvailable,
    }
}

/// Round-trip outcome of a read fault. A deadline expiry is a timeout; a
/// stream that ends short of the frame's fixed-length tail is a protocol
/// violation and surfaces as corruption, not as a transport failure.
pub open spec fn rx_of_read_fault(fault: ReadFault) -> RxResult {
    match fault {
        ReadFault::Busy => RxResult::PortBusy,
        ReadFault::Timeout => RxResult::RxTimeout,
        ReadFault::Exhausted => RxResult::RxCorrupt(FrameFault::Truncated),
        ReadFault::Failure => RxResult::RxFail,
        ReadFault::Unavailable => RxResult::NotAvailable,
    }
}

/// Map a write fault to its round-trip outcome.
pub fn rx_outcome_of_write_fault(fault: WriteFault) -> (r: RxResult)
    ensures
        r == rx_of_write_fault(fault),
{
    match fault {
        WriteFault::Busy => RxResult::PortBusy,
        WriteFault::Failure => RxResult::RxFail,
        WriteFault::Unavailable => RxResult::NotAvailable,
    }
}

/// Map a read fault to its round-trip outcome.
pub fn rx_outcome_of_read_fault(fault: ReadFault) -> (r: RxResult)
    ensures
        r == rx_of_read_fault(fault),
{
    match fault {
        ReadFault::Busy => RxResult::PortBusy,
        ReadFault::Timeout => RxResult::RxTimeout,
        ReadFault::Exhausted => RxResult::RxCorrupt(FrameFault::Truncated),
        ReadFault::Failure => RxResult::RxFail,
        ReadFault::Unavailable => RxResult::NotAvailable,
    }
}

} // verus!
