//! The byte channel this layer writes requests to and reads responses
//! from: a serial line in the field, a scripted stand-in under test. The
//! channel keeps a ghost history of the operations it observed, so that
//! contracts can pin down what a round trip does to the bus.

use crate::outcome::{ReadFault, WriteFault};
use vstd::prelude::*;

verus! {

/// One operation a transport observed, with its outcome as the caller saw
/// it: the bytes a write carried and the fault it raised if any, or the
/// count a read asked for and the bytes it delivered or the fault it
/// raised.
pub enum Event {
    Write { bytes: Seq<u8>, fault: Option<WriteFault> },
    Read { count: nat, data: Result<Seq<u8>, ReadFault> },
}

/// The event a finished write leaves in the history.
pub open spec fn write_echo(bytes: Seq<u8>, r: Result<(), WriteFault>) -> Event {
    match r {
        Ok(_) => Event::Write { bytes, fault: None },
        Err(f) => Event::Write { bytes, fault: Some(f) },
    }
}

/// The event a finished read leaves in the history.
pub open spec fn read_echo(count: nat, r: Result<Vec<u8>, ReadFault>) -> Event {
    match r {
        Ok(v) => Event::Read { count, data: Ok(v@) },
        Err(f) => Event::Read { count, data: Err(f) },
    }
}

/// A blocking, exact byte channel. `log()` is the ghost history of the
/// operations the channel observed, oldest first; every call appends
/// exactly one event, so the history also fixes the order in which the
/// bus saw the traffic.
pub trait Transport: Sized {
    /// The ghost history of operations this channel has observed.
    spec fn log(&self) -> Seq<Event>;

    /// Write the whole byte sequence, or raise a fault; nothing is
    /// reported written partially.
    fn write_all(&mut self, bytes: &Vec<u8>) -> (r: Result<(), WriteFault>)
        ensures
            final(self).log() == old(self).log().push(write_echo(bytes@, r)),
    ;

    /// Read exactly `count` bytes, or raise a fault: either all requested
    /// bytes are delivered or an error is returned — no short, silent
    /// reads.
    fn read_exact(&mut self, count: usize) -> (r: Result<Vec<u8>, ReadFault>)
        ensures
            final(self).log() == old(self).log().push(read_echo(count as nat, r)),
            r matches Ok(v) ==> v@.len() == count,
    ;
}

} // verus!
