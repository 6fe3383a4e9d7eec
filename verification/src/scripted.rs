//! A transport whose reads are served from a fixed byte script and whose
//! writes are collected, for exercising a session without a physical bus.
//! Faults can be injected to drive every branch of the outcome taxonomy.

use crate::outcome::{ReadFault, WriteFault};
use crate::transport::{read_echo, write_echo, Event, Transport};
use vstd::prelude::*;

verus! {

/// A scripted transport: reads consume the script in order and raise
/// `Exhausted` when it runs short; writes are appended to a record.
pub struct ScriptedTransport {
    script: Vec<u8>,
    cursor: usize,
    written: Vec<u8>,
    write_fault: Option<WriteFault>,
    read_fault: Option<ReadFault>,
    history: Ghost<Seq<Event>>,
}

impl ScriptedTransport {
    /// How many script bytes reads have consumed so far.
    pub closed spec fn spec_bytes_read(&self) -> int {
        self.cursor as int
    }

    /// Every byte writes have carried so far, in order.
    pub closed spec fn spec_written(&self) -> Seq<u8> {
        self.written@
    }

    /// The injected write fault, if any.
    pub closed spec fn spec_write_fault(&self) -> Option<WriteFault> {
        self.write_fault
    }

    /// The injected read fault, if any.
    pub closed spec fn spec_read_fault(&self) -> Option<ReadFault> {
        self.read_fault
    }

    /// A fresh transport over the given script: nothing read, nothing
    /// written, no fault injected, an empty history.
    pub fn new(script: Vec<u8>) -> (r: ScriptedTransport)
        ensures
            r.log() == Seq::<Event>::empty(),
            r.spec_bytes_read() == 0,
            r.spec_written() == Seq::<u8>::empty(),
            r.spec_write_fault() is None,
            r.spec_read_fault() is None,
    {
        ScriptedTransport {
            script,
            cursor: 0,
            written: Vec::new(),
            write_fault: None,
            read_fault: None,
            history: Ghost(Seq::empty()),
        }
    }

    /// Make every later write raise the given fault.
    pub fn fail_writes(&mut self, fault: WriteFault)
        ensures
            final(self).spec_write_fault() == Some(fault),
            final(self).spec_read_fault() == old(self).spec_read_fault(),
            final(self).log() == old(self).log(),
            final(self).spec_written() == old(self).spec_written(),
            final(self).spec_bytes_read() == old(self).spec_bytes_read(),
    {
        self.write_fault = Some(fault);
    }

    /// Make every later read raise the given fault.
    pub fn fail_reads(&mut self, fault: ReadFault)
        ensures
            final(self).spec_read_fault() == Some(fault),
            final(self).spec_write_fault() == old(self).spec_write_fault(),
            final(self).log() == old(self).log(),
            final(self).spec_written() == old(self).spec_written(),
            final(self).spec_bytes_read() == old(self).spec_bytes_read(),
    {
        self.read_fault = Some(fault);
    }

    /// How many script bytes reads have consumed so far.
    pub fn bytes_read(&self) -> (r: usize)
        ensures
            r == self.spec_bytes_read(),
    {
        self.cursor
    }

    /// Every byte writes have carried so far, in order.
    pub fn written(&self) -> (r: &Vec<u8>)
        ensures
            r@ == self.spec_written(),
    {
        &self.written
    }
}

impl Transport for ScriptedTransport {
    closed spec fn log(&self) -> Seq<Event> {
        self.history@
    }

    fn write_all(&mut self, bytes: &Vec<u8>) -> (r: Result<(), WriteFault>) {
        match self.write_fault {
            Some(f) => {
                self.history = Ghost(self.history@.push(write_echo(bytes@, Err(f))));
                Err(f)
            },
            None => {
                let mut i: usize = 0;
                while i < bytes.len()
                    invariant
                        i <= bytes@.len(),
                        self.written@ == old(self).written@ + bytes@.take(i as int),
                        self.script == old(self).script,
                        self.cursor == old(self).cursor,
                        self.write_fault == old(self).write_fault,
                        self.read_fault == old(self).read_fault,
                        self.history == old(self).history,
                    decreases bytes@.len() - i,
                {
                    self.written.push(bytes[i]);
                    proof {
                        assert(bytes@.take(i + 1) =~= bytes@.take(i as int).push(bytes@[i as int]));
                        assert(self.written@ =~= old(self).written@ + bytes@.take(i + 1));
                    }
                    i = i + 1;
                }
                self.history = Ghost(self.history@.push(write_echo(bytes@, Ok(()))));
                Ok(())
            },
        }
    }

    fn read_exact(&mut self, count: usize) -> (r: Result<Vec<u8>, ReadFault>) {
        match self.read_fault {
            Some(f) => {
                self.history = Ghost(self.history@.push(read_echo(count as nat, Err(f))));
                Err(f)
            },
            None => {
                if self.cursor <= self.script.len() && count <= self.script.len() - self.cursor {
                    let len = self.script.len();
                    let mut out: Vec<u8> = Vec::new();
                    let mut i: usize = 0;
                    while i < count
                        invariant
                            i <= count,
                            len == self.script@.len(),
                            self.cursor + count <= len,
                            out@ == self.script@.subrange(
                                self.cursor as int,
                                self.cursor + i as int,
                            ),
                            self == old(self),
                        decreases count - i,
                    {
                        out.push(self.script[self.cursor + i]);
                        proof {
                            assert(self.script@.subrange(self.cursor as int, self.cursor + i + 1)
                                =~= self.script@.subrange(self.cursor as int, self.cursor + i as int)
                                    .push(self.script@[self.cursor + i as int]));
                        }
                        i = i + 1;
                    }
                    self.cursor = self.cursor + count;
                    self.history = Ghost(self.history@.push(read_echo(count as nat, Ok(out))));
                    proof {
                        assert(out@.len() == count);
                    }
                    Ok(out)
                } else {
                    self.history = Ghost(
                        self.history@.push(read_echo(count as nat, Err(ReadFault::Exhausted))),
                    );
                    Err(ReadFault::Exhausted)
                }
            },
        }
    }
}

} // verus!
