//! Outbound instruction frames: the closed set of request kinds with their
//! wire codes and per-kind contracts, and construction plus serialization
//! of a checksummed request frame.

use crate::checksum::{checksum_of, compute_checksum};
use crate::outcome::TxResult;
use crate::status::HEADER_BYTE;
use vstd::prelude::*;

verus! {

/// A frame's total wire size (length byte plus the four bytes around it)
/// may not exceed this; anything longer is refused at construction.
pub const MAX_TOTAL_FRAME_BYTES: u32 = 250;

/// The largest parameter count a frame can carry: total bytes are
/// `length + 4` and `length` is the parameter count plus two.
pub const MAX_PARAMETER_COUNT: usize = 244;

/// The closed set of request kinds.
#[derive(Clone, Copy, PartialEq, Eq, Structural, Debug)]
pub enum Instruction {
    Ping,
    Read,
    Write,
    RegWrite,
    Action,
    SyncWrite,
    SyncRead,
}

/// How many parameter bytes a request kind carries: a fixed count, or a
/// fixed prefix (such as a register address) followed by data bytes whose
/// layout belongs to the command facade.
#[derive(Clone, Copy, PartialEq, Eq, Structural, Debug)]
pub enum ParameterContract {
    Exactly(u8),
    AtLeast(u8),
}

/// How a single addressed device answers a request kind: with a status
/// frame carrying requested data, with a bare acknowledgement status frame,
/// or not at all.
#[derive(Clone, Copy, PartialEq, Eq, Structural, Debug)]
pub enum ReplyShape {
    DataReply,
    AckReply,
    NoReply,
}

impl Instruction {
    /// The fixed numeric wire code of each request kind.
    pub open spec fn spec_code(self) -> u8 {
        match self {
            Instruction::Ping => 0x01,
            Instruction::Read => 0x02,
            Instruction::Write => 0x03,
            Instruction::RegWrite => 0x04,
            Instruction::Action => 0x05,
            Instruction::SyncWrite => 0x83,
            Instruction::SyncRead => 0x82,
        }
    }

    /// The fixed numeric wire code of each request kind.
    pub fn code(self) -> (r: u8)
        ensures
            r == self.spec_code(),
    {
        match self {
            Instruction::Ping => 0x01,
            Instruction::Read => 0x02,
            Instruction::Write => 0x03,
            Instruction::RegWrite => 0x04,
            Instruction::Action => 0x05,
            Instruction::SyncWrite => 0x83,
            Instruction::SyncRead => 0x82,
        }
    }

    /// The parameter-count contract of each request kind. Reads carry a
    /// start address and a count; writes carry a start address and then
    /// data; the synchronized kinds carry an address, a per-device width,
    /// and then per-device entries. The byte layouts themselves belong to
    /// the command facade — this layer only carries them.
    pub open spec fn spec_parameter_contract(self) -> ParameterContract {
        match self {
            Instruction::Ping => ParameterContract::Exactly(0),
            Instruction::Read => ParameterContract::Exactly(2),
            Instruction::Write => ParameterContract::AtLeast(1),
            Instruction::RegWrite => ParameterContract::AtLeast(1),
            Instruction::Action => ParameterContract::Exactly(0),
            Instruction::SyncWrite => ParameterContract::AtLeast(2),
            Instruction::SyncRead => ParameterContract::AtLeast(2),
        }
    }

    /// The parameter-count contract of each request kind.
    pub fn parameter_contract(self) -> (r: ParameterContract)
        ensures
            r == self.spec_parameter_contract(),
    {
        match self {
            Instruction::Ping => ParameterContract::Exactly(0),
            Instruction::Read => ParameterContract::Exactly(2),
            Instruction::Write => ParameterContract::AtLeast(1),
            Instruction::RegWrite => ParameterContract::AtLeast(1),
            Instruction::Action => ParameterContract::Exactly(0),
            Instruction::SyncWrite => ParameterContract::AtLeast(2),
            Instruction::SyncRead => ParameterContract::AtLeast(2),
        }
    }

    /// The response shape of each request kind for an addressed (non
    /// broadcast) device.
    pub open spec fn spec_reply_shape(self) -> ReplyShape {
        match self {
            Instruction::Ping => ReplyShape::AckReply,
            Instruction::Read => ReplyShape::DataReply,
            Instruction::Write => ReplyShape::AckReply,
            Instruction::RegWrite => ReplyShape::AckReply,
            Instruction::Action => ReplyShape::AckReply,
            Instruction::SyncWrite => ReplyShape::NoReply,
            Instruction::SyncRead => ReplyShape::DataReply,
        }
    }

    /// The response shape of each request kind for an addressed device.
    pub fn reply_shape(self) -> (r: ReplyShape)
        ensures
            r == self.spec_reply_shape(),
    {
        match self {
            Instruction::Ping => ReplyShape::AckReply,
            Instruction::Read => ReplyShape::DataReply,
            Instruction::Write => ReplyShape::AckReply,
            Instruction::RegWrite => ReplyShape::AckReply,
            Instruction::Action => ReplyShape::AckReply,
            Instruction::SyncWrite => ReplyShape::NoReply,
            Instruction::SyncRead => ReplyShape::DataReply,
        }
    }

    /// The fewest parameter bytes the kind's contract admits.
    pub open spec fn spec_min_parameters(self) -> u8 {
        match self.spec_parameter_contract() {
            ParameterContract::Exactly(n) => n,
            ParameterContract::AtLeast(n) => n,
        }
    }

    /// The smallest legal value of the length field for a frame carrying
    /// this request kind: its minimum parameter count plus two.
    pub fn length(&self) -> (r: u8)
        ensures
            r == self.spec_min_parameters() + 2,
    {
        match self.parameter_contract() {
            ParameterContract::Exactly(n) => n + 2,
            ParameterContract::AtLeast(n) => n + 2,
        }
    }
}

/// Mathematical content of an instruction frame.
pub struct InstructionView {
    pub id: u8,
    pub length: u8,
    pub instruction: u8,
    pub parameters: Seq<u8>,
    pub checksum: u8,
}

/// The exact wire layout of a request to a device: the header sentinel,
/// the device id, the length field covering the parameters plus two, the
/// instruction code, the parameter bytes, and the checksum byte.
pub open spec fn frame_bytes(id: u8, instruction: u8, parameters: Seq<u8>) -> Seq<u8> {
    seq![HEADER_BYTE, HEADER_BYTE, id, (parameters.len() + 2) as u8, instruction]
        + parameters
        + seq![checksum_of(id, (parameters.len() + 2) as u8, instruction, parameters)]
}

/// An outbound request frame. Its checksum is computed once, at
/// construction, and never mutated independently of the fields it covers.
#[derive(PartialEq, Eq, Debug)]
pub struct InstructionPacket {
    id: u8,
    length: u8,
    instruction: u8,
    parameters: Vec<u8>,
    checksum: u8,
}

impl View for InstructionPacket {
    type V = InstructionView;

    closed spec fn view(&self) -> InstructionView {
        InstructionView {
            id: self.id,
            length: self.length,
            instruction: self.instruction,
            parameters: self.parameters@,
            checksum: self.checksum,
        }
    }
}

impl InstructionPacket {
    /// Invariant of every frame this layer builds: the length byte counts
    /// the parameters plus two, the whole frame fits on the wire, and the
    /// checksum byte is the one the covered fields demand.
    pub open spec fn wf(self) -> bool {
        &&& self@.parameters.len() <= MAX_PARAMETER_COUNT
        &&& self@.length == self@.parameters.len() + 2
        &&& self@.length + 4 <= MAX_TOTAL_FRAME_BYTES
        &&& self@.checksum == checksum_of(self@.id, self@.length, self@.instruction, self@.parameters)
    }

    /// Build a request frame for a device (or the broadcast id), a request
    /// kind, and its parameter bytes. A frame whose total wire size would
    /// exceed 250 bytes — more than 244 parameters — is refused before any
    /// byte can reach the transport.
    pub fn new(id: u8, instruction: Instruction, parameters: Vec<u8>) -> (r: Result<
        InstructionPacket,
        TxResult,
    >)
        ensures
            r is Err <==> parameters@.len() > MAX_PARAMETER_COUNT,
            r matches Err(e) ==> e == TxResult::TxError,
            r matches Ok(p) ==> {
                &&& p.wf()
                &&& p@ == (InstructionView {
                    id,
                    length: (parameters@.len() + 2) as u8,
                    instruction: instruction.spec_code(),
                    parameters: parameters@,
                    checksum: checksum_of(
                        id,
                        (parameters@.len() + 2) as u8,
                        instruction.spec_code(),
                        parameters@,
                    ),
                })
                &&& p.spec_bytes() == frame_bytes(id, instruction.spec_code(), parameters@)
            },
    {
        if parameters.len() > MAX_PARAMETER_COUNT {
            return Err(TxResult::TxError);
        }
        let length = (parameters.len() + 2) as u8;
        let code = instruction.code();
        let checksum = compute_checksum(id, length, code, parameters.as_slice());
        let packet = InstructionPacket { id, length, instruction: code, parameters, checksum };
        proof {
            assert(packet.spec_bytes() =~= frame_bytes(id, instruction.spec_code(), packet@.parameters));
        }
        Ok(packet)
    }

    /// The exact byte sequence this frame puts on the wire.
    pub open spec fn spec_bytes(self) -> Seq<u8> {
        seq![HEADER_BYTE, HEADER_BYTE, self@.id, self@.length, self@.instruction]
            + self@.parameters
            + seq![self@.checksum]
    }

    /// Device id the frame is addressed to.
    pub fn id(&self) -> (r: u8)
        ensures
            r == self@.id,
    {
        self.id
    }

    /// The frame's length byte: parameter count plus two.
    pub fn length(&self) -> (r: u8)
        ensures
            r == self@.length,
    {
        self.length
    }

    /// The wire code of the frame's request kind.
    pub fn instruction(&self) -> (r: u8)
        ensures
            r == self@.instruction,
    {
        self.instruction
    }

    /// The frame's parameter bytes.
    pub fn parameters(&self) -> (r: &Vec<u8>)
        ensures
            r@ == self@.parameters,
    {
        &self.parameters
    }

    /// The checksum byte computed at construction.
    pub fn checksum(&self) -> (r: u8)
        ensures
            r == self@.checksum,
    {
        self.checksum
    }

    /// The frame's total wire size: the length field plus the two header
    /// bytes, the id byte, and the length byte itself.
    pub fn get_total_packet_length(&self) -> (r: u32)
        ensures
            r == self@.length + 4,
    {
        self.length as u32 + 4
    }

    /// Serialize the frame into the fixed, non-negotiable wire layout:
    /// `[0xFF, 0xFF, id, length, instruction, parameters.., checksum]`.
    pub fn as_bytes(&self) -> (r: Vec<u8>)
        ensures
            r@ == self.spec_bytes(),
    {
        let mut bytes: Vec<u8> = Vec::new();
        bytes.push(HEADER_BYTE);
        bytes.push(HEADER_BYTE);
        bytes.push(self.id);
        bytes.push(self.length);
        bytes.push(self.instruction);
        let mut i: usize = 0;
        while i < self.parameters.len()
            invariant
                i <= self@.parameters.len(),
                bytes@ == seq![
                    HEADER_BYTE,
                    HEADER_BYTE,
                    self@.id,
                    self@.length,
                    self@.instruction,
                ] + self@.parameters.take(i as int),
            decreases self@.parameters.len() - i,
        {
            bytes.push(self.parameters[i]);
            proof {
                assert(self@.parameters.take(i + 1) =~= self@.parameters.take(i as int).push(
                    self@.parameters[i as int],
                ));
            }
            i = i + 1;
        }
        bytes.push(self.checksum);
        proof {
            assert(self@.parameters.take(self@.parameters.len() as int) =~= self@.parameters);
            assert(bytes@ =~= self.spec_bytes());
        }
        bytes
    }
}

} // verus!
