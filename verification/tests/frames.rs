use servobus::checksum::{compute_checksum, verify_checksum};
use servobus::instruction::{Instruction, InstructionPacket, ParameterContract, ReplyShape};
use servobus::outcome::{FrameFault, TxResult};
use servobus::status::StatusPacket;

#[test]
fn checksum_of_ping_frame_fields() {
    // ~(1 + 2 + 1) & 0xFF
    assert_eq!(compute_checksum(1, 2, 1, &[]), 0xFB);
}

#[test]
fn checksum_covers_parameters() {
    // 1 + 4 + 2 + 0x38 + 0x02 = 0x41; ~0x41 = 0xBE
    assert_eq!(compute_checksum(1, 4, 2, &[0x38, 0x02]), 0xBE);
}

#[test]
fn checksum_sum_wraps_to_low_byte() {
    // 0xFE + 2 + 1 = 0x101; low byte 0x01; ~0x01 = 0xFE
    assert_eq!(compute_checksum(0xFE, 2, 1, &[]), 0xFE);
}

#[test]
fn verify_accepts_computed_checksum() {
    let c = compute_checksum(7, 5, 3, &[1, 2, 3]);
    assert!(verify_checksum(7, 5, 3, &[1, 2, 3], c));
}

#[test]
fn verify_rejects_flipped_checksum() {
    let c = compute_checksum(7, 5, 3, &[1, 2, 3]);
    assert!(!verify_checksum(7, 5, 3, &[1, 2, 3], !c));
    assert!(!verify_checksum(7, 5, 3, &[1, 2, 3], c.wrapping_add(1)));
}

#[test]
fn instruction_codes_are_the_wire_table() {
    assert_eq!(Instruction::Ping.code(), 0x01);
    assert_eq!(Instruction::Read.code(), 0x02);
    assert_eq!(Instruction::Write.code(), 0x03);
    assert_eq!(Instruction::RegWrite.code(), 0x04);
    assert_eq!(Instruction::Action.code(), 0x05);
    assert_eq!(Instruction::SyncWrite.code(), 0x83);
    assert_eq!(Instruction::SyncRead.code(), 0x82);
}

#[test]
fn instruction_minimum_lengths() {
    assert_eq!(Instruction::Ping.length(), 2);
    assert_eq!(Instruction::Read.length(), 4);
    assert_eq!(Instruction::Write.length(), 3);
    assert_eq!(Instruction::RegWrite.length(), 3);
    assert_eq!(Instruction::Action.length(), 2);
    assert_eq!(Instruction::SyncWrite.length(), 4);
    assert_eq!(Instruction::SyncRead.length(), 4);
}

#[test]
fn instruction_contracts_and_reply_shapes() {
    assert_eq!(Instruction::Ping.parameter_contract(), ParameterContract::Exactly(0));
    assert_eq!(Instruction::Read.parameter_contract(), ParameterContract::Exactly(2));
    assert_eq!(Instruction::Write.parameter_contract(), ParameterContract::AtLeast(1));
    assert_eq!(Instruction::Ping.reply_shape(), ReplyShape::AckReply);
    assert_eq!(Instruction::Read.reply_shape(), ReplyShape::DataReply);
    assert_eq!(Instruction::SyncWrite.reply_shape(), ReplyShape::NoReply);
}

#[test]
fn build_ping_frame_example() {
    let p = InstructionPacket::new(1, Instruction::Ping, vec![]).unwrap();
    assert_eq!(p.id(), 1);
    assert_eq!(p.length(), 2);
    assert_eq!(p.instruction(), 0x01);
    assert_eq!(p.checksum(), 0xFB);
    assert_eq!(p.get_total_packet_length(), 6);
    assert_eq!(p.as_bytes(), vec![0xFF, 0xFF, 0x01, 0x02, 0x01, 0xFB]);
}

#[test]
fn build_write_frame_serializes_parameters_in_order() {
    let p = InstructionPacket::new(1, Instruction::Write, vec![0x2A, 0x00, 0x02]).unwrap();
    // 1 + 5 + 3 + 0x2A + 0x00 + 0x02 = 0x35; ~0x35 = 0xCA
    assert_eq!(
        p.as_bytes(),
        vec![0xFF, 0xFF, 0x01, 0x05, 0x03, 0x2A, 0x00, 0x02, 0xCA]
    );
    assert_eq!(p.parameters(), &vec![0x2A, 0x00, 0x02]);
}

#[test]
fn build_accepts_largest_frame() {
    let p = InstructionPacket::new(3, Instruction::SyncWrite, vec![0u8; 244]).unwrap();
    assert_eq!(p.length(), 246);
    assert_eq!(p.get_total_packet_length(), 250);
    assert_eq!(p.as_bytes().len(), 250);
}

#[test]
fn build_refuses_oversize_frame() {
    let r = InstructionPacket::new(3, Instruction::SyncWrite, vec![0u8; 245]);
    assert_eq!(r.unwrap_err(), TxResult::TxError);
}

#[test]
fn status_accepts_valid_fields() {
    // 1 + 4 + 0 + 0x20 + 0x03 = 0x28; ~0x28 = 0xD7
    let p = StatusPacket::new(&[0xFF, 0xFF], 1, 4, 0, &[0x20, 0x03], 0xD7).unwrap();
    assert_eq!(p.id(), 1);
    assert_eq!(p.length(), 4);
    assert_eq!(p.error(), 0);
    assert_eq!(p.parameters(), &vec![0x20, 0x03]);
    assert_eq!(p.checksum(), 0xD7);
}

#[test]
fn status_rejects_wrong_header() {
    let r = StatusPacket::new(&[0xFF, 0xFD], 1, 2, 0, &[], 0xFC);
    assert_eq!(r.unwrap_err(), FrameFault::BadHeader);
}

#[test]
fn status_rejects_length_that_cannot_cover_parameters() {
    let r = StatusPacket::new(&[0xFF, 0xFF], 1, 1, 0, &[], 0xFD);
    assert_eq!(r.unwrap_err(), FrameFault::BadLength);
    let r2 = StatusPacket::new(&[0xFF, 0xFF], 1, 4, 0, &[0x20], 0xD7);
    assert_eq!(r2.unwrap_err(), FrameFault::BadLength);
}

#[test]
fn status_rejects_checksum_mismatch() {
    // correct checksum is 0xFC
    let r = StatusPacket::new(&[0xFF, 0xFF], 1, 2, 0, &[], 0xFD);
    assert_eq!(r.unwrap_err(), FrameFault::ChecksumMismatch);
}
