use servobus::instruction::Instruction;
use servobus::outcome::{FrameFault, ReadFault, RxResult, WriteFault};
use servobus::scripted::ScriptedTransport;
use servobus::session::{Endianness, PacketHandler};

#[test]
fn session_stores_little_endian_configuration() {
    let handler = PacketHandler::new(ScriptedTransport::new(vec![]));
    assert_eq!(handler.endianness(), Endianness::Little);
}

#[test]
fn broadcast_ping_succeeds_without_reading() {
    let mut handler = PacketHandler::new(ScriptedTransport::new(vec![]));
    let r = handler.ping(254);
    assert!(matches!(r, RxResult::Success(None)));
    // ~(0xFE + 0x02 + 0x01) & 0xFF = 0xFE
    assert_eq!(
        handler.port().written(),
        &vec![0xFF, 0xFF, 0xFE, 0x02, 0x01, 0xFE]
    );
    assert_eq!(handler.port().bytes_read(), 0);
}

#[test]
fn addressed_ping_round_trip_returns_status() {
    // response: id 1, length 2, no error; ~(1 + 2 + 0) = 0xFC
    let script = vec![0xFF, 0xFF, 0x01, 0x02, 0x00, 0xFC];
    let mut handler = PacketHandler::new(ScriptedTransport::new(script));
    let r = handler.ping(1);
    match r {
        RxResult::Success(Some(p)) => {
            assert_eq!(p.id(), 1);
            assert_eq!(p.length(), 2);
            assert_eq!(p.error(), 0);
            assert!(p.parameters().is_empty());
            assert_eq!(p.checksum(), 0xFC);
        }
        _ => panic!("expected a status frame"),
    }
    assert_eq!(
        handler.port().written(),
        &vec![0xFF, 0xFF, 0x01, 0x02, 0x01, 0xFB]
    );
    assert_eq!(handler.port().bytes_read(), 6);
}

#[test]
fn read_round_trip_carries_data_parameters() {
    // response: id 1, length 4, no error, data [0x20, 0x03]; ~0x28 = 0xD7
    let script = vec![0xFF, 0xFF, 0x01, 0x04, 0x00, 0x20, 0x03, 0xD7];
    let mut handler = PacketHandler::new(ScriptedTransport::new(script));
    let r = handler.tx_rx_packet(1, Instruction::Read, vec![0x38, 0x02]);
    match r {
        RxResult::Success(Some(p)) => {
            assert_eq!(p.parameters(), &vec![0x20, 0x03]);
            assert_eq!(p.error(), 0);
        }
        _ => panic!("expected a status frame"),
    }
    // request: ~(1 + 4 + 2 + 0x38 + 0x02) = 0xBE
    assert_eq!(
        handler.port().written(),
        &vec![0xFF, 0xFF, 0x01, 0x04, 0x02, 0x38, 0x02, 0xBE]
    );
}

#[test]
fn flipped_checksum_byte_is_corrupt() {
    // valid stream would end 0xFC; its checksum byte arrives flipped
    let script = vec![0xFF, 0xFF, 0x01, 0x02, 0x00, 0xFD];
    let mut handler = PacketHandler::new(ScriptedTransport::new(script));
    let r = handler.ping(1);
    assert!(matches!(
        r,
        RxResult::RxCorrupt(FrameFault::ChecksumMismatch)
    ));
}

#[test]
fn stream_without_sentinel_is_corrupt() {
    let script = vec![0x12, 0x34, 0x01, 0x02, 0x00, 0xFC];
    let mut handler = PacketHandler::new(ScriptedTransport::new(script));
    let r = handler.ping(1);
    assert!(matches!(r, RxResult::RxCorrupt(FrameFault::BadHeader)));
    // the parse stops after the two header bytes
    assert_eq!(handler.port().bytes_read(), 2);
}

#[test]
fn undersized_length_byte_is_corrupt() {
    let script = vec![0xFF, 0xFF, 0x01, 0x00, 0x00];
    let mut handler = PacketHandler::new(ScriptedTransport::new(script));
    let r = handler.ping(1);
    assert!(matches!(r, RxResult::RxCorrupt(FrameFault::BadLength)));
}

#[test]
fn short_tail_is_corrupt_not_a_transport_failure() {
    // length byte promises 3 parameter bytes; the stream ends first
    let script = vec![0xFF, 0xFF, 0x01, 0x05, 0x00];
    let mut handler = PacketHandler::new(ScriptedTransport::new(script));
    let r = handler.ping(1);
    assert!(matches!(r, RxResult::RxCorrupt(FrameFault::Truncated)));
}

#[test]
fn oversize_round_trip_never_touches_the_transport() {
    let mut handler = PacketHandler::new(ScriptedTransport::new(vec![]));
    let r = handler.tx_rx_packet(1, Instruction::SyncWrite, vec![0u8; 245]);
    assert!(matches!(r, RxResult::RxFail));
    assert!(handler.port().written().is_empty());
    assert_eq!(handler.port().bytes_read(), 0);
}

#[test]
fn write_contention_maps_to_port_busy() {
    let mut port = ScriptedTransport::new(vec![]);
    port.fail_writes(WriteFault::Busy);
    let mut handler = PacketHandler::new(port);
    assert!(matches!(handler.ping(1), RxResult::PortBusy));
}

#[test]
fn write_failure_maps_to_rx_fail() {
    let mut port = ScriptedTransport::new(vec![]);
    port.fail_writes(WriteFault::Failure);
    let mut handler = PacketHandler::new(port);
    assert!(matches!(handler.ping(1), RxResult::RxFail));
}

#[test]
fn write_unavailable_maps_to_not_available() {
    let mut port = ScriptedTransport::new(vec![]);
    port.fail_writes(WriteFault::Unavailable);
    let mut handler = PacketHandler::new(port);
    assert!(matches!(handler.ping(1), RxResult::NotAvailable));
}

#[test]
fn read_deadline_expiry_maps_to_timeout() {
    let mut port = ScriptedTransport::new(vec![]);
    port.fail_reads(ReadFault::Timeout);
    let mut handler = PacketHandler::new(port);
    assert!(matches!(handler.ping(1), RxResult::RxTimeout));
}

#[test]
fn read_failure_maps_to_rx_fail() {
    let mut port = ScriptedTransport::new(vec![]);
    port.fail_reads(ReadFault::Failure);
    let mut handler = PacketHandler::new(port);
    assert!(matches!(handler.ping(1), RxResult::RxFail));
}

#[test]
fn read_unavailable_maps_to_not_available() {
    let mut port = ScriptedTransport::new(vec![]);
    port.fail_reads(ReadFault::Unavailable);
    let mut handler = PacketHandler::new(port);
    assert!(matches!(handler.ping(1), RxResult::NotAvailable));
}

#[test]
fn round_trips_reach_the_bus_in_call_order() {
    // two ping responses back to back
    let script = vec![
        0xFF, 0xFF, 0x01, 0x02, 0x00, 0xFC, // ~(1+2+0) = 0xFC
        0xFF, 0xFF, 0x02, 0x02, 0x00, 0xFB, // ~(2+2+0) = 0xFB
    ];
    let mut handler = PacketHandler::new(ScriptedTransport::new(script));
    let first = handler.ping(1);
    let second = handler.ping(2);
    assert!(matches!(first, RxResult::Success(Some(_))));
    assert!(matches!(second, RxResult::Success(Some(_))));
    // the transport saw the first request in full, then the second
    assert_eq!(
        handler.port().written(),
        &vec![
            0xFF, 0xFF, 0x01, 0x02, 0x01, 0xFB, // ~(1+2+1) = 0xFB
            0xFF, 0xFF, 0x02, 0x02, 0x01, 0xFA, // ~(2+2+1) = 0xFA
        ]
    );
}
