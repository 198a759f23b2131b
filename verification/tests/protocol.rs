use microbit_car::num;
use microbit_car::protocol::{
    compute_checksum, create_emergency_stop_packet, create_heartbeat_packet, create_motion_packet,
    create_response_packet, create_telemetry_packet, CarStatus, MessageType, MotionPayload,
    RadioHeader, RadioPacket, ResponsePayload, TelemetryPayload, MAX_PACKET_SIZE, MAX_PAYLOAD_SIZE,
    PROTOCOL_VERSION,
};

fn frame_of(packet: &RadioPacket) -> Vec<u8> {
    let (buf, len) = packet.to_bytes();
    assert_eq!(len, packet.actual_size());
    assert!(buf[len..].iter().all(|b| *b == 0));
    buf[..len].to_vec()
}

fn check_golden(packet: RadioPacket, expected: &[u8]) {
    assert_eq!(frame_of(&packet), expected);
    let again = match RadioPacket::from_bytes(expected) {
        Some(packet) => packet,
        None => panic!("golden frame was rejected"),
    };
    assert_eq!(again.header, packet.header);
    assert_eq!(again.get_payload(), packet.get_payload());
    assert_eq!(frame_of(&again), expected);
}

#[test]
fn golden_heartbeat() {
    check_golden(create_heartbeat_packet(0x05), &[0x02, 0x00, 0x05, 0x00, 0x07]);
}

#[test]
fn golden_motion_forward() {
    check_golden(
        create_motion_packet(0x2A, 100, 0, 0),
        &[0x02, 0x01, 0x2A, 0x03, 0x64, 0x00, 0x00, 0x4E],
    );
}

#[test]
fn golden_motion_mixed() {
    check_golden(
        create_motion_packet(0x2B, -100, 50, -25),
        &[0x02, 0x01, 0x2B, 0x03, 0x9C, 0x32, 0xE7, 0x62],
    );
}

#[test]
fn golden_emergency_stop() {
    check_golden(create_emergency_stop_packet(0xFF), &[0x02, 0x04, 0xFF, 0x00, 0xF9]);
}

#[test]
fn golden_response() {
    check_golden(
        create_response_packet(0x10, CarStatus::Moving, 85),
        &[0x02, 0x02, 0x10, 0x02, 0x01, 0x55, 0x46],
    );
}

#[test]
fn golden_telemetry() {
    let telemetry =
        TelemetryPayload { battery: 85, speed: 70, heading: 128, vx: 100, vy: 0, omega: 0 };
    check_golden(
        create_telemetry_packet(0x42, telemetry),
        &[0x02, 0x03, 0x42, 0x06, 0x55, 0x46, 0x80, 0x64, 0x00, 0x00, 0xB2],
    );
}

#[test]
fn sizes() {
    assert_eq!(MAX_PACKET_SIZE, 32);
    assert_eq!(MAX_PAYLOAD_SIZE, 27);
    assert_eq!(PROTOCOL_VERSION, 2);
    assert_eq!(RadioHeader::SIZE, 4);
    assert_eq!(MotionPayload::SIZE, 3);
    assert_eq!(ResponsePayload::SIZE, 2);
    assert_eq!(TelemetryPayload::SIZE, 6);
}

#[test]
fn message_codes() {
    let all = [
        MessageType::Heartbeat,
        MessageType::Motion,
        MessageType::Response,
        MessageType::Telemetry,
        MessageType::EmergencyStop,
    ];
    for (i, t) in all.iter().enumerate() {
        assert_eq!(t.to_byte() as usize, i);
        assert_eq!(MessageType::from_byte(i as u8), Some(*t));
    }
    assert_eq!(MessageType::from_byte(5), None);
    assert_eq!(MessageType::from_byte(255), None);
    for code in 0..=255u8 {
        if let Some(status) = CarStatus::from_byte(code) {
            assert_eq!(status.to_byte(), code);
        }
    }
    assert_eq!(CarStatus::Moving.to_byte(), 1);
    assert_eq!(CarStatus::Stopped.to_byte(), 2);
}

#[test]
fn header_errors() {
    assert_eq!(RadioHeader::from_bytes(&[2, 0, 5]), None);
    assert_eq!(RadioHeader::from_bytes(&[2, 9, 5, 0]), None);
    let header = match RadioHeader::from_bytes(&[7, 1, 200, 3, 99]) {
        Some(header) => header,
        None => panic!("header was rejected"),
    };
    assert_eq!(header.version, 7);
    assert_eq!(header.msg_type, MessageType::Motion);
    assert_eq!(header.seq, 200);
    assert_eq!(header.payload_len, 3);
    assert_eq!(header.to_bytes(), [7, 1, 200, 3]);
}

#[test]
fn bad_frames_are_rejected() {
    let good = [0x02, 0x01, 0x2A, 0x03, 0x64, 0x00, 0x00, 0x4E];
    assert!(RadioPacket::from_bytes(&good).is_some());
    for n in 0..good.len() {
        assert!(RadioPacket::from_bytes(&good[..n]).is_none());
    }
    for i in 0..good.len() {
        for flip in 1..=255u8 {
            let mut bad = good;
            bad[i] ^= flip;
            if i != 3 {
                assert!(RadioPacket::from_bytes(&bad).is_none());
            }
        }
    }
    let mut other = good;
    other[0] = 1;
    other[7] = compute_checksum(&other[..7]);
    assert!(RadioPacket::from_bytes(&other).is_none());
    let mut long = good.to_vec();
    long.extend_from_slice(&[0xAA; 20]);
    assert!(RadioPacket::from_bytes(&long).is_some());
}

#[test]
fn changed_length_moves_the_checksum() {
    let good = [0x02, 0x01, 0x2A, 0x03, 0x2B, 0x00, 0x00, 0x01];
    assert!(RadioPacket::from_bytes(&good).is_some());
    let mut shorter = good;
    shorter[3] = 2;
    match RadioPacket::from_bytes(&shorter) {
        Some(packet) => assert_eq!(packet.get_payload(), &[0x2B, 0x00]),
        None => panic!("frame was rejected"),
    }
}

#[test]
fn oversized_payload_is_refused() {
    let mut packet = RadioPacket::new(MessageType::Motion, 1);
    assert_eq!(packet.set_payload(&[1, 2, 3]), Ok(()));
    assert_eq!(packet.set_payload(&[0; 28]), Err(()));
    assert_eq!(packet.get_payload(), &[1, 2, 3]);
    assert_eq!(packet.header.payload_len, 3);
    assert_eq!(packet.set_payload(&[9; 27]), Ok(()));
    assert_eq!(packet.actual_size(), 32);
    let frame = frame_of(&packet);
    assert_eq!(frame.len(), 32);
    assert!(RadioPacket::from_bytes(&frame).is_some());
}

#[test]
fn motion_payload_is_clamped() {
    let packet = create_motion_packet(0, 127, -128, 101);
    assert_eq!(packet.get_payload(), &[100, 156, 100]);
    let motion = match MotionPayload::from_bytes(packet.get_payload()) {
        Some(motion) => motion,
        None => panic!("payload was rejected"),
    };
    assert_eq!(motion, MotionPayload { vx: 100, vy: -100, omega: 100 });
    assert_eq!(motion.clamped(), motion);
}

#[test]
fn motion_builders() {
    assert_eq!(MotionPayload::stop(), MotionPayload { vx: 0, vy: 0, omega: 0 });
    assert_eq!(MotionPayload::forward(-7), MotionPayload { vx: -7, vy: 0, omega: 0 });
    assert_eq!(MotionPayload::strafe(8), MotionPayload { vx: 0, vy: 8, omega: 0 });
    assert_eq!(MotionPayload::rotate(9), MotionPayload { vx: 0, vy: 0, omega: 9 });
}

#[test]
fn short_payloads_are_rejected() {
    assert_eq!(MotionPayload::from_bytes(&[1, 2]), None);
    assert_eq!(ResponsePayload::from_bytes(&[1]), None);
    assert_eq!(ResponsePayload::from_bytes(&[77, 0]), None);
    assert_eq!(TelemetryPayload::from_bytes(&[1, 2, 3, 4, 5]), None);
}

#[test]
fn payload_round_trips() {
    for v in -128..=127i8 {
        let motion = MotionPayload { vx: v, vy: -(v / 2), omega: v / 3 };
        assert_eq!(MotionPayload::from_bytes(&motion.to_bytes()), Some(motion));
        assert_eq!(num::to_signed(num::to_byte(v)), v);
    }
    let response = ResponsePayload { status: CarStatus::Error, info: 200 };
    assert_eq!(ResponsePayload::from_bytes(&response.to_bytes()), Some(response));
    let telemetry =
        TelemetryPayload { battery: 1, speed: 2, heading: 3, vx: -4, vy: 5, omega: -6 };
    assert_eq!(TelemetryPayload::from_bytes(&telemetry.to_bytes()), Some(telemetry));
}

#[test]
fn checksum_values() {
    assert_eq!(compute_checksum(&[]), 0);
    assert_eq!(compute_checksum(&[0x02, 0x00, 0x05, 0x00]), 0x07);
    assert_eq!(compute_checksum(&[0xAA, 0xAA]), 0);
}
