use librazer::error::Error;
use librazer::packet::{Packet, ARGS_LEN, FRAME_LEN, STATUS_NEW, STATUS_SUCCESSFUL};

fn sample_packet() -> Packet {
    let mut args = vec![0u8; ARGS_LEN];
    args[0] = 0x01;
    args[1] = 0x02;
    args[2] = 0xab;
    Packet {
        status: STATUS_NEW,
        id: 0x5a,
        remaining_packets: 0x1234,
        protocol_type: 0,
        data_size: 3,
        command_class: 0x0d,
        command_id: 0x02,
        args,
        crc: 0,
        reserved: 0,
    }
}

#[test]
fn new_packet_has_request_shape() {
    let p = Packet::new(0x0d02, &vec![1u8, 2, 3]);
    assert_eq!(p.status, STATUS_NEW);
    assert_eq!(p.remaining_packets, 0);
    assert_eq!(p.protocol_type, 0);
    assert_eq!(p.data_size, 3);
    assert_eq!(p.command_class, 0x0d);
    assert_eq!(p.command_id, 0x02);
    assert_eq!(p.args.len(), ARGS_LEN);
    assert_eq!(&p.args[..3], &[1, 2, 3]);
    assert!(p.args[3..].iter().all(|b| *b == 0));
    assert_eq!(p.crc, 0);
    assert_eq!(p.reserved, 0);
}

#[test]
fn encode_layout_is_fixed() {
    let p = sample_packet();
    let bytes = p.to_bytes();
    assert_eq!(bytes.len(), FRAME_LEN);
    assert_eq!(bytes[0], p.status);
    assert_eq!(bytes[1], 0x5a);
    assert_eq!(bytes[2], 0x34); // low byte first
    assert_eq!(bytes[3], 0x12);
    assert_eq!(bytes[4], 0);
    assert_eq!(bytes[5], 3);
    assert_eq!(bytes[6], 0x0d);
    assert_eq!(bytes[7], 0x02);
    assert_eq!(&bytes[8..8 + ARGS_LEN], &p.args[..]);
    assert_eq!(bytes[88], 0);
    assert_eq!(bytes[89], 0);
}

#[test]
fn decode_encode_round_trip() {
    let p = sample_packet();
    let bytes = p.to_bytes();
    let q = Packet::from_bytes(&bytes).unwrap();
    assert_eq!(q.status, p.status);
    assert_eq!(q.id, p.id);
    assert_eq!(q.remaining_packets, p.remaining_packets);
    assert_eq!(q.protocol_type, p.protocol_type);
    assert_eq!(q.data_size, p.data_size);
    assert_eq!(q.command_class, p.command_class);
    assert_eq!(q.command_id, p.command_id);
    assert_eq!(q.args, p.args);
    assert_eq!(q.crc, p.crc);
    assert_eq!(q.reserved, p.reserved);
}

#[test]
fn random_request_round_trips() {
    let p = Packet::new(0x070f, &vec![2u8]);
    let q = Packet::from_bytes(&p.to_bytes()).unwrap();
    assert_eq!(q.id, p.id);
    assert_eq!(q.command_class, 0x07);
    assert_eq!(q.command_id, 0x0f);
    assert_eq!(q.args, p.args);
}

#[test]
fn decode_rejects_every_other_length() {
    for len in [0usize, 1, 89, 91, 180] {
        let buf = vec![0u8; len];
        match Packet::from_bytes(&buf) {
            Err(e) => assert_eq!(e, Error::WrongSize),
            Ok(_) => panic!("length {} must not decode", len),
        }
    }
}

#[test]
fn decode_wrong_size_error_value() {
    let buf = vec![0u8; 89];
    match Packet::from_bytes(&buf) {
        Err(e) => assert_eq!(e, Error::WrongSize),
        Ok(_) => panic!("a short buffer must not decode"),
    }
}

#[test]
fn set_args_overwrites_prefix_only() {
    let mut p = Packet::new(0x0d82, &vec![9u8, 9, 9, 9]);
    p.set_args(&vec![0u8, 1]);
    assert_eq!(&p.get_args()[..4], &[0, 1, 9, 9]);
    assert_eq!(p.data_size, 4);
}

#[test]
fn get_args_returns_whole_buffer() {
    let p = Packet::new(0x0d82, &vec![1u8]);
    assert_eq!(p.get_args().len(), ARGS_LEN);
}

#[test]
fn args_start_with_checks_exact_prefix() {
    let p = Packet::new(0x0d01, &vec![0u8, 1, 20]);
    assert!(p.args_start_with(&vec![0u8, 1, 20]));
    assert!(p.args_start_with(&vec![0u8, 1]));
    assert!(!p.args_start_with(&vec![0u8, 2]));
    assert!(!p.args_start_with(&vec![1u8]));
}

fn request() -> Packet {
    let mut p = sample_packet();
    p.status = STATUS_NEW;
    p
}

fn response_for(req: &Packet) -> Packet {
    let mut r = req.clone();
    r.status = STATUS_SUCCESSFUL;
    r
}

#[test]
fn validate_accepts_matching_successful_response() {
    let req = request();
    let resp = response_for(&req);
    let out = resp.ensure_matches_report(&req).unwrap();
    assert_eq!(out.status, STATUS_SUCCESSFUL);
    assert_eq!(out.id, req.id);
}

#[test]
fn validate_rejects_wrong_id() {
    let req = request();
    let mut resp = response_for(&req);
    resp.id = resp.id.wrapping_add(1);
    assert_eq!(resp.ensure_matches_report(&req).unwrap_err(), Error::CorrelationMismatch);
}

#[test]
fn validate_rejects_wrong_command_class() {
    let req = request();
    let mut resp = response_for(&req);
    resp.command_class = resp.command_class.wrapping_add(1);
    assert_eq!(resp.ensure_matches_report(&req).unwrap_err(), Error::CorrelationMismatch);
}

#[test]
fn validate_rejects_wrong_command_id() {
    let req = request();
    let mut resp = response_for(&req);
    resp.command_id = resp.command_id.wrapping_add(1);
    assert_eq!(resp.ensure_matches_report(&req).unwrap_err(), Error::CorrelationMismatch);
}

#[test]
fn validate_rejects_remaining_packets_mismatch() {
    let req = request();
    let mut resp = response_for(&req);
    resp.remaining_packets = req.remaining_packets.wrapping_add(7);
    assert_eq!(
        resp.ensure_matches_report(&req).unwrap_err(),
        Error::RemainingPacketsMismatch
    );
}

#[test]
fn validate_exempts_battery_care_query() {
    let mut req = request();
    req.command_class = 0x07;
    req.command_id = 0x92;
    let mut resp = response_for(&req);
    resp.remaining_packets = req.remaining_packets.wrapping_add(7);
    assert!(resp.ensure_matches_report(&req).is_ok());
}

#[test]
fn validate_exempts_max_fan_speed_query() {
    let mut req = request();
    req.command_class = 0x07;
    req.command_id = 0x8f;
    let mut resp = response_for(&req);
    resp.remaining_packets = req.remaining_packets.wrapping_add(1);
    assert!(resp.ensure_matches_report(&req).is_ok());
}

#[test]
fn validate_discriminates_every_status_byte() {
    let req = request();
    for status in 0..=255u8 {
        let mut resp = response_for(&req);
        resp.status = status;
        let out = resp.ensure_matches_report(&req);
        match status {
            0x02 => assert!(out.is_ok()),
            0x05 => assert_eq!(out.unwrap_err(), Error::CommandNotSupported),
            _ => assert_eq!(out.unwrap_err(), Error::UnknownStatus(status)),
        }
    }
}
