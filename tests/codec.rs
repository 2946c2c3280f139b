use sensor_net::codec::{
    climate_fields, climate_of, decode_record, encode_plain, encode_sealed, finish_decryption,
    parse_packet, sealing_input_of, DecodeError, Frame, TelemetryRecord, MAX_CIPHERTEXT,
    node_fields, PACKET_CLIMATE, PACKET_MOTION, PACKET_NODE,
};
use sensor_net::lsm303agr::Measurement;
use sensor_net::node::SensorNode;

fn climate_record(sequence: u32) -> TelemetryRecord {
    TelemetryRecord {
        packet_type: PACKET_CLIMATE,
        device_id: 0x1122334455667788,
        part_id: 0x0A0B0C0D,
        sequence,
        sensor_id: 0xBEEF,
        fields: climate_fields(23.5f32.to_bits(), 45.0f32.to_bits()),
    }
}

/// Stands in for the cipher's output: the sealing input with its length raised by the tag
/// and a tag appended.
fn fake_sealed(input: &[u8]) -> Vec<u8> {
    let mut out = input.to_vec();
    out[1] += 4;
    out.extend_from_slice(&[0xA1, 0xB2, 0xC3, 0xD4]);
    out
}

#[test]
fn plain_packet_layout() {
    let r = climate_record(7);
    let p = encode_plain(&r);
    let mut expected = vec![0x04, 0x00];
    expected.extend_from_slice(&0x1122334455667788u64.to_le_bytes());
    expected.extend_from_slice(&0x0A0B0C0Du32.to_le_bytes());
    expected.extend_from_slice(&7u32.to_le_bytes());
    expected.extend_from_slice(&0xBEEFu16.to_le_bytes());
    expected.extend_from_slice(&[0x00, 0x00, 0xBC, 0x41, 0x00, 0x00, 0x34, 0x42]);
    assert_eq!(p, expected);
    assert_eq!(p.len(), 28);
}

#[test]
fn plain_round_trip() {
    let r = climate_record(0xFFFF_FFFF);
    let p = encode_plain(&r);
    assert_eq!(decode_record(&p), Ok(r.clone()));
    match parse_packet(&p, true) {
        Ok(Frame::Plain { packet_type, body }) => {
            assert_eq!(packet_type, PACKET_CLIMATE);
            assert_eq!(body, r.body());
        }
        other => panic!("unexpected {:?}", other),
    }
}

#[test]
fn motion_record_round_trip() {
    let m = Measurement { acc_x: -1, acc_y: 2047, acc_z: -2048, mag_x: 300, mag_y: -300, mag_z: 0 };
    let fields = m.fields();
    assert_eq!(fields, vec![0xFF, 0xFF, 0xFF, 0x07, 0x00, 0xF8, 0x2C, 0x01, 0xD4, 0xFE, 0x00, 0x00]);
    let r = TelemetryRecord {
        packet_type: PACKET_MOTION,
        device_id: 1,
        part_id: 2,
        sequence: 3,
        sensor_id: 0xAB01,
        fields,
    };
    assert_eq!(decode_record(&encode_plain(&r)), Ok(r));
}

#[test]
fn sealing_input_has_header() {
    let r = climate_record(1);
    let input = sealing_input_of(&r);
    assert_eq!(input.len(), 3 + 26);
    assert_eq!(&input[0..3], &[0, 26, 0]);
    assert_eq!(&input[3..], &r.body()[..]);
}

#[test]
fn sealed_packet_layout() {
    let sealed = [0u8, 5, 0, 0x10, 0x20, 0x30, 0x40, 0x50];
    let nonce = [1u8, 2, 3, 4, 5, 6, 7, 8];
    let p = encode_sealed(5, &nonce, &sealed);
    assert_eq!(p, vec![0x05, 0x80, 1, 2, 3, 4, 5, 6, 7, 8, 0x10, 0x20, 0x30, 0x40, 0x50]);
}

#[test]
fn parse_sealed_packet() {
    let p = vec![0x05, 0x80, 1, 2, 3, 4, 5, 6, 7, 8, 0x10, 0x20, 0x30, 0x40, 0x50];
    match parse_packet(&p, true) {
        Ok(Frame::Sealed { packet_type, nonce, ccm_input }) => {
            assert_eq!(packet_type, 5);
            assert_eq!(nonce, [1, 2, 3, 4, 5, 6, 7, 8]);
            assert_eq!(ccm_input, vec![0, 5, 0, 0x10, 0x20, 0x30, 0x40, 0x50]);
        }
        other => panic!("unexpected {:?}", other),
    }
}

#[test]
fn parse_clamps_ciphertext() {
    let mut p = vec![0x04, 0x80];
    p.extend_from_slice(&[9u8; 8]);
    p.extend((0..300u32).map(|i| i as u8));
    match parse_packet(&p, true) {
        Ok(Frame::Sealed { ccm_input, .. }) => {
            assert_eq!(ccm_input.len(), 3 + MAX_CIPHERTEXT);
            assert_eq!(ccm_input[1], 254);
            assert_eq!(ccm_input[3], 0);
            assert_eq!(ccm_input[3 + 253], 253);
        }
        other => panic!("unexpected {:?}", other),
    }
}

#[test]
fn parse_rejects_short_packets() {
    assert!(matches!(parse_packet(&[], true), Err(DecodeError::Malformed)));
    assert!(matches!(parse_packet(&[0x04], true), Err(DecodeError::Malformed)));
    let short_sealed = [0x04, 0x80, 1, 2, 3, 4, 5, 6, 7, 8, 9, 10, 11];
    assert!(matches!(parse_packet(&short_sealed, true), Err(DecodeError::Malformed)));
    let plain_tag_only = [0x04, 0x00];
    assert!(matches!(parse_packet(&plain_tag_only, true), Ok(Frame::Plain { packet_type: 4, .. })));
}

#[test]
fn failed_authentication_gives_no_bytes() {
    let r = climate_record(5);
    let opened = sealing_input_of(&r);
    assert_eq!(finish_decryption(4, false, &opened), Err(DecodeError::Authentication));
    assert_eq!(finish_decryption(4, true, &opened), Ok(encode_plain(&r)));
}

#[test]
fn type_must_fit_the_opened_layout() {
    let opened = sealing_input_of(&climate_record(5));
    assert_eq!(finish_decryption(PACKET_NODE, true, &opened), Err(DecodeError::Authentication));
    assert_eq!(finish_decryption(PACKET_MOTION, true, &opened), Err(DecodeError::Authentication));
    assert_eq!(finish_decryption(9, true, &opened), Err(DecodeError::Authentication));
}

#[test]
fn finish_decryption_checks_header_length() {
    assert_eq!(finish_decryption(4, true, &[0, 1]), Err(DecodeError::Malformed));
    assert_eq!(finish_decryption(4, true, &[0, 4, 0, 1, 2, 3]), Err(DecodeError::Malformed));
    assert_eq!(finish_decryption(4, true, &[0, 0, 0]), Err(DecodeError::Authentication));
}

#[test]
fn decode_record_rejects_bad_payloads() {
    let r = climate_record(3);
    let p = encode_plain(&r);
    assert_eq!(decode_record(&p[..19]), Err(DecodeError::Malformed));
    let mut flagged = p.clone();
    flagged[1] |= 0x80;
    assert_eq!(decode_record(&flagged), Err(DecodeError::Malformed));
    let header_only = &p[..20];
    let rec = decode_record(header_only).unwrap();
    assert!(rec.fields.is_empty());
    assert_eq!(rec.sequence, 3);
}

#[test]
fn climate_fields_round_trip() {
    let f = climate_fields(0x41BC0000, 0x42340000);
    assert_eq!(f, vec![0x00, 0x00, 0xBC, 0x41, 0x00, 0x00, 0x34, 0x42]);
    assert_eq!(climate_of(&f), Some((0x41BC0000, 0x42340000)));
    assert_eq!(climate_of(&f[..7]), None);
}

#[test]
fn end_to_end_climate_record() {
    let mut node = SensorNode::new(0x1122334455667788, 0x0A0B0C0D, 0xBEEF);
    assert!(node.wake(1500));
    let fields = climate_fields(23.50f32.to_bits(), 45.0f32.to_bits());
    let record = node.assemble(PACKET_CLIMATE, fields);
    assert_eq!(record.sequence, 0);
    let input = sealing_input_of(&record);
    let sealed = fake_sealed(&input);
    let nonce = [0u8; 8];
    let payload = encode_sealed(record.packet_type, &nonce, &sealed);
    assert_eq!(payload.len(), 2 + 8 + 26 + 4);

    let (packet_type, ccm_input) = match parse_packet(&payload, false) {
        Ok(Frame::Sealed { packet_type, nonce: n, ccm_input }) => {
            assert_eq!(n, nonce);
            (packet_type, ccm_input)
        }
        other => panic!("unexpected {:?}", other),
    };
    assert_eq!(ccm_input, sealed);
    let plain = finish_decryption(packet_type, true, &input).unwrap();
    let decoded = decode_record(&plain).unwrap();
    assert_eq!(decoded, record);
    let (t, h) = climate_of(&decoded.fields).unwrap();
    assert_eq!(f32::from_bits(t), 23.50f32);
    assert_eq!(f32::from_bits(h), 45.0f32);
    assert_eq!(decoded.device_id, 0x1122334455667788);
    assert_eq!(decoded.part_id, 0x0A0B0C0D);

    let mut corrupted = payload.clone();
    corrupted[12] ^= 0x01;
    let ccm_input = match parse_packet(&corrupted, false) {
        Ok(Frame::Sealed { ccm_input, .. }) => ccm_input,
        other => panic!("unexpected {:?}", other),
    };
    assert_ne!(ccm_input, sealed);
    assert_eq!(finish_decryption(packet_type, false, &[]), Err(DecodeError::Authentication));
}

#[test]
fn tampered_bytes_reach_the_cipher() {
    let p = vec![0x05, 0x80, 1, 2, 3, 4, 5, 6, 7, 8, 0x10, 0x20, 0x30, 0x40, 0x50];
    let untouched = parse_packet(&p, true).unwrap();
    for i in 2..p.len() {
        for bit in 0..8 {
            let mut q = p.clone();
            q[i] ^= 1 << bit;
            match (&untouched, parse_packet(&q, true).unwrap()) {
                (
                    Frame::Sealed { nonce: n0, ccm_input: c0, .. },
                    Frame::Sealed { nonce: n1, ccm_input: c1, .. },
                ) => assert!(*n0 != n1 || *c0 != c1),
                other => panic!("unexpected {:?}", other),
            }
        }
    }
}

#[test]
fn tag_tampering_fails_authentication() {
    let r = climate_record(9);
    let input = sealing_input_of(&r);
    let sealed = fake_sealed(&input);
    let p = encode_sealed(r.packet_type, &[7u8; 8], &sealed);
    for i in 0..2 {
        for bit in 0..8 {
            let mut q = p.clone();
            q[i] ^= 1 << bit;
            match parse_packet(&q, false) {
                Err(e) => assert_eq!(e, DecodeError::Authentication),
                Ok(Frame::Sealed { packet_type, .. }) => {
                    assert_ne!(packet_type, r.packet_type);
                    // the cipher authenticates the untouched nonce and ciphertext
                    assert_eq!(finish_decryption(packet_type, true, &input), Err(DecodeError::Authentication));
                }
                Ok(other) => panic!("unexpected {:?}", other),
            }
        }
    }
    let mut q = p.clone();
    q[1] ^= 0x80;
    assert_eq!(parse_packet(&q, false).unwrap_err(), DecodeError::Authentication);
    assert!(matches!(parse_packet(&q, true), Ok(Frame::Plain { packet_type: 4, .. })));
}

#[test]
fn strict_decoder_rejects_plaintext() {
    let p = encode_plain(&climate_record(2));
    assert_eq!(parse_packet(&p, false).unwrap_err(), DecodeError::Authentication);
    assert!(matches!(parse_packet(&p, true), Ok(Frame::Plain { .. })));
}

#[test]
fn node_record_fields() {
    let f = node_fields(1, 2, 0x3FC00000);
    assert_eq!(f, vec![1, 0, 0, 0, 2, 0, 0, 0, 0x00, 0x00, 0xC0, 0x3F]);
    assert_eq!(PACKET_NODE, 6);
}
