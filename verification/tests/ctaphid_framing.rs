use picoforge::ctaphid::{
    build_init_request, build_request_reports, ctap_unwrap_response, hex2, parse_init_response,
    random_nonce, ReadStep, ResponseReassembler, CTAPHID_CBOR,
};
use picoforge::types::PFError;

fn sample_payload(len: usize) -> Vec<u8> {
    (0..len).map(|i| (i % 251) as u8).collect()
}

fn expected_continuations(len: usize) -> usize {
    if len <= 57 {
        0
    } else {
        (len - 57).div_ceil(59)
    }
}

#[test]
fn fragmentation_packet_counts() {
    for len in [0usize, 1, 57, 58, 200, 1024] {
        let payload = sample_payload(len);
        let reports = build_request_reports(0x1122_3344, CTAPHID_CBOR, &payload);
        assert_eq!(reports.len(), 1 + expected_continuations(len), "len {}", len);
        for r in &reports {
            assert_eq!(r.len(), 65);
            assert_eq!(r[0], 0); // leading HID report id
        }
    }
}

#[test]
fn fragmentation_reassembles_exactly() {
    let cid = 0xCAFE_F00D;
    for len in [0usize, 1, 57, 58, 200, 1024] {
        let payload = sample_payload(len);
        let reports = build_request_reports(cid, CTAPHID_CBOR, &payload);
        let mut reasm = ResponseReassembler::new(cid, CTAPHID_CBOR);
        let mut done = false;
        for r in &reports {
            assert!(!done, "payload complete before all packets consumed");
            match reasm.push_report(&r[1..]) {
                ReadStep::NeedMore => {}
                ReadStep::Complete => done = true,
                other => panic!("unexpected step {:?} for len {}", step_name(&other), len),
            }
        }
        assert!(done, "len {} did not complete", len);
        assert_eq!(reasm.into_payload(), payload);
    }
}

fn step_name(step: &ReadStep) -> &'static str {
    match step {
        ReadStep::Ignored => "Ignored",
        ReadStep::Keepalive(_) => "Keepalive",
        ReadStep::NeedMore => "NeedMore",
        ReadStep::Complete => "Complete",
        ReadStep::Failed(_) => "Failed",
    }
}

fn init_packet(cid: u32, cmd: u8, total: usize, chunk: &[u8]) -> Vec<u8> {
    let mut p = vec![0u8; 64];
    p[0..4].copy_from_slice(&cid.to_be_bytes());
    p[4] = cmd;
    p[5] = (total >> 8) as u8;
    p[6] = (total & 0xFF) as u8;
    p[7..7 + chunk.len()].copy_from_slice(chunk);
    p
}

fn cont_packet(cid: u32, seq: u8, chunk: &[u8]) -> Vec<u8> {
    let mut p = vec![0u8; 64];
    p[0..4].copy_from_slice(&cid.to_be_bytes());
    p[4] = seq;
    p[5..5 + chunk.len()].copy_from_slice(chunk);
    p
}

#[test]
fn sequence_mismatch_is_fatal() {
    let cid = 0x0102_0304;
    let mut reasm = ResponseReassembler::new(cid, CTAPHID_CBOR);
    // Declare 100 bytes so a continuation is expected.
    let first = sample_payload(57);
    assert!(matches!(
        reasm.push_report(&init_packet(cid, CTAPHID_CBOR, 100, &first)),
        ReadStep::NeedMore
    ));
    // Expected sequence 0, received 2.
    let step = reasm.push_report(&cont_packet(cid, 2, &sample_payload(43)));
    match step {
        ReadStep::Failed(PFError::Device(m)) => assert_eq!(m, "Sequence mismatch"),
        other => panic!("expected sequence mismatch, got {}", step_name(&other)),
    }
}

#[test]
fn keepalives_are_transparent() {
    let cid = 0xAB00_00CD;
    let mut reasm = ResponseReassembler::new(cid, CTAPHID_CBOR);
    for _ in 0..3 {
        let mut ka = vec![0u8; 64];
        ka[0..4].copy_from_slice(&cid.to_be_bytes());
        ka[4] = 0xBB;
        ka[5] = 0x01;
        assert!(matches!(reasm.push_report(&ka), ReadStep::Keepalive(0x01)));
    }
    // Cross-talk from another channel is ignored too.
    let foreign = init_packet(0x5555_5555, CTAPHID_CBOR, 4, &[9, 9, 9, 9]);
    assert!(matches!(reasm.push_report(&foreign), ReadStep::Ignored));
    // The real response: CTAP status 0x00 then three bytes.
    let body = [0x00, 0x10, 0x20, 0x30];
    assert!(matches!(
        reasm.push_report(&init_packet(cid, CTAPHID_CBOR, 4, &body)),
        ReadStep::Complete
    ));
    let payload = reasm.into_payload();
    assert_eq!(payload, body);
    assert_eq!(ctap_unwrap_response(payload).unwrap(), vec![0x10, 0x20, 0x30]);
}

#[test]
fn keepalive_during_continuation_is_a_sequence_mismatch() {
    // Keepalives are only absorbed before the first matching packet; once
    // reassembly has started, byte 4 is read as a sequence number.
    let cid = 0x0A0B_0C0D;
    let mut reasm = ResponseReassembler::new(cid, CTAPHID_CBOR);
    assert!(matches!(
        reasm.push_report(&init_packet(cid, CTAPHID_CBOR, 100, &sample_payload(57))),
        ReadStep::NeedMore
    ));
    let mut ka = vec![0u8; 64];
    ka[0..4].copy_from_slice(&cid.to_be_bytes());
    ka[4] = 0xBB;
    match reasm.push_report(&ka) {
        ReadStep::Failed(PFError::Device(m)) => assert_eq!(m, "Sequence mismatch"),
        other => panic!("expected sequence mismatch, got {}", step_name(&other)),
    }
}

#[test]
fn error_packet_reports_ctap_code() {
    let cid = 7;
    let mut reasm = ResponseReassembler::new(cid, CTAPHID_CBOR);
    let mut er = vec![0u8; 64];
    er[0..4].copy_from_slice(&cid.to_be_bytes());
    er[4] = 0xBF;
    er[5] = 0x2E;
    match reasm.push_report(&er) {
        ReadStep::Failed(PFError::Device(m)) => {
            assert_eq!(m, "Device returned CTAP Error: 0x2E")
        }
        other => panic!("expected device error, got {}", step_name(&other)),
    }
}

#[test]
fn unexpected_command_is_rejected() {
    let cid = 7;
    let mut reasm = ResponseReassembler::new(cid, CTAPHID_CBOR);
    let step = reasm.push_report(&init_packet(cid, 0x86, 0, &[]));
    match step {
        ReadStep::Failed(PFError::Device(m)) => {
            assert_eq!(m, "Unexpected command response: 0x86 (Expected 0x90)")
        }
        other => panic!("expected device error, got {}", step_name(&other)),
    }
}

#[test]
fn ctap_status_gating() {
    match ctap_unwrap_response(vec![]) {
        Err(PFError::Device(m)) => assert_eq!(m, "Empty response"),
        other => panic!("expected empty-response error, got {:?}", other),
    }
    match ctap_unwrap_response(vec![0x37, 1, 2]) {
        Err(PFError::Device(m)) => {
            assert_eq!(m, "FIDO Operation Failed with Status: 0x37")
        }
        other => panic!("expected status error, got {:?}", other),
    }
    assert_eq!(ctap_unwrap_response(vec![0x00]).unwrap(), Vec::<u8>::new());
}

#[test]
fn init_handshake_roundtrip() {
    let nonce = random_nonce();
    assert_eq!(nonce.len(), 8);
    let req = build_init_request(&nonce);
    assert_eq!(req.len(), 65);
    assert_eq!(&req[1..5], &[0xFF, 0xFF, 0xFF, 0xFF]);
    assert_eq!(req[5], 0x86);
    assert_eq!(req[6], 0);
    assert_eq!(req[7], 8);
    assert_eq!(&req[8..16], nonce.as_slice());

    // A device answer: broadcast CID, INIT command, the nonce echoed at
    // offset 7, and the new channel id at offset 15.
    let mut resp = vec![0u8; 64];
    resp[0..4].copy_from_slice(&[0xFF; 4]);
    resp[4] = 0x86;
    resp[7..15].copy_from_slice(&nonce);
    resp[15..19].copy_from_slice(&0xDEAD_BEEFu32.to_be_bytes());
    assert_eq!(parse_init_response(&nonce, &resp), Some(0xDEAD_BEEF));

    // A response with a different nonce is not accepted.
    let mut other = resp.clone();
    other[7] ^= 0xFF;
    assert_eq!(parse_init_response(&nonce, &other), None);
}

#[test]
fn hex2_renders_uppercase() {
    assert_eq!(hex2(0x00), "00");
    assert_eq!(hex2(0x2E), "2E");
    assert_eq!(hex2(0xFF), "FF");
}
