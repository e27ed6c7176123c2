use lorawan_decoder::decode::decode;
use lorawan_decoder::frame::{FOpts, FrameStep, FrmPayload, MType, ParseError, Payload, PhyPayload};
use lorawan_decoder::keystore::KeyStore;
use lorawan_decoder::passes::DecodeError;

/// A confirmed uplink from device 01020304, counter 0, FOpts DevStatusAns,
/// FPort 10 and an encrypted payload of four bytes.
fn confirmed_uplink() -> Vec<u8> {
    vec![
        0x80, 0x04, 0x03, 0x02, 0x01, 0x03, 0x00, 0x00, 0x06, 0x73, 0x07, 0x0a, 0xe2, 0x64, 0xd4,
        0xf7, 0xe1, 0x17, 0xd2, 0xc0,
    ]
}

fn app_s_key() -> [u8; 16] {
    [
        0x10, 0x0f, 0x0e, 0x0d, 0x0c, 0x0b, 0x0a, 0x09, 0x08, 0x07, 0x06, 0x05, 0x04, 0x03, 0x02,
        0x01,
    ]
}

fn join_request() -> Vec<u8> {
    vec![
        0x00, 1, 2, 3, 4, 5, 6, 7, 8, 11, 12, 13, 14, 15, 16, 17, 18, 0x34, 0x12, 0xa1, 0xa2,
        0xa3, 0xa4,
    ]
}

fn mac(f: &PhyPayload) -> &lorawan_decoder::frame::MacPayload {
    match &f.payload {
        Payload::Mac(p) => p,
        _ => panic!("not a data message"),
    }
}

#[test]
fn join_request_fields_recovered() {
    let d = decode(&join_request(), false, false, &KeyStore::new()).unwrap();
    assert_eq!(d.frame.m_type(), MType::JoinRequest);
    match &d.frame.payload {
        Payload::JoinRequest(p) => {
            assert_eq!(p.join_eui, vec![1, 2, 3, 4, 5, 6, 7, 8]);
            assert_eq!(p.dev_eui, vec![11, 12, 13, 14, 15, 16, 17, 18]);
            assert_eq!(p.dev_nonce, 0x1234);
        }
        _ => panic!("not a join-request"),
    }
    assert_eq!(d.frame.mic, vec![0xa1, 0xa2, 0xa3, 0xa4]);
}

#[test]
fn join_request_wrong_length() {
    let mut b = join_request();
    b.push(0);
    assert_eq!(
        PhyPayload::parse(&b).err(),
        Some(ParseError::MalformedFrame(FrameStep::JoinRequestBody))
    );
}

#[test]
fn data_message_round_trip() {
    let b = confirmed_uplink();
    let f = PhyPayload::parse(&b).unwrap();
    let again = f.to_bytes().unwrap();
    assert_eq!(again, b);
    let g = PhyPayload::parse(&again).unwrap();
    assert_eq!(g.to_bytes().unwrap(), b);
    assert_eq!(mac(&g).dev_addr, mac(&f).dev_addr);
    assert_eq!(mac(&g).f_port, Some(10));
    let d = decode(&b, false, false, &KeyStore::new()).unwrap();
    assert_eq!(d.frame.to_bytes().unwrap(), b);
}

#[test]
fn data_message_fields() {
    let f = PhyPayload::parse(&confirmed_uplink()).unwrap();
    assert_eq!(f.m_type(), MType::ConfirmedDataUp);
    let p = mac(&f);
    assert_eq!(p.dev_addr, 0x01020304);
    assert_eq!(p.f_ctrl, 0x03);
    assert_eq!(p.f_opts_len(), 3);
    assert_eq!(p.f_cnt, 0);
    assert!(matches!(&p.f_opts, FOpts::Raw(v) if *v == vec![0x06, 0x73, 0x07]));
    assert!(matches!(&p.frm_payload, Some(FrmPayload::Raw(v)) if *v == vec![0xe2, 0x64, 0xd4, 0xf7]));
    assert_eq!(f.mic, vec![0xe1, 0x17, 0xd2, 0xc0]);
}

#[test]
fn frame_control_flags() {
    let mut b = confirmed_uplink();
    b[5] = 0xf3;
    let f = PhyPayload::parse(&b).unwrap();
    let p = mac(&f);
    assert!(p.adr() && p.adr_ack_req() && p.ack() && p.f_pending());
    b[5] = 0x03;
    let f = PhyPayload::parse(&b).unwrap();
    let p = mac(&f);
    assert!(!p.adr() && !p.adr_ack_req() && !p.ack() && !p.f_pending());
}

#[test]
fn truncation_of_fixed_length_frames_fails() {
    for b in [join_request(), vec![0x40, 0, 0, 0, 0, 0, 0, 0, 1, 2, 3, 4]] {
        for k in 1..=b.len() {
            assert!(PhyPayload::parse(&b[..b.len() - k]).is_err(), "cut {k}");
        }
    }
}

#[test]
fn minimal_unconfirmed_uplink() {
    let b = vec![0x40, 0, 0, 0, 0, 0x00, 0, 0, 0xde, 0xad, 0xbe, 0xef];
    let d = decode(&b, false, false, &KeyStore::new()).unwrap();
    let p = mac(&d.frame);
    assert_eq!(p.dev_addr, 0);
    assert_eq!(p.f_port, None);
    assert!(p.frm_payload.is_none());
    assert!(matches!(&p.f_opts, FOpts::Raw(v) if v.is_empty()));
    assert!(d.diagnostics.is_empty());
}

#[test]
fn f_opts_overrun_fails() {
    let b = vec![0x40, 0, 0, 0, 0, 0x03, 0, 0, 0x02, 1, 2, 3, 4];
    assert_eq!(
        PhyPayload::parse(&b).err(),
        Some(ParseError::MalformedFrame(FrameStep::FrameOptions))
    );
}

#[test]
fn structural_errors() {
    assert_eq!(PhyPayload::parse(&[0x40, 1, 2, 3]).err(), Some(ParseError::TruncatedInput));
    assert_eq!(PhyPayload::parse(&[]).err(), Some(ParseError::TruncatedInput));
    assert_eq!(
        PhyPayload::parse(&[0x41, 0, 0, 0, 0, 0, 0, 0, 1, 2, 3, 4]).err(),
        Some(ParseError::UnsupportedVersion)
    );
    assert_eq!(
        PhyPayload::parse(&[0x40, 0, 0, 0, 0, 0, 1, 2, 3, 4]).err(),
        Some(ParseError::MalformedFrame(FrameStep::FrameHeader))
    );
    let mut ja = vec![0x20u8; 1];
    ja.extend_from_slice(&[0u8; 13]);
    ja.extend_from_slice(&[1, 2, 3, 4]);
    assert_eq!(PhyPayload::parse(&ja).err(), Some(ParseError::MalformedJoinAccept));
    assert!(decode(&ja, true, true, &KeyStore::new()).is_err());
}

#[test]
fn join_accept_with_and_without_cf_list() {
    let mut b = vec![0x20u8, 1, 2, 3, 4, 5, 6, 0x04, 0x03, 0x02, 0x01, 0x11, 0x22];
    b.extend_from_slice(&[9, 9, 9, 9]);
    let f = PhyPayload::parse(&b).unwrap();
    match &f.payload {
        Payload::JoinAccept(p) => {
            assert_eq!(p.join_nonce, vec![1, 2, 3]);
            assert_eq!(p.home_net_id, vec![4, 5, 6]);
            assert_eq!(p.dev_addr, 0x01020304);
            assert_eq!(p.dl_settings, 0x11);
            assert_eq!(p.rx_delay, 0x22);
            assert!(p.cf_list.is_none());
        }
        _ => panic!("not a join-accept"),
    }
    let mut c = b[..13].to_vec();
    c.extend_from_slice(&[7u8; 16]);
    c.extend_from_slice(&[9, 9, 9, 9]);
    let f = PhyPayload::parse(&c).unwrap();
    match &f.payload {
        Payload::JoinAccept(p) => assert_eq!(p.cf_list, Some(vec![7u8; 16])),
        _ => panic!("not a join-accept"),
    }
    assert_eq!(f.to_bytes().unwrap(), c);
}

#[test]
fn proprietary_body_kept() {
    let b = vec![0xe0, 9, 8, 7, 1, 2, 3, 4];
    let f = PhyPayload::parse(&b).unwrap();
    assert_eq!(f.m_type(), MType::Proprietary);
    assert!(matches!(&f.payload, Payload::Opaque(v) if *v == vec![9, 8, 7]));
}

#[test]
fn both_passes_succeed() {
    let mut keys = KeyStore::new();
    keys.insert(0x01020304, app_s_key());
    let d = decode(&confirmed_uplink(), true, true, &keys).unwrap();
    assert!(d.diagnostics.is_empty());
    let p = mac(&d.frame);
    assert!(matches!(&p.f_opts, FOpts::Decoded(_)));
    assert!(matches!(&p.frm_payload, Some(FrmPayload::Decrypted(v)) if *v == vec![1, 2, 3, 4]));
    assert!(d.frame.to_bytes().is_none());
}

#[test]
fn truncated_mac_command_stays_raw() {
    // LinkADRReq (0x03, downlink) needs four bytes; only one follows.
    let b = vec![0x60, 0x04, 0x03, 0x02, 0x01, 0x02, 0x00, 0x00, 0x03, 0x01, 1, 2, 3, 4];
    let d = decode(&b, true, false, &KeyStore::new()).unwrap();
    assert!(matches!(&mac(&d.frame).f_opts, FOpts::Raw(v) if *v == vec![0x03, 0x01]));
    assert_eq!(d.diagnostics.len(), 1);
    assert!(matches!(d.diagnostics[0], DecodeError::MalformedMacCommand(_)));
}

#[test]
fn unknown_mac_command_does_not_fail_decode() {
    let b = vec![0x40, 0x04, 0x03, 0x02, 0x01, 0x01, 0x00, 0x00, 0xff, 1, 2, 3, 4];
    let d = decode(&b, true, false, &KeyStore::new()).unwrap();
    assert_eq!(mac(&d.frame).dev_addr, 0x01020304);
    assert!(matches!(&mac(&d.frame).f_opts, FOpts::Raw(v) if *v == vec![0xff]));
    assert_eq!(d.diagnostics.len(), 1);
    assert!(matches!(d.diagnostics[0], DecodeError::UnknownMacCommand));
}

#[test]
fn known_then_unknown_mac_command_stays_raw() {
    // LinkCheckReq (0x02, uplink) is whole; 0x7f follows it and is no command.
    let b = vec![0x40, 0, 0, 0, 0, 0x02, 0, 0, 0x02, 0x7f, 1, 2, 3, 4];
    let d = decode(&b, true, false, &KeyStore::new()).unwrap();
    assert!(matches!(&mac(&d.frame).f_opts, FOpts::Raw(v) if *v == vec![0x02, 0x7f]));
    assert!(matches!(d.diagnostics[0], DecodeError::UnknownMacCommand));
}

#[test]
fn missing_key_leaves_payload_raw() {
    let mut keys = KeyStore::new();
    keys.insert(0x0a0b0c0d, app_s_key());
    let d = decode(&confirmed_uplink(), false, true, &keys).unwrap();
    assert!(matches!(&mac(&d.frame).frm_payload, Some(FrmPayload::Raw(v)) if *v == vec![0xe2, 0x64, 0xd4, 0xf7]));
    assert_eq!(d.diagnostics.len(), 1);
    assert!(matches!(d.diagnostics[0], DecodeError::KeyUnavailable));
}

#[test]
fn missing_f_port_reported() {
    let b = vec![0x40, 0, 0, 0, 0, 0x00, 0, 0, 1, 2, 3, 4];
    let mut keys = KeyStore::new();
    keys.insert(0, app_s_key());
    let d = decode(&b, false, true, &keys).unwrap();
    assert!(matches!(d.diagnostics[0], DecodeError::MissingFPort));
    assert!(mac(&d.frame).frm_payload.is_none());
}

#[test]
fn passes_on_join_request_report_not_data() {
    let d = decode(&join_request(), true, true, &KeyStore::new()).unwrap();
    assert_eq!(d.diagnostics.len(), 2);
    assert!(matches!(d.diagnostics[0], DecodeError::NotDataMessage));
    assert!(matches!(d.diagnostics[1], DecodeError::NotDataMessage));
}

#[test]
fn keystore_latest_entry_wins() {
    let mut keys = KeyStore::new();
    assert_eq!(keys.lookup(7), None);
    keys.insert(7, [1u8; 16]);
    keys.insert(8, [2u8; 16]);
    keys.insert(7, [3u8; 16]);
    assert_eq!(keys.lookup(7), Some([3u8; 16]));
    assert_eq!(keys.lookup(8), Some([2u8; 16]));
    assert_eq!(keys.lookup(9), None);
}

#[test]
fn downlink_mac_pass_uses_downlink_table() {
    // 0x02 downlink is LinkCheckAns with two bytes.
    let b = vec![0x60, 0, 0, 0, 0, 0x03, 0, 0, 0x02, 0x05, 0x01, 1, 2, 3, 4];
    let d = decode(&b, true, false, &KeyStore::new()).unwrap();
    assert!(matches!(&mac(&d.frame).f_opts, FOpts::Decoded(_)));
    assert!(d.diagnostics.is_empty());
}

#[test]
fn out_of_range_margin_is_refused() {
    // DevStatusAns (0x06, uplink) with margin byte 0x80.
    let b = vec![0x40, 0, 0, 0, 0, 0x03, 0, 0, 0x06, 0x00, 0x80, 1, 2, 3, 4];
    let d = decode(&b, true, true, &KeyStore::new()).unwrap();
    assert!(matches!(&mac(&d.frame).f_opts, FOpts::Raw(v) if *v == vec![0x06, 0x00, 0x80]));
    assert_eq!(d.diagnostics.len(), 2);
    assert!(matches!(d.diagnostics[0], DecodeError::MarginOutOfRange));
    assert!(matches!(d.diagnostics[1], DecodeError::MissingFPort));
}

#[test]
fn dev_status_answer_decodes() {
    let b = vec![0x40, 0, 0, 0, 0, 0x03, 0, 0, 0x06, 0xfe, 0x3f, 1, 2, 3, 4];
    let d = decode(&b, true, false, &KeyStore::new()).unwrap();
    assert!(matches!(&mac(&d.frame).f_opts, FOpts::Decoded(set) if set.len() == 1));
    assert!(d.diagnostics.is_empty());
}

#[test]
fn margin_pattern_on_downlink_is_not_refused() {
    // 0x06 downlink is DevStatusReq with no payload; 0x02 0x80 is LinkCheckAns.
    let b = vec![0x60, 0, 0, 0, 0, 0x04, 0, 0, 0x06, 0x02, 0x80, 0x01, 1, 2, 3, 4];
    let d = decode(&b, true, false, &KeyStore::new()).unwrap();
    assert!(matches!(&mac(&d.frame).f_opts, FOpts::Decoded(_)));
    assert!(d.diagnostics.is_empty());
}
