use rcp::lin::{LinFrameTransfer, LinFrameTransferResult, LinFunctionalConfig, LinRequest, LIN_MAX_DATA};
use rcp::RcpError;



// ── LIN_MAX_DATA ─────────────────────────────────────────────────────────

#[test]
fn lin_lin_max_data_is_eight() {
    assert_eq!(LIN_MAX_DATA, 8);
}

// ── LinFrameTransfer: round-trip / never-panic ──────────────────────────

#[test]
fn lin_frame_transfer_round_trips_through_encode_decode() {
    for (pid, data) in [
        (0x00u8, vec![]),
        (0x53, vec![0x00]),
        (0xFF, vec![0xAA; 3]),
        (0x12, (0u8..8).collect::<Vec<_>>()),
    ] {
        let transfer = LinFrameTransfer {
            pid,
            data: data.clone(),
        };
        let decoded = LinFrameTransfer::decode(&transfer.encode()).unwrap();
        assert_eq!(decoded.pid, pid);
        assert_eq!(decoded.data, data);
    }
}

#[test]
fn lin_byte_msg_payload_is_carried_verbatim_onto_the_bus() {
    // TC18 §13.7.10.3 (TC18.txt line 5304): "The Byte Msg Payload is the
    // payload to be used on the Lin bus." Figure 38's own on-wire example
    // (line 5305) carries three payload bytes with no PID/checksum
    // sub-structure and no length/format byte of its own, so the encoded
    // form must be byte-for-byte identical to the supplied payload.
    //
    // Literal payload: LIN 2.x diagnostic master-request frame identifier
    // 0x3C followed by three data bytes.
    const PAYLOAD: [u8; 4] = [0x3C, 0x01, 0x02, 0x03];

    let transfer = LinFrameTransfer {
        pid: PAYLOAD[0],
        data: PAYLOAD[1..].to_vec(),
    };
    assert_eq!(transfer.encode(), PAYLOAD.to_vec());

    let decoded = LinFrameTransfer::decode(&PAYLOAD).unwrap();
    assert_eq!(decoded.pid, 0x3C);
    assert_eq!(decoded.data, vec![0x01, 0x02, 0x03]);

    // Nothing is appended (no checksum byte is synthesised) even at the
    // full LIN 2.x data ceiling: 1 payload-leading byte + 8 data bytes.
    let full = LinFrameTransfer {
        pid: 0x3C,
        data: vec![0xA5; LIN_MAX_DATA],
    };
    assert_eq!(full.encode().len(), 9);
    assert_eq!(&full.encode()[1..], &[0xA5u8; LIN_MAX_DATA][..]);
}

#[test]
fn lin_frame_transfer_decode_rejects_empty_input() {
    assert_eq!(LinFrameTransfer::decode(&[]), Err(RcpError::ShortFrame));
}

#[test]
fn lin_frame_transfer_decode_rejects_data_longer_than_lin_max_data() {
    let mut buf = vec![0x00u8]; // pid
    buf.extend(vec![0xAAu8; LIN_MAX_DATA + 1]);
    assert_eq!(
        LinFrameTransfer::decode(&buf),
        Err(RcpError::PayloadTooLarge)
    );
}

#[test]
fn lin_frame_transfer_decode_accepts_data_at_exactly_lin_max_data() {
    let mut buf = vec![0x00u8]; // pid
    buf.extend(vec![0xAAu8; LIN_MAX_DATA]);
    let decoded = LinFrameTransfer::decode(&buf).unwrap();
    assert_eq!(decoded.data.len(), LIN_MAX_DATA);
}

#[test]
fn lin_frame_transfer_decode_never_panics_for_any_sampled_input() {
    for len in [0usize, 1, 2, 9, 64] {
        let buf = vec![0x5Au8; len];
        let _ = LinFrameTransfer::decode(&buf);
    }
}

// ── LinFrameTransferResult: round-trip / never-panic ────────────────────

#[test]
fn lin_frame_transfer_result_round_trips_through_encode_decode() {
    for data in [vec![], vec![0xFF], vec![0x01, 0x02, 0x03]] {
        let result = LinFrameTransferResult { data: data.clone() };
        assert_eq!(
            LinFrameTransferResult::decode(&result.encode())
                .unwrap()
                .data,
            data
        );
    }
}

#[test]
fn lin_frame_transfer_result_decode_rejects_longer_than_lin_max_data() {
    let buf = vec![0xAAu8; LIN_MAX_DATA + 1];
    assert_eq!(
        LinFrameTransferResult::decode(&buf),
        Err(RcpError::PayloadTooLarge)
    );
}

#[test]
fn lin_frame_transfer_result_decode_accepts_exactly_lin_max_data() {
    let buf = vec![0xAAu8; LIN_MAX_DATA];
    assert_eq!(
        LinFrameTransferResult::decode(&buf).unwrap().data.len(),
        LIN_MAX_DATA
    );
}

#[test]
fn lin_frame_transfer_result_decode_never_panics_for_any_sampled_input() {
    for len in [0usize, 1, 5, 32] {
        let buf = vec![0xA5u8; len];
        let _ = LinFrameTransferResult::decode(&buf);
    }
}

// ── LinFunctionalConfig / layer_tag ─────────────────────────────────────

#[test]
fn lin_functional_config_layer_tag_matches_ep_type_lin() {
    let functional = LinFunctionalConfig;
    let generic = rcp::regmap::PerEpConfigBlock::new(rcp::regmap::EndpointType::Lin);
    let tag = functional.layer_tag();
    assert_eq!(tag.ep_type, rcp::regmap::EndpointType::Lin);
    assert!(rcp::regmap::functional_config_matches_ep_type(
        &generic, &tag
    ));
    assert_eq!(
        rcp::regmap::check_functional_config_matches_ep_type(&generic, &tag),
        Ok(())
    );
}

#[test]
fn lin_functional_config_layer_tag_rejects_mismatched_ep_type() {
    let functional = LinFunctionalConfig;
    let generic = rcp::regmap::PerEpConfigBlock::new(rcp::regmap::EndpointType::Spi);
    let tag = functional.layer_tag();
    assert!(!rcp::regmap::functional_config_matches_ep_type(
        &generic, &tag
    ));
}

// ── LinRequest::from_evt_sub_opcode ──────────────────────────────────────

#[test]
fn lin_request_plain_evt_decodes_payload_as_frame_transfer() {
    // TC18 §13.7.10.3 Figure 39's own worked example: a 3-byte LIN
    // payload (PID byte followed by two data bytes).
    let payload = [0x3C, 0x01, 0x02];
    let request = LinRequest::from_evt_sub_opcode(0b000, &payload).unwrap();
    assert_eq!(
        request,
        LinRequest::Plain(LinFrameTransfer {
            pid: 0x3C,
            data: vec![0x01, 0x02],
        })
    );
}

#[test]
fn lin_request_plain_evt_rejects_an_empty_payload() {
    // Unlike I2cRequest::Plain/AdcRequest::Plain/PwmInRequest::Plain,
    // LinRequest::Plain propagates LinFrameTransfer::decode's own
    // Result rather than an infallible decode — an empty payload has no
    // PID byte, matching lin_frame_transfer_decode_rejects_empty_input
    // above.
    assert_eq!(
        LinRequest::from_evt_sub_opcode(0b000, &[]),
        Err(RcpError::ShortFrame)
    );
}

#[test]
fn lin_request_plain_evt_rejects_data_longer_than_lin_max_data() {
    let mut payload = vec![0x3Cu8];
    payload.extend(vec![0xAAu8; LIN_MAX_DATA + 1]);
    assert_eq!(
        LinRequest::from_evt_sub_opcode(0b000, &payload),
        Err(RcpError::PayloadTooLarge)
    );
}

#[test]
fn lin_request_plain_evt_accepts_data_at_exactly_lin_max_data() {
    let mut payload = vec![0x3Cu8];
    payload.extend(vec![0xAAu8; LIN_MAX_DATA]);
    let request = LinRequest::from_evt_sub_opcode(0b000, &payload).unwrap();
    assert_eq!(
        request,
        LinRequest::Plain(LinFrameTransfer {
            pid: 0x3C,
            data: vec![0xAAu8; LIN_MAX_DATA],
        })
    );
}

#[test]
fn lin_request_config_write_evt_is_recognized_without_interpreting_payload() {
    // The payload is not decoded as a LinFrameTransfer for a
    // config-write request — the variant carries no payload at all, so
    // garbage bytes here cannot be silently misread as a frame.
    let request = LinRequest::from_evt_sub_opcode(0b111, &[0xDE, 0xAD, 0xBE, 0xEF]).unwrap();
    assert_eq!(request, LinRequest::ConfigWrite);
}

#[test]
fn lin_request_reserved_evt_values_are_rejected_with_unsupported_cmd() {
    for sub_opcode in 0b001..=0b110u8 {
        assert_eq!(
            LinRequest::from_evt_sub_opcode(sub_opcode, &[]),
            Err(RcpError::UnsupportedCmd)
        );
        assert_eq!(
            LinRequest::from_evt_sub_opcode(sub_opcode, &[1, 2, 3]),
            Err(RcpError::UnsupportedCmd)
        );
    }
}

#[test]
fn lin_request_values_above_the_3_bit_field_are_also_rejected_with_unsupported_cmd() {
    for sub_opcode in (rcp::acf::EVT_SUB_OPCODE_MAX + 1)..=u8::MAX {
        assert_eq!(
            LinRequest::from_evt_sub_opcode(sub_opcode, &[]),
            Err(RcpError::UnsupportedCmd)
        );
    }
}

#[test]
fn lin_request_from_evt_sub_opcode_never_panics_for_any_sampled_input() {
    let payloads: [&[u8]; 4] = [&[], &[0x00], &[0x3C, 0x01, 0x02], &[0xAA; 32]];
    for sub_opcode in 0..=u8::MAX {
        for payload in payloads {
            let _ = LinRequest::from_evt_sub_opcode(sub_opcode, payload);
        }
    }
}
