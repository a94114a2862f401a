use rcp::i2c::{
    I2cByteTransfer, I2cByteTransferResult, I2cFunctionalConfig, I2cRequest, I2cSpeedMode,
};
use rcp::RcpError;



// ── I2cSpeedMode: to_u8/from_u8 round-trip ──────────────────────────────

const ALL_SPEED_MODES: [I2cSpeedMode; 5] = [
    I2cSpeedMode::Standard,
    I2cSpeedMode::Fast,
    I2cSpeedMode::FastPlus,
    I2cSpeedMode::HighSpeedRowA,
    I2cSpeedMode::HighSpeedRowB,
];

#[test]
fn i2c_speed_mode_round_trips_through_to_u8_from_u8_for_all_five_values() {
    for mode in ALL_SPEED_MODES {
        let raw = mode.to_u8();
        assert_eq!(I2cSpeedMode::from_u8(raw), Ok(mode));
    }
}

#[test]
fn i2c_speed_mode_to_u8_values_are_the_full_0_to_4_range() {
    let mut raws: Vec<u8> = ALL_SPEED_MODES.iter().map(|m| m.to_u8()).collect();
    raws.sort_unstable();
    assert_eq!(raws, (0u8..=4).collect::<Vec<_>>());
}

#[test]
fn i2c_speed_mode_from_u8_rejects_out_of_range() {
    for raw in [5u8, 6, 0x7F, 0xFF] {
        assert_eq!(I2cSpeedMode::from_u8(raw), Err(RcpError::InvalidParameter));
    }
}

#[test]
fn i2c_speed_mode_is_ambiguous_high_speed_row_true_only_for_the_two_flagged_rows() {
    for mode in ALL_SPEED_MODES {
        let expected = matches!(
            mode,
            I2cSpeedMode::HighSpeedRowA | I2cSpeedMode::HighSpeedRowB
        );
        assert_eq!(mode.is_ambiguous_high_speed_row(), expected);
    }
}

#[test]
fn i2c_speed_mode_default_is_standard_and_not_an_ambiguous_row() {
    let mode = I2cSpeedMode::default();
    assert_eq!(mode, I2cSpeedMode::Standard);
    assert!(!mode.is_ambiguous_high_speed_row());
}

// ── TC18 Table 46: i2c_mode preset wire values ──────────────────────────

#[test]
fn i2c_mode_wire_values_match_tc18_table_46_unambiguous_rows() {
    // TC18 §13.7.7.2 Table 46 (TC18.txt lines 4815-4817), i2c_mode
    // (relative address 0x0007, 8 bit R/W):
    //   0: Standard Mode 100kbit/s
    //   1: Fast Mode 400kbit/s
    //   2: Fast Mode plus 1Mbit/s
    assert_eq!(I2cSpeedMode::from_u8(0), Ok(I2cSpeedMode::Standard));
    assert_eq!(I2cSpeedMode::from_u8(1), Ok(I2cSpeedMode::Fast));
    assert_eq!(I2cSpeedMode::from_u8(2), Ok(I2cSpeedMode::FastPlus));
    assert_eq!(I2cSpeedMode::Standard.to_u8(), 0);
    assert_eq!(I2cSpeedMode::Fast.to_u8(), 1);
    assert_eq!(I2cSpeedMode::FastPlus.to_u8(), 2);
    // None of these three rows is one of Table 46's duplicated
    // high-speed rows, so none may be reported as unresolved.
    for mode in [
        I2cSpeedMode::Standard,
        I2cSpeedMode::Fast,
        I2cSpeedMode::FastPlus,
    ] {
        assert!(!mode.is_ambiguous_high_speed_row());
    }
}

#[test]
fn i2c_mode_value_three_is_not_resolved_to_a_single_high_speed_rate() {
    // TC18 §13.7.7.2 Table 46 (TC18.txt lines 4818-4819) lists two
    // adjacent High-speed rows that both carry the same i2c_mode wire
    // value 3:
    //   3: High-speed mode 1.7Mbit/s
    //   3: High-speed mode 3.4Mbit/s
    // Decoding value 3 must therefore be flagged as unresolved rather
    // than silently picking either bit rate.
    let decoded = I2cSpeedMode::from_u8(3).expect("3 is an enumerated Table 46 i2c_mode value");
    assert!(decoded.is_ambiguous_high_speed_row());
    assert_eq!(decoded.to_u8(), 3);
}

// ── TC18 §13.7.7.3: address-format transparency ─────────────────────────

#[test]
fn i2c_byte_transfer_is_transparent_to_seven_and_ten_bit_addressing() {
    // TC18 §13.7.7.3 (TC18.txt line 4830): "The byte msg payload is the
    // I2C payload including the address. The I2C endpoint does not know
    // whether there is a 7- or 10-bit address, since the endpoint is just
    // transparent." The worked example there (Figure 29) is an I²C
    // transfer with a 10-bit address and 5 bytes of data — 2 address
    // bytes + 5 data bytes = a 7-byte byte_msg_payload.
    let ten_bit_addressed = vec![0xF2, 0x34, 0x11, 0x22, 0x33, 0x44, 0x55];
    assert_eq!(ten_bit_addressed.len(), 7);
    let transfer = I2cByteTransfer {
        bytes: ten_bit_addressed.clone(),
    };
    // Emitted verbatim: no length prefix, no address framing, no
    // reordering, nothing stripped.
    assert_eq!(transfer.encode(), ten_bit_addressed);
    assert_eq!(
        I2cByteTransfer::decode(&ten_bit_addressed).bytes,
        ten_bit_addressed
    );

    // The same 5 data bytes behind a single 7-bit address byte are
    // carried identically — exactly one byte shorter, nothing else
    // differs, and no addressing scheme is inferred either way.
    let seven_bit_addressed = vec![0xA0, 0x11, 0x22, 0x33, 0x44, 0x55];
    assert_eq!(seven_bit_addressed.len(), ten_bit_addressed.len() - 1);
    assert_eq!(
        I2cByteTransfer::decode(&seven_bit_addressed).bytes,
        seven_bit_addressed
    );

    // The bus-to-controller direction is equally transparent.
    assert_eq!(
        I2cByteTransferResult::decode(&ten_bit_addressed).encode(),
        ten_bit_addressed
    );
}

// ── I2cFunctionalConfig / layer_tag ─────────────────────────────────────

#[test]
fn i2c_functional_config_default_uses_default_speed_mode() {
    let config = I2cFunctionalConfig::default();
    assert_eq!(config.speed_mode, I2cSpeedMode::default());
}

#[test]
fn i2c_functional_config_layer_tag_matches_ep_type_i2c() {
    let functional = I2cFunctionalConfig::default();
    let generic = rcp::regmap::PerEpConfigBlock::new(rcp::regmap::EndpointType::I2c);
    let tag = functional.layer_tag();
    assert_eq!(tag.ep_type, rcp::regmap::EndpointType::I2c);
    assert!(rcp::regmap::functional_config_matches_ep_type(
        &generic, &tag
    ));
    assert_eq!(
        rcp::regmap::check_functional_config_matches_ep_type(&generic, &tag),
        Ok(())
    );
}

#[test]
fn i2c_functional_config_layer_tag_rejects_mismatched_ep_type() {
    let functional = I2cFunctionalConfig::default();
    let generic = rcp::regmap::PerEpConfigBlock::new(rcp::regmap::EndpointType::Spi);
    let tag = functional.layer_tag();
    assert!(!rcp::regmap::functional_config_matches_ep_type(
        &generic, &tag
    ));
}

// ── I2cByteTransfer: round-trip / never-panic ───────────────────────────

#[test]
fn i2c_byte_transfer_round_trips_through_encode_decode() {
    for bytes in [
        vec![],
        vec![0x00],
        // A plausible 7-bit-address-plus-data shape: this module does
        // not interpret it as such, it is exercised only as opaque
        // bytes.
        vec![0xA0, 0x01, 0x02],
        (0u8..=255).collect(),
    ] {
        let transfer = I2cByteTransfer {
            bytes: bytes.clone(),
        };
        assert_eq!(I2cByteTransfer::decode(&transfer.encode()).bytes, bytes);
    }
}

#[test]
fn i2c_byte_transfer_decode_never_panics_for_any_sampled_input() {
    for len in [0usize, 1, 2, 7, 64] {
        let buf = vec![0x5Au8; len];
        let _ = I2cByteTransfer::decode(&buf);
    }
}

// ── I2cByteTransferResult: round-trip / never-panic ─────────────────────

#[test]
fn i2c_byte_transfer_result_round_trips_through_encode_decode() {
    for bytes in [vec![], vec![0xFF], vec![0x01, 0x02, 0x03]] {
        let result = I2cByteTransferResult {
            bytes: bytes.clone(),
        };
        assert_eq!(I2cByteTransferResult::decode(&result.encode()).bytes, bytes);
    }
}

#[test]
fn i2c_byte_transfer_result_decode_never_panics_for_any_sampled_input() {
    for len in [0usize, 1, 5, 32] {
        let buf = vec![0xA5u8; len];
        let _ = I2cByteTransferResult::decode(&buf);
    }
}

// ── I2cRequest::from_evt_sub_opcode ─────────────────────────────────────

#[test]
fn i2c_request_plain_evt_decodes_payload_as_byte_transfer() {
    // TC18 §13.7.7.3 Figure 30's own worked example: a 10-bit-addressed
    // transfer, address bytes included verbatim in the payload.
    let payload = [0xF2, 0x34, 0x11, 0x22, 0x33, 0x44, 0x55];
    let request = I2cRequest::from_evt_sub_opcode(0b000, &payload).unwrap();
    assert_eq!(
        request,
        I2cRequest::Plain(I2cByteTransfer {
            bytes: payload.to_vec()
        })
    );
}

#[test]
fn i2c_request_plain_evt_accepts_an_empty_payload() {
    let request = I2cRequest::from_evt_sub_opcode(0b000, &[]).unwrap();
    assert_eq!(request, I2cRequest::Plain(I2cByteTransfer::default()));
}

#[test]
fn i2c_request_config_write_evt_is_recognized_without_interpreting_payload() {
    // The payload is not decoded as an I2cByteTransfer for a
    // config-write request — the variant carries no payload at all,
    // so garbage bytes here cannot be silently misread as a transfer.
    let request = I2cRequest::from_evt_sub_opcode(0b111, &[0xDE, 0xAD, 0xBE, 0xEF]).unwrap();
    assert_eq!(request, I2cRequest::ConfigWrite);
}

#[test]
fn i2c_request_reserved_evt_values_are_rejected_with_unsupported_cmd() {
    for sub_opcode in 0b001..=0b110u8 {
        assert_eq!(
            I2cRequest::from_evt_sub_opcode(sub_opcode, &[]),
            Err(RcpError::UnsupportedCmd)
        );
        assert_eq!(
            I2cRequest::from_evt_sub_opcode(sub_opcode, &[1, 2, 3]),
            Err(RcpError::UnsupportedCmd)
        );
    }
}

#[test]
fn i2c_request_values_above_the_3_bit_field_are_also_rejected_with_unsupported_cmd() {
    for sub_opcode in (rcp::acf::EVT_SUB_OPCODE_MAX + 1)..=u8::MAX {
        assert_eq!(
            I2cRequest::from_evt_sub_opcode(sub_opcode, &[]),
            Err(RcpError::UnsupportedCmd)
        );
    }
}

#[test]
fn i2c_request_from_evt_sub_opcode_never_panics_for_any_sampled_input() {
    let payloads: [&[u8]; 3] = [&[], &[0x00], &[0xAA; 32]];
    for sub_opcode in 0..=u8::MAX {
        for payload in payloads {
            let _ = I2cRequest::from_evt_sub_opcode(sub_opcode, payload);
        }
    }
}
