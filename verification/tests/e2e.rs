use rcp::acf::{self, AcfAbbMessage, AcfGbbMessage};
use rcp::avtp::{self, HeaderVariant};
use rcp::e2e::{
    build_crc32_coverage_buffer, build_crc32_coverage_buffer_for_fragment_train,
    check_fragment_crc_placement, crc32_tc18, crc32_tc18_for_fragment_train,
    finalize_crc_trailer, fragment_crc_expectation, split_crc_trailer, AcfCoverageMessage,
    CombinedFragmentPayload, FragmentCrcExpectation, CRC32_COVERAGE_LENGTH_PREADJUST_QUADLETS,
    CRC32_TC18_INIT_XOROUT, CRC32_TC18_POLY_REFLECTED, CRC_TRAILER_LEN,
};
use rcp::RcpError;



// ── crc32_tc18 ──────────────────────────────────────────────────────────

/// Independent reference implementation of the same
/// poly=`0xF4ACFB13`/init=`0xFFFFFFFF`/xorout=`0xFFFFFFFF`/reflect-in/
/// reflect-out CRC-32 definition, structured differently from
/// [`crc32_tc18`]: it reflects each input byte and the final register
/// by hand around a plain MSB-first shift register using the
/// *unreversed* polynomial, instead of [`crc32_tc18`]'s LSB-first
/// shift against the pre-reversed polynomial. Exists only so the two
/// can be cross-checked against each other — see this module's
/// provenance note. Test-only; not part of the public API.
fn crc32_tc18_reference(data: &[u8]) -> u32 {
    // The un-reversed OPEN Alliance TC18 safe-point CRC-32 polynomial;
    // deliberately re-declared here (rather than sharing
    // `CRC32_TC18_POLY_REFLECTED`) so this reference implementation
    // has no code in common with `crc32_tc18` beyond the four stated
    // parameters themselves.
    const POLY: u32 = 0xF4AC_FB13;
    let mut crc = CRC32_TC18_INIT_XOROUT;
    for &byte in data {
        crc ^= (byte.reverse_bits() as u32) << 24;
        for _ in 0..8 {
            crc = if crc & 0x8000_0000 != 0 {
                (crc << 1) ^ POLY
            } else {
                crc << 1
            };
        }
    }
    crc.reverse_bits() ^ CRC32_TC18_INIT_XOROUT
}

#[test]
fn crc32_tc18_empty_input_matches_reference() {
    assert_eq!(crc32_tc18(&[]), crc32_tc18_reference(&[]));
    assert_eq!(crc32_tc18(&[]), 0x0000_0000);
}

#[test]
fn crc32_tc18_ascii_check_string_matches_reference() {
    // "123456789" is the conventional CRC-32 check corpus; the expected
    // constant below is this polynomial's own derived value (see this
    // module's provenance note), not an externally published one.
    let data = b"123456789";
    assert_eq!(crc32_tc18(data), crc32_tc18_reference(data));
    assert_eq!(crc32_tc18(data), 0x1697_d06a);
}

#[test]
fn crc32_tc18_all_zero_boundary_matches_reference() {
    let data = [0u8; 16];
    assert_eq!(crc32_tc18(&data), crc32_tc18_reference(&data));
    assert_eq!(crc32_tc18(&data), 0x0fa6_214b);
}

#[test]
fn crc32_tc18_all_0xff_boundary_matches_reference() {
    let data = [0xFFu8; 16];
    assert_eq!(crc32_tc18(&data), crc32_tc18_reference(&data));
    assert_eq!(crc32_tc18(&data), 0xb0f2_7ef5);
}

#[test]
fn crc32_tc18_matches_reference_across_varied_inputs() {
    let vectors: [&[u8]; 4] = [
        b"OPEN Alliance TC18",
        &[0x00, 0x01, 0x02, 0x03, 0x04, 0x05, 0x06, 0x07],
        b"a",
        b"safe-point",
    ];
    for v in vectors {
        assert_eq!(crc32_tc18(v), crc32_tc18_reference(v));
    }
    let pattern: Vec<u8> = (0..=255u8).collect();
    assert_eq!(crc32_tc18(&pattern), crc32_tc18_reference(&pattern));
}

#[test]
fn crc32_tc18_never_panics_across_arbitrary_lengths() {
    for len in [0usize, 1, 2, 3, 6, 17, 64, 257, 1000] {
        let data: Vec<u8> = (0..len).map(|i| (i % 256) as u8).collect();
        let _ = crc32_tc18(&data);
    }
}

#[test]
fn crc32_tc18_different_payload_produces_different_crc() {
    let a = crc32_tc18(b"payload-a");
    let b = crc32_tc18(b"payload-b");
    assert_ne!(a, b);
}

#[test]
fn crc32_tc18_single_bit_flip_changes_crc() {
    let mut data = b"integrity check data".to_vec();
    let baseline = crc32_tc18(&data);
    data[0] ^= 0x01;
    assert_ne!(crc32_tc18(&data), baseline);
}

// ── CRC-32 coverage rule ────────────────────────────────────────────────

fn sample_abb_message(acf_msg_length: u16, payload: &[u8]) -> AcfAbbMessage {
    AcfAbbMessage {
        info: acf::ByteMessageInfo {
            acf_msg_length,
            ..Default::default()
        },
        payload: payload.to_vec(),
    }
}

fn sample_gbb_message(
    acf_msg_length: u16,
    message_timestamp: u64,
    payload: &[u8],
) -> AcfGbbMessage {
    AcfGbbMessage {
        info: acf::ByteMessageInfo {
            acf_msg_length,
            ..Default::default()
        },
        message_timestamp,
        payload: payload.to_vec(),
    }
}

// ── TC18 §13.6 Table 31 / ACF-specific / request-response symmetry ─────

#[test]
fn poly_constant_is_the_bit_reversal_of_table_31_polynomial() {
    // TC18 §13.6 Table 31 "CRC32 Polynomial" (TC18.txt line 3792), read
    // row by row:
    //   Polynomial        0xF4ACFB13
    //   Width             32 bit
    //   Initial Value     0xFFFFFFFF
    //   Final XOR         0xFFFFFFFF
    //   Input reflection  TRUE
    //   Output reflection TRUE
    //
    // `crc32_tc18` runs a reflected (LSB-first) shift register, which
    // is only equivalent to that definition if the constant it shifts
    // against is the exact bit reversal of Table 31's polynomial.
    const TABLE_31_POLYNOMIAL: u32 = 0xF4AC_FB13;
    const TABLE_31_INITIAL_VALUE: u32 = 0xFFFF_FFFF;
    const TABLE_31_FINAL_XOR: u32 = 0xFFFF_FFFF;
    const TABLE_31_WIDTH_BITS: u32 = 32;

    assert_eq!(
        CRC32_TC18_POLY_REFLECTED,
        TABLE_31_POLYNOMIAL.reverse_bits(),
        "the reflected engine must shift against bitrev32(0xF4ACFB13)"
    );
    assert_eq!(CRC32_TC18_INIT_XOROUT, TABLE_31_INITIAL_VALUE);
    assert_eq!(CRC32_TC18_INIT_XOROUT, TABLE_31_FINAL_XOR);
    assert_eq!(u32::BITS, TABLE_31_WIDTH_BITS);
}

#[test]
fn crc32_is_computed_per_acf_type_individually() {
    // TC18 §13.6 (TC18.txt line 3789): "the CRC32 is ACF specific,
    // which means it is calculated for multiple ACF types in one AVTPDU
    // for each ACF type individually."
    //
    // Two ACF messages riding under one and the same AVTPDU header must
    // therefore yield two independent coverage buffers and two
    // independent CRCs — neither buffer may contain the other message's
    // payload bytes.
    let header = HeaderVariant::Ntscf(avtp::NtscfHeader {
        stream_id: 0x0011_2233_4455_6677,
        ..Default::default()
    });
    let first = sample_abb_message(3, b"first-acf");
    let second = sample_gbb_message(5, 0x1234, b"second-acf");

    let buf_first = build_crc32_coverage_buffer(&header, &AcfCoverageMessage::Abb(&first))
        .expect("first ACF message covers on its own");
    let buf_second = build_crc32_coverage_buffer(&header, &AcfCoverageMessage::Gbb(&second))
        .expect("second ACF message covers on its own");

    assert!(
        !buf_first.windows(10).any(|w| w == b"second-acf"),
        "the first ACF type's coverage must not include the second's payload"
    );
    assert!(
        !buf_second.windows(9).any(|w| w == b"first-acf"),
        "the second ACF type's coverage must not include the first's payload"
    );
    assert_ne!(
        crc32_tc18(&buf_first),
        crc32_tc18(&buf_second),
        "two ACF types in one AVTPDU get two distinct CRC32 values"
    );
}

#[test]
fn crc_scheme_is_identical_for_request_and_response() {
    // TC18 §13.6 (TC18.txt line 3808): "The CRC calculation for request
    // and response follows the identical scheme."
    //
    // TC18 §11.2.1 Table 4 gives a request rsp = 0b and §11.3 Table 15
    // gives a response rsp = 1b; that single covered header bit is the
    // *only* thing that may differ between the two directions' coverage
    // buffers. In particular, neither build_crc32_coverage_buffer nor
    // crc32_tc18 takes a direction argument.
    let header = HeaderVariant::Ntscf(avtp::NtscfHeader {
        stream_id: 0x0102_0304_0506_0708,
        ..Default::default()
    });
    let payload = b"same-bytes-both-ways";

    let mut request = sample_abb_message(4, payload);
    request.info.rsp = false;
    let mut response = request.clone();
    response.info.rsp = true;

    let buf_request =
        build_crc32_coverage_buffer(&header, &AcfCoverageMessage::Abb(&request)).unwrap();
    let buf_response =
        build_crc32_coverage_buffer(&header, &AcfCoverageMessage::Abb(&response)).unwrap();

    assert_eq!(
        buf_request.len(),
        buf_response.len(),
        "identical scheme: same coverage extent in both directions"
    );
    // rsp is octet 6 bit 6 of byte_message_info, which starts 12 bytes
    // into the coverage buffer (8-byte stream_id + 4-byte
    // avtp_timestamp position) — so index 12 + 6 == 18.
    let differing: Vec<usize> = (0..buf_request.len())
        .filter(|&i| buf_request[i] != buf_response[i])
        .collect();
    assert_eq!(
        differing,
        vec![18],
        "only the rsp bit's own octet may differ between the two directions"
    );
    assert_eq!(buf_request[18] ^ buf_response[18], 0x40, "rsp is bit 6");

    // And with rsp forced equal, the two directions produce byte-for-byte
    // identical coverage and therefore an identical CRC.
    response.info.rsp = false;
    let buf_response_same =
        build_crc32_coverage_buffer(&header, &AcfCoverageMessage::Abb(&response)).unwrap();
    assert_eq!(buf_request, buf_response_same);
    assert_eq!(crc32_tc18(&buf_request), crc32_tc18(&buf_response_same));
}

#[test]
fn coverage_buffer_leads_with_stream_id_bytes() {
    let header = HeaderVariant::Ntscf(avtp::NtscfHeader {
        stream_id: 0x0102_0304_0506_0708,
        ..Default::default()
    });
    let acf = AcfCoverageMessage::Abb(&sample_abb_message(0, b"pl"));
    let buf = build_crc32_coverage_buffer(&header, &acf).unwrap();
    assert_eq!(&buf[0..8], &0x0102_0304_0506_0708u64.to_be_bytes());
}

#[test]
fn coverage_buffer_zeroes_avtp_timestamp_under_ntscf() {
    let header = HeaderVariant::Ntscf(avtp::NtscfHeader {
        stream_id: 0xAABB_CCDD_EEFF_0011,
        ..Default::default()
    });
    let acf = AcfCoverageMessage::Abb(&sample_abb_message(0, b"pl"));
    let buf = build_crc32_coverage_buffer(&header, &acf).unwrap();
    // Bytes [8..12] are the avtp_timestamp position, immediately after
    // the 8-byte stream_id — must be all-zero, not omitted, per the
    // "zeroed under NTSCF" rule.
    assert_eq!(&buf[8..12], &[0, 0, 0, 0]);
}

#[test]
fn coverage_buffer_uses_real_avtp_timestamp_under_tscf() {
    let header = HeaderVariant::Tscf(avtp::TscfHeader {
        stream_id: 0x1,
        avtp_timestamp: 0xDEAD_BEEF,
        ..Default::default()
    });
    let acf = AcfCoverageMessage::Abb(&sample_abb_message(0, b"pl"));
    let buf = build_crc32_coverage_buffer(&header, &acf).unwrap();
    assert_eq!(&buf[8..12], &0xDEAD_BEEFu32.to_be_bytes());
}

#[test]
fn coverage_buffer_abb_header_has_no_message_timestamp_region() {
    let header = HeaderVariant::Ntscf(avtp::NtscfHeader::default());
    let payload = b"abb-payload";
    let acf = AcfCoverageMessage::Abb(&sample_abb_message(0, payload));
    let buf = build_crc32_coverage_buffer(&header, &acf).unwrap();
    // 8 (stream_id) + 4 (avtp_timestamp) + ACF_ABB_HEADER_LEN + payload.
    assert_eq!(buf.len(), 12 + acf::ACF_ABB_HEADER_LEN + payload.len());
    // `acf_msg_type` is folded into byte_message_info's first octet
    // (rust-RCP-W01), not a separate leading byte — decode it back out
    // rather than comparing a raw byte.
    let decoded_info = acf::decode_byte_message_info(&buf[12..]).unwrap();
    assert_eq!(decoded_info.acf_msg_type, acf::ACF_ABB_MSG_TYPE);
    assert_eq!(&buf[buf.len() - payload.len()..], payload);
}

#[test]
fn coverage_buffer_gbb_header_carries_message_timestamp() {
    let header = HeaderVariant::Ntscf(avtp::NtscfHeader::default());
    let payload = b"gbb-payload";
    let msg = sample_gbb_message(0, 0x0011_2233_4455_6677, payload);
    let acf = AcfCoverageMessage::Gbb(&msg);
    let buf = build_crc32_coverage_buffer(&header, &acf).unwrap();
    // 8 (stream_id) + 4 (avtp_timestamp) + ACF_GBB_HEADER_LEN + payload.
    assert_eq!(buf.len(), 12 + acf::ACF_GBB_HEADER_LEN + payload.len());
    // `acf_msg_type` is folded into byte_message_info's first octet
    // (rust-RCP-W01), not a separate leading byte — decode it back out
    // rather than comparing a raw byte.
    let decoded_info = acf::decode_byte_message_info(&buf[12..]).unwrap();
    assert_eq!(decoded_info.acf_msg_type, acf::ACF_GBB_MSG_TYPE);
    // message_timestamp occupies the 8 bytes just before the payload
    // (ACF_GBB_HEADER_LEN already accounts for byte_message_info's
    // width, so it starts right after that).
    let ts_start = 12 + acf::BYTE_MESSAGE_INFO_LEN;
    let ts_end = ts_start + 8;
    assert_eq!(
        &buf[ts_start..ts_end],
        &0x0011_2233_4455_6677u64.to_be_bytes()
    );
    assert_eq!(&buf[buf.len() - payload.len()..], payload);
}

#[test]
fn coverage_buffer_preadjusts_acf_msg_length_by_one_quadlet() {
    let header = HeaderVariant::Ntscf(avtp::NtscfHeader::default());
    let acf_msg_length = 0x0100u16;
    let acf = AcfCoverageMessage::Abb(&sample_abb_message(acf_msg_length, b"x"));
    let buf = build_crc32_coverage_buffer(&header, &acf).unwrap();
    // The ACF header region starts at byte 12 (after stream_id +
    // avtp_timestamp); byte_message_info starts immediately there —
    // `acf_msg_type` is folded into it, not a separate leading byte
    // (rust-RCP-W01).
    let info_start = 12;
    let decoded = acf::decode_byte_message_info(
        &buf[info_start..info_start + acf::BYTE_MESSAGE_INFO_LEN],
    )
    .unwrap();
    assert_eq!(
        decoded.acf_msg_length,
        acf_msg_length + CRC32_COVERAGE_LENGTH_PREADJUST_QUADLETS
    );
}

#[test]
fn coverage_buffer_rejects_length_that_overflows_9_bits_after_preadjustment() {
    let header = HeaderVariant::Ntscf(avtp::NtscfHeader::default());
    // Max legal 9-bit acf_msg_length; +1 pushes it past the field
    // width, so encoding must fail the same way
    // `acf::encode_byte_message_info` itself would.
    let acf = AcfCoverageMessage::Abb(&sample_abb_message(acf::ACF_MSG_LENGTH_9BIT_MAX, b"x"));
    assert_eq!(
        build_crc32_coverage_buffer(&header, &acf),
        Err(RcpError::InvalidSize)
    );
}

#[test]
fn coverage_buffer_feeds_crc32_tc18_without_panicking() {
    let header = HeaderVariant::Tscf(avtp::TscfHeader {
        stream_id: 0x0203_0405_0607_0809,
        avtp_timestamp: 0x1234_5678,
        ..Default::default()
    });
    let msg = sample_gbb_message(0x0010, 0x99, b"safe-point payload");
    let acf = AcfCoverageMessage::Gbb(&msg);
    let buf = build_crc32_coverage_buffer(&header, &acf).unwrap();
    let _ = crc32_tc18(&buf);
}

#[test]
fn coverage_buffer_changes_when_stream_id_differs() {
    let payload = b"same-payload";
    let acf = AcfCoverageMessage::Abb(&sample_abb_message(0, payload));
    let h1 = HeaderVariant::Ntscf(avtp::NtscfHeader {
        stream_id: 1,
        ..Default::default()
    });
    let h2 = HeaderVariant::Ntscf(avtp::NtscfHeader {
        stream_id: 2,
        ..Default::default()
    });
    let b1 = build_crc32_coverage_buffer(&h1, &acf).unwrap();
    let b2 = build_crc32_coverage_buffer(&h2, &acf).unwrap();
    assert_ne!(crc32_tc18(&b1), crc32_tc18(&b2));
}

// ── CRC trailer wire placement: encode/decode ────────────────────────────
//
// Golden vectors: TC18 Figure 19 (ACF_ABB) / Figure 20 (ACF_GBB) worked
// examples, moved here from `acf.rs` (see this module's "CRC trailer
// wire placement" doc section) and strengthened to pin the ACTUAL byte
// sequence — not just total length/quadlet-count/pad-count, which
// stayed correct even under the old, reversed `payload, CRC, pad` byte
// order and so never caught that bug.

#[test]
fn finalize_crc_trailer_matches_figure_19_worked_example() {
    // Figure 19: ACF_ABB, 8-byte header + 6 real payload bytes + 2 pad
    // bytes + 4-byte CRC32 trailer = 20 bytes total = 5 quadlets, wire
    // order header, payload, pad, THEN CRC.
    let real_payload: [u8; 6] = [0xA1, 0xA2, 0xA3, 0xA4, 0xA5, 0xA6];
    let msg = AcfAbbMessage {
        info: acf::ByteMessageInfo::default(),
        payload: real_payload.to_vec(),
    };

    // encode_acf_abb, called with the real payload alone, already gets
    // the pre-CRC part exactly right: its own automatic pad lands
    // right after the real payload.
    let mut frame = acf::encode_acf_abb(&msg).unwrap();
    assert_eq!(frame.len(), 16, "header(8) + payload(6) + native pad(2)");
    let pre_crc_info =
        acf::decode_byte_message_info(&frame[..acf::BYTE_MESSAGE_INFO_LEN]).unwrap();
    assert_eq!(
        pre_crc_info.acf_msg_length, 4,
        "base length before the CRC trailer's own quadlet is counted"
    );
    assert_eq!(
        pre_crc_info.pad, 2,
        "Figure 19: 2 pad bytes, derived from the real payload alone"
    );
    assert_eq!(
        &frame[8..14],
        &real_payload,
        "payload right after the header"
    );
    assert_eq!(
        &frame[14..16],
        &[0x00, 0x00],
        "native pad right after the payload"
    );

    let header = HeaderVariant::Ntscf(avtp::NtscfHeader::default());
    let coverage_msg = AcfAbbMessage {
        info: pre_crc_info,
        payload: real_payload.to_vec(),
    };
    let coverage =
        build_crc32_coverage_buffer(&header, &AcfCoverageMessage::Abb(&coverage_msg)).unwrap();
    let crc = crc32_tc18(&coverage);

    finalize_crc_trailer(&mut frame, crc).unwrap();
    assert_eq!(frame.len(), 20, "Figure 19: total message is 20 bytes");

    let final_info =
        acf::decode_byte_message_info(&frame[..acf::BYTE_MESSAGE_INFO_LEN]).unwrap();
    assert_eq!(
        final_info.acf_msg_length, 0x05,
        "Figure 19: acf_msg_length must be 5 quadlets"
    );
    assert_eq!(final_info.acf_msg_type, acf::ACF_ABB_MSG_TYPE);
    assert_eq!(
        final_info.pad, 2,
        "Figure 19: 2 pad bytes — unchanged by finalize_crc_trailer"
    );

    // The exact TC18 wire byte sequence: header(8), payload(6), pad(2),
    // CRC(4) — pad strictly BEFORE the CRC, not after it.
    assert_eq!(
        &frame[0..8],
        &acf::encode_byte_message_info(&final_info).unwrap()
    );
    assert_eq!(
        &frame[8..14],
        &real_payload,
        "payload comes right after the header"
    );
    assert_eq!(
        &frame[14..16],
        &[0x00, 0x00],
        "pad comes right after the payload"
    );
    assert_eq!(
        &frame[16..20],
        &crc.to_be_bytes(),
        "CRC comes last, after pad — not before it"
    );

    // Decode-side mirror: split_crc_trailer + acf::decode_acf_abb
    // recover the real payload (pad already stripped by the acf
    // layer's own existing logic) and the same CRC value.
    let (body, decoded_crc) = split_crc_trailer(&frame).unwrap();
    assert_eq!(decoded_crc, crc);
    let decoded = acf::decode_acf_abb(&body).unwrap();
    assert_eq!(decoded.payload, real_payload.to_vec());
    assert_eq!(decoded.info.pad, 2);
}

#[test]
fn finalize_crc_trailer_matches_figure_20_worked_example() {
    // Figure 20: ACF_GBB, 8-byte header + 8-byte timestamp + 7 real
    // payload bytes + 1 pad byte + 4-byte CRC32 trailer = 28 bytes
    // total = 7 quadlets, wire order header, timestamp, payload, pad,
    // THEN CRC.
    let real_payload: [u8; 7] = [0xB1, 0xB2, 0xB3, 0xB4, 0xB5, 0xB6, 0xB7];
    let message_timestamp: u64 = 0x0102_0304_0506_0708;
    let msg = AcfGbbMessage {
        info: acf::ByteMessageInfo::default(),
        message_timestamp,
        payload: real_payload.to_vec(),
    };

    let mut frame = acf::encode_acf_gbb(&msg).unwrap();
    assert_eq!(
        frame.len(),
        24,
        "header(8) + timestamp(8) + payload(7) + native pad(1)"
    );
    let pre_crc_info =
        acf::decode_byte_message_info(&frame[..acf::BYTE_MESSAGE_INFO_LEN]).unwrap();
    assert_eq!(
        pre_crc_info.acf_msg_length, 6,
        "base length before the CRC trailer's own quadlet is counted"
    );
    assert_eq!(
        pre_crc_info.pad, 1,
        "Figure 20: 1 pad byte, derived from the real payload alone"
    );
    let ts_start = acf::BYTE_MESSAGE_INFO_LEN;
    assert_eq!(
        &frame[ts_start..ts_start + 8],
        &message_timestamp.to_be_bytes(),
        "timestamp right after the header"
    );
    assert_eq!(
        &frame[16..23],
        &real_payload,
        "payload right after the timestamp"
    );
    assert_eq!(
        &frame[23..24],
        &[0x00],
        "native pad right after the payload"
    );

    let header = HeaderVariant::Ntscf(avtp::NtscfHeader::default());
    let coverage_msg = AcfGbbMessage {
        info: pre_crc_info,
        message_timestamp,
        payload: real_payload.to_vec(),
    };
    let coverage =
        build_crc32_coverage_buffer(&header, &AcfCoverageMessage::Gbb(&coverage_msg)).unwrap();
    let crc = crc32_tc18(&coverage);

    finalize_crc_trailer(&mut frame, crc).unwrap();
    assert_eq!(frame.len(), 28, "Figure 20: total message is 28 bytes");

    let final_info =
        acf::decode_byte_message_info(&frame[..acf::BYTE_MESSAGE_INFO_LEN]).unwrap();
    assert_eq!(
        final_info.acf_msg_length, 0x07,
        "Figure 20: acf_msg_length must be 7 quadlets"
    );
    assert_eq!(final_info.acf_msg_type, acf::ACF_GBB_MSG_TYPE);
    assert_eq!(
        final_info.pad, 1,
        "Figure 20: 1 pad byte — unchanged by finalize_crc_trailer"
    );

    // The exact TC18 wire byte sequence: header(8), timestamp(8),
    // payload(7), pad(1), CRC(4) — pad strictly BEFORE the CRC.
    assert_eq!(
        &frame[ts_start..ts_start + 8],
        &message_timestamp.to_be_bytes()
    );
    assert_eq!(
        &frame[16..23],
        &real_payload,
        "payload comes right after the timestamp"
    );
    assert_eq!(&frame[23..24], &[0x00], "pad comes right after the payload");
    assert_eq!(
        &frame[24..28],
        &crc.to_be_bytes(),
        "CRC comes last, after pad — not before it"
    );

    let (body, decoded_crc) = split_crc_trailer(&frame).unwrap();
    assert_eq!(decoded_crc, crc);
    let decoded = acf::decode_acf_gbb(&body).unwrap();
    assert_eq!(decoded.payload, real_payload.to_vec());
    assert_eq!(decoded.message_timestamp, message_timestamp);
    assert_eq!(decoded.info.pad, 1);
}

#[test]
fn finalize_crc_trailer_never_places_pad_after_crc() {
    // Regression guard for the padding-order bug this module's own
    // "CRC trailer wire placement" doc section describes: naively
    // concatenating `real_payload + crc_bytes` into one blob and
    // handing THAT to `encode_acf_abb` (the old, buggy pattern) puts
    // the encoder's automatically-derived pad after the CRC instead of
    // before it. finalize_crc_trailer must never reproduce that order.
    let real_payload: [u8; 6] = [1, 2, 3, 4, 5, 6];
    let crc: u32 = 0x1122_3344;

    // The old, buggy construction this fix replaces.
    let buggy_payload: Vec<u8> = real_payload
        .iter()
        .copied()
        .chain(crc.to_be_bytes())
        .collect();
    let buggy_msg = AcfAbbMessage {
        info: acf::ByteMessageInfo::default(),
        payload: buggy_payload,
    };
    let buggy_frame = acf::encode_acf_abb(&buggy_msg).unwrap();
    // Buggy order: ...payload(6), CRC(4), pad(2) — CRC bytes land at
    // [14..18], pad lands at [18..20], both wrong relative to Figure 19.
    assert_eq!(&buggy_frame[14..18], &crc.to_be_bytes());
    assert_eq!(&buggy_frame[18..20], &[0x00, 0x00]);

    // The fixed construction.
    let msg = AcfAbbMessage {
        info: acf::ByteMessageInfo::default(),
        payload: real_payload.to_vec(),
    };
    let mut frame = acf::encode_acf_abb(&msg).unwrap();
    finalize_crc_trailer(&mut frame, crc).unwrap();
    // Correct order: pad(2) at [14..16], THEN CRC(4) at [16..20].
    assert_eq!(&frame[14..16], &[0x00, 0x00]);
    assert_eq!(&frame[16..20], &crc.to_be_bytes());
    assert_ne!(
        frame, buggy_frame,
        "the fixed byte order must differ from the old, buggy one"
    );
}

#[test]
fn split_crc_trailer_rejects_short_frame() {
    let short = vec![0u8; acf::BYTE_MESSAGE_INFO_LEN + CRC_TRAILER_LEN - 1];
    assert_eq!(split_crc_trailer(&short), Err(RcpError::ShortFrame));
}

#[test]
fn split_crc_trailer_rejects_length_without_room_for_crc_trailer() {
    // acf_msg_length describes a message shorter than the header
    // itself once the CRC trailer's quadlet is un-adjusted — must be
    // rejected, not silently underflow.
    let info = acf::ByteMessageInfo {
        acf_msg_type: acf::ACF_ABB_MSG_TYPE,
        acf_msg_length: 0, // < CRC_TRAILER_QUADLETS
        ..Default::default()
    };
    let header = acf::encode_byte_message_info(&info).unwrap();
    let mut frame = header.to_vec();
    frame.extend_from_slice(&[0u8; CRC_TRAILER_LEN]);
    assert_eq!(split_crc_trailer(&frame), Err(RcpError::InvalidSize));
}

#[test]
fn finalize_crc_trailer_rejects_length_overflow() {
    let info = acf::ByteMessageInfo {
        acf_msg_type: acf::ACF_ABB_MSG_TYPE,
        acf_msg_length: acf::ACF_MSG_LENGTH_9BIT_MAX,
        ..Default::default()
    };
    let header = acf::encode_byte_message_info(&info).unwrap();
    let mut frame = header.to_vec();
    assert_eq!(
        finalize_crc_trailer(&mut frame, 0),
        Err(RcpError::InvalidSize)
    );
}

#[test]
fn finalize_crc_trailer_rejects_short_frame() {
    let mut short = vec![0u8; acf::BYTE_MESSAGE_INFO_LEN - 1];
    assert_eq!(
        finalize_crc_trailer(&mut short, 0),
        Err(RcpError::ShortFrame)
    );
}

// ── Fragmentation interaction ────────────────────────────────────────────

#[test]
fn combined_fragment_payload_concatenates_in_given_order() {
    let segments: [&[u8]; 3] = [b"ab", b"cd", b"ef"];
    let combined = CombinedFragmentPayload::assemble(&segments);
    assert_eq!(combined.0, b"abcdef".to_vec());
}

#[test]
fn combined_fragment_payload_empty_segments_yields_empty() {
    let segments: [&[u8]; 0] = [];
    let combined = CombinedFragmentPayload::assemble(&segments);
    assert!(combined.0.is_empty());
}

#[test]
fn combined_fragment_payload_single_segment_matches_it_verbatim() {
    let segments: [&[u8]; 1] = [b"solo"];
    let combined = CombinedFragmentPayload::assemble(&segments);
    assert_eq!(combined.0, b"solo".to_vec());
}

#[test]
fn fragment_crc_expectation_not_expected_when_more_segments_follow() {
    assert_eq!(
        fragment_crc_expectation(true),
        FragmentCrcExpectation::NotExpected
    );
}

#[test]
fn fragment_crc_expectation_expected_on_final_fragment() {
    assert_eq!(
        fragment_crc_expectation(false),
        FragmentCrcExpectation::Expected
    );
}

#[test]
fn check_fragment_crc_placement_accepts_no_crc_on_intermediate_fragment() {
    assert_eq!(check_fragment_crc_placement(true, false), Ok(()));
}

#[test]
fn check_fragment_crc_placement_accepts_crc_on_final_fragment() {
    assert_eq!(check_fragment_crc_placement(false, true), Ok(()));
}

#[test]
fn check_fragment_crc_placement_rejects_crc_on_intermediate_fragment() {
    assert_eq!(
        check_fragment_crc_placement(true, true),
        Err(RcpError::InvalidParameter)
    );
}

#[test]
fn check_fragment_crc_placement_rejects_missing_crc_on_final_fragment() {
    assert_eq!(
        check_fragment_crc_placement(false, false),
        Err(RcpError::InvalidParameter)
    );
}

#[test]
fn coverage_buffer_for_fragment_train_matches_manual_concatenation() {
    let header = HeaderVariant::Ntscf(avtp::NtscfHeader {
        stream_id: 0x0102_0304_0506_0708,
        ..Default::default()
    });
    let segments: [&[u8]; 3] = [b"seg-one-", b"seg-two-", b"seg-three"];
    let final_info = acf::ByteMessageInfo {
        acf_msg_length: 0x20,
        ms: false,
        ..Default::default()
    };
    // The final fragment's own payload field is irrelevant to the
    // train buffer — only its header fields (info) are consulted; the
    // payload region comes from `segments` instead.
    let final_fragment_msg = AcfAbbMessage {
        info: final_info,
        payload: b"ignored-final-fragment-payload".to_vec(),
    };
    let final_fragment = AcfCoverageMessage::Abb(&final_fragment_msg);

    let via_train_fn =
        build_crc32_coverage_buffer_for_fragment_train(&header, &final_fragment, &segments)
            .unwrap();

    let manual_combined_msg = AcfAbbMessage {
        info: final_info,
        payload: b"seg-one-seg-two-seg-three".to_vec(),
    };
    let manual =
        build_crc32_coverage_buffer(&header, &AcfCoverageMessage::Abb(&manual_combined_msg))
            .unwrap();

    assert_eq!(via_train_fn, manual);
}

#[test]
fn coverage_buffer_for_fragment_train_changes_when_any_segment_differs() {
    let header = HeaderVariant::Ntscf(avtp::NtscfHeader::default());
    let final_fragment_msg = sample_abb_message(0, b"unused");
    let final_fragment = AcfCoverageMessage::Abb(&final_fragment_msg);

    let segments_a: [&[u8]; 2] = [b"aaaa", b"bbbb"];
    let segments_b: [&[u8]; 2] = [b"aaaa", b"cccc"];

    let buf_a =
        build_crc32_coverage_buffer_for_fragment_train(&header, &final_fragment, &segments_a)
            .unwrap();
    let buf_b =
        build_crc32_coverage_buffer_for_fragment_train(&header, &final_fragment, &segments_b)
            .unwrap();
    assert_ne!(buf_a, buf_b);
}

#[test]
fn coverage_buffer_for_fragment_train_gbb_carries_final_fragment_timestamp() {
    let header = HeaderVariant::Ntscf(avtp::NtscfHeader::default());
    let final_fragment_msg = sample_gbb_message(0, 0x1122_3344_5566_7788, b"unused");
    let final_fragment = AcfCoverageMessage::Gbb(&final_fragment_msg);
    let segments: [&[u8]; 2] = [b"part-a", b"part-b"];

    let buf =
        build_crc32_coverage_buffer_for_fragment_train(&header, &final_fragment, &segments)
            .unwrap();

    // `acf_msg_type` is folded into byte_message_info's first octet
    // (rust-RCP-W01), not a separate leading byte.
    let decoded_info = acf::decode_byte_message_info(&buf[12..]).unwrap();
    assert_eq!(decoded_info.acf_msg_type, acf::ACF_GBB_MSG_TYPE);
    let ts_start = 12 + acf::BYTE_MESSAGE_INFO_LEN;
    let ts_end = ts_start + 8;
    assert_eq!(
        &buf[ts_start..ts_end],
        &0x1122_3344_5566_7788u64.to_be_bytes()
    );
    assert_eq!(&buf[buf.len() - 12..], b"part-apart-b");
}

#[test]
fn coverage_buffer_for_fragment_train_propagates_length_overflow_error() {
    let header = HeaderVariant::Ntscf(avtp::NtscfHeader::default());
    let final_fragment_msg = sample_abb_message(acf::ACF_MSG_LENGTH_9BIT_MAX, b"unused");
    let final_fragment = AcfCoverageMessage::Abb(&final_fragment_msg);
    let segments: [&[u8]; 1] = [b"x"];
    assert_eq!(
        build_crc32_coverage_buffer_for_fragment_train(&header, &final_fragment, &segments),
        Err(RcpError::InvalidSize)
    );
}

#[test]
fn crc32_tc18_for_fragment_train_matches_manual_computation() {
    let header = HeaderVariant::Tscf(avtp::TscfHeader {
        stream_id: 0x0203_0405_0607_0809,
        avtp_timestamp: 0x1234_5678,
        ..Default::default()
    });
    let final_fragment_msg = sample_abb_message(0, b"unused");
    let final_fragment = AcfCoverageMessage::Abb(&final_fragment_msg);
    let segments: [&[u8]; 2] = [b"hello-", b"world"];

    let via_helper =
        crc32_tc18_for_fragment_train(&header, &final_fragment, &segments).unwrap();
    let buf =
        build_crc32_coverage_buffer_for_fragment_train(&header, &final_fragment, &segments)
            .unwrap();
    assert_eq!(via_helper, crc32_tc18(&buf));
}
