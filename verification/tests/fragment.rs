use rcp::acf::ByteMessageInfo;
use rcp::avtp::HeaderVariant;
use rcp::e2e::{self, AcfCoverageMessage, CombinedFragmentPayload};
use rcp::fragment::{verify_reassembled_train_crc, FragmentAcceptOutcome, FragmentReassemblyBuffer};
use rcp::RcpError;


use rcp::acf::{self, ReadSizeOrSegmentNum};
use rcp::avtp;

fn fragment_info(ms: bool, segment_num: u8) -> ByteMessageInfo {
    ByteMessageInfo {
        ms,
        read_size_segment_num: ReadSizeOrSegmentNum(segment_num),
        ..Default::default()
    }
}

// ── fragmentation_supported / new ────────────────────────────────────────

#[test]
fn new_with_zero_bound_reports_fragmentation_unsupported() {
    let buf = FragmentReassemblyBuffer::new(0);
    assert!(!buf.fragmentation_supported());
}

#[test]
fn new_with_nonzero_bound_reports_fragmentation_supported() {
    let buf = FragmentReassemblyBuffer::new(128);
    assert!(buf.fragmentation_supported());
}

#[test]
fn new_buffer_is_not_in_progress() {
    let buf = FragmentReassemblyBuffer::new(128);
    assert!(!buf.is_in_progress());
    assert!(buf.segment_refs().is_empty());
}

// ── unsupported-stream rejection ─────────────────────────────────────────

#[test]
fn accept_fragment_rejects_on_zero_bound_stream() {
    let mut buf = FragmentReassemblyBuffer::new(0);
    let info = fragment_info(true, 0);
    assert_eq!(
        buf.accept_fragment(&info, b"x"),
        Err(RcpError::UnsupportedCmd)
    );
    assert!(!buf.is_in_progress());
}

// ── segment_num ordering ─────────────────────────────────────────────────

#[test]
fn accept_fragment_accepts_strictly_incrementing_zero_based_segment_nums() {
    let mut buf = FragmentReassemblyBuffer::new(64);
    assert_eq!(
        buf.accept_fragment(&fragment_info(true, 0), b"a"),
        Ok(FragmentAcceptOutcome::Continuing)
    );
    assert_eq!(
        buf.accept_fragment(&fragment_info(true, 1), b"b"),
        Ok(FragmentAcceptOutcome::Continuing)
    );
    assert_eq!(
        buf.accept_fragment(&fragment_info(false, 2), b"c"),
        Ok(FragmentAcceptOutcome::Complete)
    );
    assert_eq!(
        buf.combined_payload(),
        CombinedFragmentPayload::assemble(&[b"a", b"b", b"c"])
    );
}

#[test]
fn accept_fragment_rejects_gap_in_segment_num() {
    let mut buf = FragmentReassemblyBuffer::new(64);
    buf.accept_fragment(&fragment_info(true, 0), b"a").unwrap();
    assert_eq!(
        buf.accept_fragment(&fragment_info(true, 2), b"c"),
        Err(RcpError::InvalidParameter)
    );
}

#[test]
fn accept_fragment_rejects_duplicate_segment_num() {
    let mut buf = FragmentReassemblyBuffer::new(64);
    buf.accept_fragment(&fragment_info(true, 0), b"a").unwrap();
    assert_eq!(
        buf.accept_fragment(&fragment_info(true, 0), b"a-again"),
        Err(RcpError::InvalidParameter)
    );
}

#[test]
fn accept_fragment_rejects_out_of_order_segment_num() {
    let mut buf = FragmentReassemblyBuffer::new(64);
    buf.accept_fragment(&fragment_info(true, 0), b"a").unwrap();
    buf.accept_fragment(&fragment_info(true, 1), b"b").unwrap();
    assert_eq!(
        buf.accept_fragment(&fragment_info(false, 0), b"replay"),
        Err(RcpError::InvalidParameter)
    );
}

#[test]
fn accept_fragment_first_call_must_start_at_segment_num_zero() {
    let mut buf = FragmentReassemblyBuffer::new(64);
    assert_eq!(
        buf.accept_fragment(&fragment_info(true, 1), b"a"),
        Err(RcpError::InvalidParameter)
    );
}

#[test]
fn rejected_fragment_does_not_mutate_buffer_state() {
    let mut buf = FragmentReassemblyBuffer::new(64);
    buf.accept_fragment(&fragment_info(true, 0), b"a").unwrap();
    let before = buf.clone();
    let _ = buf.accept_fragment(&fragment_info(true, 5), b"bad");
    assert_eq!(buf, before);
}

// ── rx_stream_max_request_size bound ─────────────────────────────────────

#[test]
fn accept_fragment_rejects_when_combined_length_exceeds_bound() {
    let mut buf = FragmentReassemblyBuffer::new(3);
    buf.accept_fragment(&fragment_info(true, 0), b"ab").unwrap();
    assert_eq!(
        buf.accept_fragment(&fragment_info(false, 1), b"cd"),
        Err(RcpError::PayloadTooLarge)
    );
}

#[test]
fn accept_fragment_accepts_combined_length_exactly_at_bound() {
    let mut buf = FragmentReassemblyBuffer::new(4);
    buf.accept_fragment(&fragment_info(true, 0), b"ab").unwrap();
    assert_eq!(
        buf.accept_fragment(&fragment_info(false, 1), b"cd"),
        Ok(FragmentAcceptOutcome::Complete)
    );
}

#[test]
fn overflowing_fragment_does_not_mutate_buffer_state() {
    let mut buf = FragmentReassemblyBuffer::new(2);
    buf.accept_fragment(&fragment_info(true, 0), b"ab").unwrap();
    let before = buf.clone();
    let _ = buf.accept_fragment(&fragment_info(false, 1), b"too-big");
    assert_eq!(buf, before);
}

// ── Continuing / Complete / combined payload ─────────────────────────────

#[test]
fn single_fragment_train_completes_immediately() {
    let mut buf = FragmentReassemblyBuffer::new(64);
    assert_eq!(
        buf.accept_fragment(&fragment_info(false, 0), b"solo"),
        Ok(FragmentAcceptOutcome::Complete)
    );
    assert_eq!(
        buf.combined_payload(),
        CombinedFragmentPayload::assemble(&[b"solo"])
    );
}

#[test]
fn combined_payload_matches_e2e_combined_fragment_payload_assemble() {
    let mut buf = FragmentReassemblyBuffer::new(64);
    let segments: [&[u8]; 3] = [b"seg-one-", b"seg-two-", b"seg-three"];
    for (i, seg) in segments.iter().enumerate() {
        let ms = i + 1 != segments.len();
        buf.accept_fragment(&fragment_info(ms, i as u8), seg)
            .unwrap();
    }
    assert_eq!(
        buf.combined_payload(),
        CombinedFragmentPayload::assemble(&segments)
    );
}

// ── reset ─────────────────────────────────────────────────────────────────

#[test]
fn reset_clears_state_for_a_new_train() {
    let mut buf = FragmentReassemblyBuffer::new(64);
    buf.accept_fragment(&fragment_info(false, 0), b"first-train")
        .unwrap();
    buf.reset();
    assert!(!buf.is_in_progress());
    assert_eq!(
        buf.accept_fragment(&fragment_info(false, 0), b"second-train"),
        Ok(FragmentAcceptOutcome::Complete)
    );
    assert_eq!(
        buf.combined_payload(),
        CombinedFragmentPayload::assemble(&[b"second-train"])
    );
}

#[test]
fn accepting_a_fragment_after_complete_without_reset_is_rejected() {
    let mut buf = FragmentReassemblyBuffer::new(64);
    buf.accept_fragment(&fragment_info(false, 0), b"done")
        .unwrap();
    // The completed train left next_expected_segment_num at 1; a
    // fresh train's first fragment (segment_num == 0) does not match,
    // so this is rejected until the caller calls `reset`.
    assert_eq!(
        buf.accept_fragment(&fragment_info(true, 0), b"new-train"),
        Err(RcpError::InvalidParameter)
    );
}

// ── never panics ──────────────────────────────────────────────────────────

#[test]
fn accept_fragment_never_panics_across_arbitrary_payload_lengths() {
    for len in [0usize, 1, 2, 3, 17, 64, 257] {
        let mut buf = FragmentReassemblyBuffer::new(u16::MAX);
        let payload: Vec<u8> = (0..len).map(|i| (i % 256) as u8).collect();
        let _ = buf.accept_fragment(&fragment_info(false, 0), &payload);
    }
}

#[test]
fn accept_fragment_never_panics_across_segment_num_wraparound() {
    let mut buf = FragmentReassemblyBuffer::new(u16::MAX);
    // 300 fragments is well past the 8-bit segment_num field's own
    // 256-value range, so `next_expected_segment_num` wraps mid-loop.
    // `segment_num` is derived the same wrapping way the buffer itself
    // derives its expectation, so every call stays in lockstep and
    // succeeds — the property under test is solely that wraparound
    // itself never panics.
    for expected in 0u16..300 {
        let segment_num = (expected % 256) as u8;
        let ms = expected + 1 != 300;
        let result = buf.accept_fragment(&fragment_info(ms, segment_num), b"x");
        assert!(result.is_ok());
    }
}

// ── verify_reassembled_train_crc ─────────────────────────────────────────

fn sample_final_fragment(acf_msg_length: u16) -> acf::AcfAbbMessage {
    acf::AcfAbbMessage {
        info: acf::ByteMessageInfo {
            acf_msg_length,
            ms: false,
            ..Default::default()
        },
        payload: b"ignored-final-fragment-payload".to_vec(),
    }
}

#[test]
fn verify_reassembled_train_crc_matches_manual_e2e_computation() {
    let mut buf = FragmentReassemblyBuffer::new(64);
    buf.accept_fragment(&fragment_info(true, 0), b"hello-")
        .unwrap();
    buf.accept_fragment(&fragment_info(false, 1), b"world")
        .unwrap();

    let header = HeaderVariant::Ntscf(avtp::NtscfHeader {
        stream_id: 0x0102_0304_0506_0708,
        ..Default::default()
    });
    let final_msg = sample_final_fragment(0);
    let final_fragment = AcfCoverageMessage::Abb(&final_msg);

    let got = verify_reassembled_train_crc(&buf, &header, &final_fragment, true).unwrap();
    let want =
        e2e::crc32_tc18_for_fragment_train(&header, &final_fragment, &[b"hello-", b"world"])
            .unwrap();
    assert_eq!(got, want);
}

#[test]
fn verify_reassembled_train_crc_rejects_missing_crc_on_completed_train() {
    let mut buf = FragmentReassemblyBuffer::new(64);
    buf.accept_fragment(&fragment_info(false, 0), b"solo")
        .unwrap();
    let header = HeaderVariant::Ntscf(avtp::NtscfHeader::default());
    let final_msg = sample_final_fragment(0);
    let final_fragment = AcfCoverageMessage::Abb(&final_msg);
    assert_eq!(
        verify_reassembled_train_crc(&buf, &header, &final_fragment, false),
        Err(RcpError::InvalidParameter)
    );
}

#[test]
fn verify_reassembled_train_crc_propagates_length_overflow_error() {
    let mut buf = FragmentReassemblyBuffer::new(64);
    buf.accept_fragment(&fragment_info(false, 0), b"x").unwrap();
    let header = HeaderVariant::Ntscf(avtp::NtscfHeader::default());
    let final_msg = sample_final_fragment(acf::BYTE_MESSAGE_INFO_11BIT_MAX);
    let final_fragment = AcfCoverageMessage::Abb(&final_msg);
    assert_eq!(
        verify_reassembled_train_crc(&buf, &header, &final_fragment, true),
        Err(RcpError::InvalidSize)
    );
}

#[test]
fn verify_reassembled_train_crc_on_empty_buffer_matches_empty_segments() {
    let buf = FragmentReassemblyBuffer::new(64);
    let header = HeaderVariant::Ntscf(avtp::NtscfHeader::default());
    let final_msg = sample_final_fragment(0);
    let final_fragment = AcfCoverageMessage::Abb(&final_msg);
    let got = verify_reassembled_train_crc(&buf, &header, &final_fragment, true).unwrap();
    let want = e2e::crc32_tc18_for_fragment_train(&header, &final_fragment, &[]).unwrap();
    assert_eq!(got, want);
}

#[test]
fn completed_train_is_no_longer_in_progress() {
    let mut buf = FragmentReassemblyBuffer::new(64);
    assert_eq!(
        buf.accept_fragment(&fragment_info(true, 0), b"first"),
        Ok(FragmentAcceptOutcome::Continuing)
    );
    assert!(buf.is_in_progress());
    assert_eq!(
        buf.accept_fragment(&fragment_info(false, 1), b"done"),
        Ok(FragmentAcceptOutcome::Complete)
    );
    assert!(!buf.is_in_progress());
}

#[test]
fn single_fragment_train_is_not_in_progress() {
    let mut buf = FragmentReassemblyBuffer::new(64);
    assert_eq!(
        buf.accept_fragment(&fragment_info(false, 0), b"done"),
        Ok(FragmentAcceptOutcome::Complete)
    );
    assert!(!buf.is_in_progress());
}
