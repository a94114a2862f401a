use rcp::{RcpError, RELAY_SPEC_VERSION, SPEC_VERSION};



// ── Error sentinels ───────────────────────────────────────────────────────

#[test]
fn err_closed_is_distinct() {
    // Non-nil equivalent: it's a valid discriminant value
    let e = RcpError::Closed;
    assert!(e.is_relay_closed());
}

#[test]
fn err_not_found_is_distinct() {
    let e = RcpError::NotFound;
    assert!(e.is_relay_not_connected());
}

#[test]
fn err_already_exists_is_distinct() {
    let e = RcpError::AlreadyExists;
    assert!(e.is_already_exists());
}

#[test]
fn err_timeout_is_distinct() {
    let e = RcpError::Timeout;
    assert!(e.is_relay_timeout());
}

#[test]
fn err_busy_is_distinct() {
    let e = RcpError::Busy;
    assert!(e.is_relay_timeout());
}

#[test]
fn all_sentinels_are_mutually_distinct() {
    let sentinels = [
        RcpError::Closed,
        RcpError::NotFound,
        RcpError::AlreadyExists,
        RcpError::Timeout,
        RcpError::Busy,
    ];
    for i in 0..sentinels.len() {
        for j in (i + 1)..sentinels.len() {
            assert_ne!(sentinels[i], sentinels[j], "sentinels must be distinct");
        }
    }
}

#[test]
fn err_closed_is_relay_closed() {
    assert!(RcpError::Closed.is_relay_closed());
    assert!(!RcpError::Timeout.is_relay_closed());
    assert!(!RcpError::NotFound.is_relay_closed());
}

#[test]
fn err_not_found_and_zone_mismatch_are_relay_not_connected() {
    assert!(RcpError::NotConnected.is_relay_not_connected());
    assert!(RcpError::NotFound.is_relay_not_connected());
    assert!(RcpError::ZoneMismatch.is_relay_not_connected());
    assert!(!RcpError::Closed.is_relay_not_connected());
    assert!(!RcpError::Timeout.is_relay_not_connected());
}

#[test]
fn err_already_exists_is_standalone() {
    assert!(RcpError::AlreadyExists.is_already_exists());
    assert!(!RcpError::AlreadyExists.is_relay_closed());
    assert!(!RcpError::AlreadyExists.is_relay_timeout());
    assert!(!RcpError::AlreadyExists.is_relay_not_connected());
}

#[test]
fn err_busy_wraps_timeout() {
    assert!(RcpError::Busy.is_relay_timeout());
    assert!(RcpError::Timeout.is_relay_timeout());
    assert!(!RcpError::Busy.is_relay_closed());
}

#[test]
fn err_zone_mismatch_is_distinct() {
    let e = RcpError::ZoneMismatch;
    assert!(e.is_zone_mismatch());
    assert!(e.is_relay_not_connected());
    assert!(!e.is_relay_closed());
    assert!(!e.is_relay_timeout());
    assert!(!e.is_already_exists());
}

#[test]
fn err_not_connected_is_relay_not_connected() {
    assert!(RcpError::NotConnected.is_relay_not_connected());
}

#[test]
fn err_payload_too_large_is_relay_payload_too_large() {
    assert!(RcpError::PayloadTooLarge.is_relay_payload_too_large());
    assert!(!RcpError::Closed.is_relay_payload_too_large());
}

#[test]
fn err_timeout_is_relay_timeout() {
    assert!(RcpError::Timeout.is_relay_timeout());
}

// ── TC18 RCP spec error codes (Milestone 2 "Error Model") ────────────────

#[test]
fn err_unsupported_cmd_is_tc18_error_code() {
    assert!(RcpError::UnsupportedCmd.is_tc18_error_code());
}

#[test]
fn err_sequencer_not_known_is_tc18_error_code() {
    assert!(RcpError::SequencerNotKnown.is_tc18_error_code());
}

#[test]
fn err_unauthorized_access_is_tc18_error_code() {
    assert!(RcpError::UnauthorizedAccess.is_tc18_error_code());
}

#[test]
fn err_locked_mem_access_is_tc18_error_code() {
    assert!(RcpError::LockedMemAccess.is_tc18_error_code());
}

#[test]
fn err_request_canceled_is_tc18_error_code() {
    assert!(RcpError::RequestCanceled.is_tc18_error_code());
}

#[test]
fn err_request_not_found_is_tc18_error_code() {
    assert!(RcpError::RequestNotFound.is_tc18_error_code());
}

#[test]
fn err_ep_error_is_tc18_error_code() {
    assert!(RcpError::EpError.is_tc18_error_code());
}

#[test]
fn err_ep_not_found_is_tc18_error_code() {
    assert!(RcpError::EpNotFound.is_tc18_error_code());
}

#[test]
fn err_req_storage_ovfl_is_tc18_error_code() {
    assert!(RcpError::ReqStorageOvfl.is_tc18_error_code());
}

#[test]
fn err_request_rejected_is_tc18_error_code() {
    assert!(RcpError::RequestRejected.is_tc18_error_code());
}

#[test]
fn err_invalid_parameter_is_tc18_error_code() {
    assert!(RcpError::InvalidParameter.is_tc18_error_code());
}

#[test]
fn tc18_error_codes_are_mutually_distinct_and_exclusive() {
    let codes = [
        RcpError::UnsupportedCmd,
        RcpError::SequencerNotKnown,
        RcpError::UnauthorizedAccess,
        RcpError::LockedMemAccess,
        RcpError::RequestCanceled,
        RcpError::RequestNotFound,
        RcpError::EpError,
        RcpError::EpNotFound,
        RcpError::ReqStorageOvfl,
        RcpError::RequestRejected,
        RcpError::InvalidParameter,
    ];
    for i in 0..codes.len() {
        assert!(codes[i].is_tc18_error_code());
        for j in (i + 1)..codes.len() {
            assert_ne!(codes[i], codes[j], "TC18 error codes must be distinct");
        }
    }
    // None of the legacy/RELAY/wire sentinels are TC18 error codes.
    assert!(!RcpError::Closed.is_tc18_error_code());
    assert!(!RcpError::NotFound.is_tc18_error_code());
    assert!(!RcpError::ShortFrame.is_tc18_error_code());
    assert!(!RcpError::InvalidSize.is_tc18_error_code());
    assert!(!RcpError::Other("x".into()).is_tc18_error_code());
}

#[test]
fn tc18_error_code_messages_carry_spec_name() {
    assert!(RcpError::UnsupportedCmd
        .message()
        .contains("UNSUPPORTED_CMD"));
    assert!(RcpError::SequencerNotKnown
        .message()
        .contains("SEQUENCER_NOT_KNOWN"));
    assert!(RcpError::UnauthorizedAccess
        .message()
        .contains("UNAUTHORIZED_ACCESS"));
    assert!(RcpError::LockedMemAccess
        .message()
        .contains("LOCKED_MEM_ACCESS"));
    assert!(RcpError::RequestCanceled
        .message()
        .contains("REQUEST_CANCELED"));
    assert!(RcpError::RequestNotFound
        .message()
        .contains("REQUEST_NOT_FOUND"));
    assert!(RcpError::EpError.message().contains("EP_ERROR"));
    assert!(RcpError::EpNotFound.message().contains("EP_NOT_FOUND"));
    assert!(RcpError::ReqStorageOvfl
        .message()
        .contains("REQ_STORAGE_OVFL"));
    assert!(RcpError::RequestRejected
        .message()
        .contains("REQUEST_REJECTED"));
    assert!(RcpError::InvalidParameter
        .message()
        .contains("INVALID_PARAMETER"));
}

// ── Spec version ──────────────────────────────────────────────────────────

#[test]
fn spec_version_nonempty() {
    assert!(!SPEC_VERSION.is_empty());
}

#[test]
fn relay_spec_version_is_exported_and_matches_spec_version() {
    assert!(!RELAY_SPEC_VERSION.is_empty());
    assert_eq!(RELAY_SPEC_VERSION, SPEC_VERSION);
}
