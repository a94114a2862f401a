//! Remote Control Protocol (RCP): the OPEN Alliance TC18 Remote Control
//! Protocol's framing, CRC, addressing, lifecycle and endpoint-request logic,
//! with every operation stated and proved in Verus.
use vstd::prelude::*;

pub mod acf;
pub mod addressing;
pub mod avtp;
pub mod e2e;
pub mod ep0;
pub mod evtgroup;
pub mod faultinject;
pub mod formal;
pub mod fragment;
pub mod gpio;
pub mod i2c;
pub mod iseled;
pub mod iso21434;
pub mod l2;
pub mod lifecycle;
pub mod lin;
pub mod loan;
pub mod mdio;
pub mod mdns;
pub mod mock;
pub mod observe;
pub mod powerstate;
pub mod regmap;
pub mod request;
mod wire;

verus! {

/// RELAY specification version this crate implements.
pub const SPEC_VERSION: &'static str = "1.11";

/// Alias for [`SPEC_VERSION`], exported from the crate root.
pub const RELAY_SPEC_VERSION: &'static str = SPEC_VERSION;

/// All errors produced by this crate.
///
/// Sentinel relationships:
/// - `NotFound` and `ZoneMismatch` count as "not connected";
/// - `Busy` counts as a timeout.
///
/// `UnsupportedCmd` through `InvalidParameter` are the eleven TC18 RCP error
/// codes ([`RcpError::is_tc18_error_code`]).
#[derive(Debug, Clone, PartialEq, Eq)]
pub enum RcpError {
    Closed,
    NotConnected,
    Timeout,
    PayloadTooLarge,
    NotFound,
    AlreadyExists,
    Busy,
    ZoneMismatch,
    ShortFrame,
    UnsupportedCmd,
    SequencerNotKnown,
    UnauthorizedAccess,
    LockedMemAccess,
    RequestCanceled,
    RequestNotFound,
    EpError,
    EpNotFound,
    ReqStorageOvfl,
    RequestRejected,
    InvalidParameter,
    ChainAborted,
    ChainError,
    CrcError,
    /// A configuration-write request (EVT row-2 `111b`) that the addressed
    /// endpoint type recognises but does not carry out.
    ConfigWriteNotImplemented,
    InvalidSize,
    Other(String),
}

/// The RELAY "closed" group.
pub open spec fn is_relay_closed_spec(e: RcpError) -> bool {
    e is Closed
}

/// The RELAY "not connected" group: `NotConnected`, `NotFound`, `ZoneMismatch`.
pub open spec fn is_relay_not_connected_spec(e: RcpError) -> bool {
    e is NotConnected || e is NotFound || e is ZoneMismatch
}

/// The RELAY "timeout" group: `Timeout`, `Busy`.
pub open spec fn is_relay_timeout_spec(e: RcpError) -> bool {
    e is Timeout || e is Busy
}

/// The eleven TC18 RCP spec error codes.
pub open spec fn is_tc18_error_code_spec(e: RcpError) -> bool {
    ||| e is UnsupportedCmd
    ||| e is SequencerNotKnown
    ||| e is UnauthorizedAccess
    ||| e is LockedMemAccess
    ||| e is RequestCanceled
    ||| e is RequestNotFound
    ||| e is EpError
    ||| e is EpNotFound
    ||| e is ReqStorageOvfl
    ||| e is RequestRejected
    ||| e is InvalidParameter
}

/// The fixed message text of each error; `Other(s)` reads `"rcp: "` then `s`.
pub open spec fn error_message(e: RcpError) -> Seq<char> {
    match e {
        RcpError::Closed => "rcp: controller closed"@,
        RcpError::NotConnected => "rcp: not connected"@,
        RcpError::Timeout => "rcp: command timeout"@,
        RcpError::PayloadTooLarge => "rcp: payload too large"@,
        RcpError::NotFound => "rcp: zone not found"@,
        RcpError::AlreadyExists => "rcp: zone already registered"@,
        RcpError::Busy => "rcp: zone controller busy"@,
        RcpError::ZoneMismatch => "rcp: zone mismatch"@,
        RcpError::ShortFrame => "rcp/wire: frame too short"@,
        RcpError::UnsupportedCmd => "rcp/error: UNSUPPORTED_CMD — command or protocol feature not supported by this RC Server"@,
        RcpError::SequencerNotKnown => "rcp/error: SEQUENCER_NOT_KNOWN — referenced sequencer is not known to this RC Server"@,
        RcpError::UnauthorizedAccess => "rcp/error: UNAUTHORIZED_ACCESS — access not authorized by the RC Server's current lifecycle state or the requesting stream's privileges"@,
        RcpError::LockedMemAccess => "rcp/error: LOCKED_MEM_ACCESS — target register is reachable but locked against writes"@,
        RcpError::RequestCanceled => "rcp/error: REQUEST_CANCELED — request was canceled before completion"@,
        RcpError::RequestNotFound => "rcp/error: REQUEST_NOT_FOUND — referenced request id is not known to this RC Server"@,
        RcpError::EpError => "rcp/error: EP_ERROR — endpoint-level error"@,
        RcpError::EpNotFound => "rcp/error: EP_NOT_FOUND — referenced endpoint is not known to this RC Server"@,
        RcpError::ReqStorageOvfl => "rcp/error: REQ_STORAGE_OVFL — request storage capacity exceeded"@,
        RcpError::RequestRejected => "rcp/error: REQUEST_REJECTED — request rejected"@,
        RcpError::InvalidParameter => "rcp/error: INVALID_PARAMETER — one or more supplied parameter values is invalid"@,
        RcpError::ChainAborted => "rcp/error: CHAIN_ABORTED — chained request link skipped because a preceding link in the same chain errored"@,
        RcpError::ChainError => "rcp/error: CHAIN_ERROR — chained request link's own execution failed"@,
        RcpError::CrcError => "rcp/error: CRC_ERROR — end-to-end CRC-32 safe-point verification failed"@,
        RcpError::ConfigWriteNotImplemented => "rcp/error: config write not implemented for this endpoint type"@,
        RcpError::InvalidSize => "rcp: invalid size"@,
        RcpError::Other(s) => "rcp: "@ + s@,
    }
}

impl RcpError {
    /// True for the `Closed` sentinel.
    pub fn is_relay_closed(&self) -> (r: bool)
        ensures
            r == is_relay_closed_spec(*self),
    {
        matches!(self, RcpError::Closed)
    }

    /// True for `NotConnected`, `NotFound`, and `ZoneMismatch`.
    pub fn is_relay_not_connected(&self) -> (r: bool)
        ensures
            r == is_relay_not_connected_spec(*self),
    {
        match self {
            RcpError::NotConnected | RcpError::NotFound | RcpError::ZoneMismatch => true,
            _ => false,
        }
    }

    /// True for `Timeout` and `Busy`.
    pub fn is_relay_timeout(&self) -> (r: bool)
        ensures
            r == is_relay_timeout_spec(*self),
    {
        match self {
            RcpError::Timeout | RcpError::Busy => true,
            _ => false,
        }
    }

    /// True for the `PayloadTooLarge` sentinel.
    pub fn is_relay_payload_too_large(&self) -> (r: bool)
        ensures
            r == (*self is PayloadTooLarge),
    {
        matches!(self, RcpError::PayloadTooLarge)
    }

    /// True for `AlreadyExists` (a standalone sentinel).
    pub fn is_already_exists(&self) -> (r: bool)
        ensures
            r == (*self is AlreadyExists),
    {
        matches!(self, RcpError::AlreadyExists)
    }

    /// True for the `ZoneMismatch` sentinel.
    pub fn is_zone_mismatch(&self) -> (r: bool)
        ensures
            r == (*self is ZoneMismatch),
    {
        matches!(self, RcpError::ZoneMismatch)
    }

    /// True for any of the eleven TC18 RCP spec error codes.
    pub fn is_tc18_error_code(&self) -> (r: bool)
        ensures
            r == is_tc18_error_code_spec(*self),
    {
        match self {
            RcpError::UnsupportedCmd
            | RcpError::SequencerNotKnown
            | RcpError::UnauthorizedAccess
            | RcpError::LockedMemAccess
            | RcpError::RequestCanceled
            | RcpError::RequestNotFound
            | RcpError::EpError
            | RcpError::EpNotFound
            | RcpError::ReqStorageOvfl
            | RcpError::RequestRejected
            | RcpError::InvalidParameter => true,
            _ => false,
        }
    }

    /// The human-readable message of this error.
    pub fn message(&self) -> (r: String)
        ensures
            r@ == error_message(*self),
    {
        match self {
            RcpError::Closed => String::from_str("rcp: controller closed"),
            RcpError::NotConnected => String::from_str("rcp: not connected"),
            RcpError::Timeout => String::from_str("rcp: command timeout"),
            RcpError::PayloadTooLarge => String::from_str("rcp: payload too large"),
            RcpError::NotFound => String::from_str("rcp: zone not found"),
            RcpError::AlreadyExists => String::from_str("rcp: zone already registered"),
            RcpError::Busy => String::from_str("rcp: zone controller busy"),
            RcpError::ZoneMismatch => String::from_str("rcp: zone mismatch"),
            RcpError::ShortFrame => String::from_str("rcp/wire: frame too short"),
            RcpError::UnsupportedCmd => String::from_str("rcp/error: UNSUPPORTED_CMD — command or protocol feature not supported by this RC Server"),
            RcpError::SequencerNotKnown => String::from_str("rcp/error: SEQUENCER_NOT_KNOWN — referenced sequencer is not known to this RC Server"),
            RcpError::UnauthorizedAccess => String::from_str("rcp/error: UNAUTHORIZED_ACCESS — access not authorized by the RC Server's current lifecycle state or the requesting stream's privileges"),
            RcpError::LockedMemAccess => String::from_str("rcp/error: LOCKED_MEM_ACCESS — target register is reachable but locked against writes"),
            RcpError::RequestCanceled => String::from_str("rcp/error: REQUEST_CANCELED — request was canceled before completion"),
            RcpError::RequestNotFound => String::from_str("rcp/error: REQUEST_NOT_FOUND — referenced request id is not known to this RC Server"),
            RcpError::EpError => String::from_str("rcp/error: EP_ERROR — endpoint-level error"),
            RcpError::EpNotFound => String::from_str("rcp/error: EP_NOT_FOUND — referenced endpoint is not known to this RC Server"),
            RcpError::ReqStorageOvfl => String::from_str("rcp/error: REQ_STORAGE_OVFL — request storage capacity exceeded"),
            RcpError::RequestRejected => String::from_str("rcp/error: REQUEST_REJECTED — request rejected"),
            RcpError::InvalidParameter => String::from_str("rcp/error: INVALID_PARAMETER — one or more supplied parameter values is invalid"),
            RcpError::ChainAborted => String::from_str("rcp/error: CHAIN_ABORTED — chained request link skipped because a preceding link in the same chain errored"),
            RcpError::ChainError => String::from_str("rcp/error: CHAIN_ERROR — chained request link's own execution failed"),
            RcpError::CrcError => String::from_str("rcp/error: CRC_ERROR — end-to-end CRC-32 safe-point verification failed"),
            RcpError::ConfigWriteNotImplemented => String::from_str("rcp/error: config write not implemented for this endpoint type"),
            RcpError::InvalidSize => String::from_str("rcp: invalid size"),
            RcpError::Other(s) => {
                let prefix = String::from_str("rcp: ");
                prefix.concat(s.as_str())
            },
        }
    }

    /// An equal copy of this error.
    pub fn duplicate(&self) -> (r: RcpError)
        ensures
            r == *self,
    {
        match self {
            RcpError::Closed => RcpError::Closed,
            RcpError::NotConnected => RcpError::NotConnected,
            RcpError::Timeout => RcpError::Timeout,
            RcpError::PayloadTooLarge => RcpError::PayloadTooLarge,
            RcpError::NotFound => RcpError::NotFound,
            RcpError::AlreadyExists => RcpError::AlreadyExists,
            RcpError::Busy => RcpError::Busy,
            RcpError::ZoneMismatch => RcpError::ZoneMismatch,
            RcpError::ShortFrame => RcpError::ShortFrame,
            RcpError::UnsupportedCmd => RcpError::UnsupportedCmd,
            RcpError::SequencerNotKnown => RcpError::SequencerNotKnown,
            RcpError::UnauthorizedAccess => RcpError::UnauthorizedAccess,
            RcpError::LockedMemAccess => RcpError::LockedMemAccess,
            RcpError::RequestCanceled => RcpError::RequestCanceled,
            RcpError::RequestNotFound => RcpError::RequestNotFound,
            RcpError::EpError => RcpError::EpError,
            RcpError::EpNotFound => RcpError::EpNotFound,
            RcpError::ReqStorageOvfl => RcpError::ReqStorageOvfl,
            RcpError::RequestRejected => RcpError::RequestRejected,
            RcpError::InvalidParameter => RcpError::InvalidParameter,
            RcpError::ChainAborted => RcpError::ChainAborted,
            RcpError::ChainError => RcpError::ChainError,
            RcpError::CrcError => RcpError::CrcError,
            RcpError::ConfigWriteNotImplemented => RcpError::ConfigWriteNotImplemented,
            RcpError::InvalidSize => RcpError::InvalidSize,
            RcpError::Other(s) => RcpError::Other(s.clone()),
        }
    }
}

/// No TC18 error code is also one of the RELAY sentinels (closed, not
/// connected, timeout, payload too large, already exists).
pub proof fn lemma_tc18_codes_disjoint_from_relay_sentinels(e: RcpError)
    requires
        is_tc18_error_code_spec(e),
    ensures
        !is_relay_closed_spec(e),
        !is_relay_not_connected_spec(e),
        !is_relay_timeout_spec(e),
        !(e is PayloadTooLarge),
        !(e is AlreadyExists),
{
}

/// `AlreadyExists` is standalone: it belongs to none of the closed,
/// not-connected or timeout groups.
pub proof fn lemma_already_exists_is_standalone(e: RcpError)
    requires
        e is AlreadyExists,
    ensures
        !is_relay_closed_spec(e),
        !is_relay_not_connected_spec(e),
        !is_relay_timeout_spec(e),
{
}

/// The three RELAY groups (closed, not connected, timeout) never overlap.
pub proof fn lemma_relay_groups_disjoint(e: RcpError)
    ensures
        !(is_relay_closed_spec(e) && is_relay_not_connected_spec(e)),
        !(is_relay_closed_spec(e) && is_relay_timeout_spec(e)),
        !(is_relay_not_connected_spec(e) && is_relay_timeout_spec(e)),
{
}

} // verus!
