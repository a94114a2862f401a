//! LIN endpoints: frame transfers (protected identifier then at most eight
//! data octets), their results, and the request decode keyed on
//! `evt.sub_opcode`.
use vstd::prelude::*;

use crate::evtgroup::{evt_row2_kind, evt_row2_kind_of, EvtRow2Kind};
use crate::regmap::{EndpointType, PerEpTypeFunctionalConfig};
use crate::wire::{copy_range, push_all};
use crate::RcpError;

verus! {

/// Largest number of data octets in a LIN frame.
pub const LIN_MAX_DATA: usize = 8;

/// A LIN frame transfer: protected identifier and data.
#[derive(Debug, Clone, PartialEq, Eq, Default)]
pub struct LinFrameTransfer {
    pub pid: u8,
    pub data: Vec<u8>,
}

impl LinFrameTransfer {
    /// The protected identifier followed by the data.
    pub fn encode(&self) -> (r: Vec<u8>)
        ensures
            r@ == seq![self.pid] + self.data@,
    {
        let mut out: Vec<u8> = Vec::new();
        out.push(self.pid);
        push_all(&mut out, self.data.as_slice());
        out
    }

    /// Splits `b` into the protected identifier and the data. Fails with
    /// `ShortFrame` on empty input and `PayloadTooLarge` above eight data
    /// octets.
    pub fn decode(b: &[u8]) -> (r: Result<LinFrameTransfer, RcpError>)
        ensures
            match r {
                Ok(t) => 1 <= b@.len() <= 9 && t.pid == b@[0] && t.data@ == b@.subrange(
                    1,
                    b@.len() as int,
                ),
                Err(e) => if b@.len() == 0 {
                    e == RcpError::ShortFrame
                } else {
                    b@.len() > 9 && e == RcpError::PayloadTooLarge
                },
            },
    {
        if b.len() == 0 {
            return Err(RcpError::ShortFrame);
        }
        if b.len() - 1 > LIN_MAX_DATA {
            return Err(RcpError::PayloadTooLarge);
        }
        Ok(LinFrameTransfer { pid: b[0], data: copy_range(b, 1, b.len()) })
    }
}

/// Decoding an encoded transfer with at most eight data octets gives it back.
pub proof fn lemma_lin_frame_roundtrip(pid: u8, data: Seq<u8>)
    requires
        data.len() <= 8,
    ensures
        (seq![pid] + data).len() >= 1,
        (seq![pid] + data)[0] == pid,
        (seq![pid] + data).subrange(1, (seq![pid] + data).len() as int) == data,
{
    assert((seq![pid] + data).subrange(1, (seq![pid] + data).len() as int) =~= data);
}

/// The result of a LIN frame transfer: at most eight data octets.
#[derive(Debug, Clone, PartialEq, Eq, Default)]
pub struct LinFrameTransferResult {
    pub data: Vec<u8>,
}

impl LinFrameTransferResult {
    /// The data, verbatim.
    pub fn encode(&self) -> (r: Vec<u8>)
        ensures
            r@ == self.data@,
    {
        copy_range(self.data.as_slice(), 0, self.data.len())
    }

    /// The result carrying `b`; `PayloadTooLarge` above eight octets.
    pub fn decode(b: &[u8]) -> (r: Result<LinFrameTransferResult, RcpError>)
        ensures
            match r {
                Ok(t) => b@.len() <= 8 && t.data@ == b@,
                Err(e) => b@.len() > 8 && e == RcpError::PayloadTooLarge,
            },
    {
        if b.len() > LIN_MAX_DATA {
            return Err(RcpError::PayloadTooLarge);
        }
        Ok(LinFrameTransferResult { data: copy_range(b, 0, b.len()) })
    }
}

/// LIN-specific functional configuration (no fields yet).
#[derive(Debug, Clone, Copy, PartialEq, Eq, Default)]
pub struct LinFunctionalConfig;

impl LinFunctionalConfig {
    /// The register-map tag of this configuration: endpoint type LIN.
    pub fn layer_tag(&self) -> (r: PerEpTypeFunctionalConfig)
        ensures
            r.ep_type == EndpointType::Lin,
    {
        PerEpTypeFunctionalConfig::new(EndpointType::Lin)
    }
}

/// A decoded LIN request.
#[derive(Debug, Clone, PartialEq, Eq)]
pub enum LinRequest {
    /// `evt.sub_opcode` 0: a frame transfer.
    Plain(LinFrameTransfer),
    /// `evt.sub_opcode` 7: a configuration write (payload not interpreted).
    ConfigWrite,
}

impl LinRequest {
    /// Decodes a request: sub-opcode 0 decodes `payload` as a frame transfer
    /// (and fails as that decode does), 7 is a configuration write, anything
    /// else fails with `UnsupportedCmd`.
    pub fn from_evt_sub_opcode(sub_opcode: u8, payload: &[u8]) -> (r: Result<LinRequest, RcpError>)
        ensures
            match evt_row2_kind(sub_opcode) {
                EvtRow2Kind::Plain => match r {
                    Ok(LinRequest::Plain(t)) => 1 <= payload@.len() <= 9 && t.pid == payload@[0]
                        && t.data@ == payload@.subrange(1, payload@.len() as int),
                    Ok(LinRequest::ConfigWrite) => false,
                    Err(e) => if payload@.len() == 0 {
                        e == RcpError::ShortFrame
                    } else {
                        payload@.len() > 9 && e == RcpError::PayloadTooLarge
                    },
                },
                EvtRow2Kind::ConfigWrite => r matches Ok(LinRequest::ConfigWrite),
                EvtRow2Kind::Reserved => r == Err::<LinRequest, RcpError>(RcpError::UnsupportedCmd),
            },
    {
        match evt_row2_kind_of(sub_opcode) {
            EvtRow2Kind::Plain => Ok(LinRequest::Plain(LinFrameTransfer::decode(payload)?)),
            EvtRow2Kind::ConfigWrite => Ok(LinRequest::ConfigWrite),
            EvtRow2Kind::Reserved => Err(RcpError::UnsupportedCmd),
        }
    }
}

} // verus!
