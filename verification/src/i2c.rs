//! I2C endpoints: the speed-mode field, the byte-transparent transfer
//! payloads, and the request decode keyed on `evt.sub_opcode`.
use vstd::prelude::*;

use crate::evtgroup::{evt_row2_kind, evt_row2_kind_of, EvtRow2Kind};
use crate::regmap::{EndpointType, PerEpTypeFunctionalConfig};
use crate::wire::copy_range;
use crate::RcpError;

verus! {

/// I2C bus speed mode.
#[derive(Debug, Clone, Copy, PartialEq, Eq, Structural)]
pub enum I2cSpeedMode {
    /// 0: Standard-mode.
    Standard,
    /// 1: Fast-mode.
    Fast,
    /// 2: Fast-mode Plus.
    FastPlus,
    /// 3: a High-speed row whose exact rate is not resolved.
    HighSpeedRowA,
    /// 4: the other High-speed row whose exact rate is not resolved.
    HighSpeedRowB,
}

pub open spec fn speed_mode_byte(m: I2cSpeedMode) -> u8 {
    match m {
        I2cSpeedMode::Standard => 0,
        I2cSpeedMode::Fast => 1,
        I2cSpeedMode::FastPlus => 2,
        I2cSpeedMode::HighSpeedRowA => 3,
        I2cSpeedMode::HighSpeedRowB => 4,
    }
}

impl I2cSpeedMode {
    /// The mode's wire value.
    pub fn to_u8(self) -> (r: u8)
        ensures
            r == speed_mode_byte(self),
    {
        match self {
            I2cSpeedMode::Standard => 0,
            I2cSpeedMode::Fast => 1,
            I2cSpeedMode::FastPlus => 2,
            I2cSpeedMode::HighSpeedRowA => 3,
            I2cSpeedMode::HighSpeedRowB => 4,
        }
    }

    /// The mode of a wire value; `InvalidParameter` above 4.
    pub fn from_u8(raw: u8) -> (r: Result<I2cSpeedMode, RcpError>)
        ensures
            match r {
                Ok(m) => speed_mode_byte(m) == raw,
                Err(e) => raw > 4 && e == RcpError::InvalidParameter,
            },
    {
        match raw {
            0 => Ok(I2cSpeedMode::Standard),
            1 => Ok(I2cSpeedMode::Fast),
            2 => Ok(I2cSpeedMode::FastPlus),
            3 => Ok(I2cSpeedMode::HighSpeedRowA),
            4 => Ok(I2cSpeedMode::HighSpeedRowB),
            _ => Err(RcpError::InvalidParameter),
        }
    }

    /// True for the two High-speed rows.
    pub fn is_ambiguous_high_speed_row(self) -> (r: bool)
        ensures
            r == (self == I2cSpeedMode::HighSpeedRowA || self == I2cSpeedMode::HighSpeedRowB),
    {
        match self {
            I2cSpeedMode::HighSpeedRowA | I2cSpeedMode::HighSpeedRowB => true,
            _ => false,
        }
    }
}

impl Default for I2cSpeedMode {
    /// Standard-mode.
    fn default() -> (r: I2cSpeedMode)
        ensures
            r == I2cSpeedMode::Standard,
    {
        I2cSpeedMode::Standard
    }
}

/// The wire values of the five modes are exactly 0..=4, one each.
pub proof fn lemma_speed_mode_byte_bijective(m: I2cSpeedMode, n: I2cSpeedMode)
    ensures
        speed_mode_byte(m) <= 4,
        speed_mode_byte(m) == speed_mode_byte(n) ==> m == n,
{
}

/// I2C-specific functional configuration.
#[derive(Debug, Clone, Copy, PartialEq, Eq)]
pub struct I2cFunctionalConfig {
    pub speed_mode: I2cSpeedMode,
}

impl Default for I2cFunctionalConfig {
    /// The default speed mode.
    fn default() -> (r: I2cFunctionalConfig)
        ensures
            r.speed_mode == I2cSpeedMode::Standard,
    {
        I2cFunctionalConfig { speed_mode: I2cSpeedMode::Standard }
    }
}

impl I2cFunctionalConfig {
    /// The register-map tag of this configuration: endpoint type I2C.
    pub fn layer_tag(&self) -> (r: PerEpTypeFunctionalConfig)
        ensures
            r.ep_type == EndpointType::I2c,
    {
        PerEpTypeFunctionalConfig::new(EndpointType::I2c)
    }
}

/// A byte transfer: the payload carried verbatim (7- and 10-bit addressing
/// alike live inside the bytes).
#[derive(Debug, Clone, PartialEq, Eq, Default)]
pub struct I2cByteTransfer {
    pub bytes: Vec<u8>,
}

impl I2cByteTransfer {
    /// The payload, verbatim.
    pub fn encode(&self) -> (r: Vec<u8>)
        ensures
            r@ == self.bytes@,
    {
        copy_range(self.bytes.as_slice(), 0, self.bytes.len())
    }

    /// The transfer carrying `b` verbatim.
    pub fn decode(b: &[u8]) -> (r: I2cByteTransfer)
        ensures
            r.bytes@ == b@,
    {
        I2cByteTransfer { bytes: copy_range(b, 0, b.len()) }
    }
}

/// The result of a byte transfer, carried verbatim.
#[derive(Debug, Clone, PartialEq, Eq, Default)]
pub struct I2cByteTransferResult {
    pub bytes: Vec<u8>,
}

impl I2cByteTransferResult {
    /// The result bytes, verbatim.
    pub fn encode(&self) -> (r: Vec<u8>)
        ensures
            r@ == self.bytes@,
    {
        copy_range(self.bytes.as_slice(), 0, self.bytes.len())
    }

    /// The result carrying `b` verbatim.
    pub fn decode(b: &[u8]) -> (r: I2cByteTransferResult)
        ensures
            r.bytes@ == b@,
    {
        I2cByteTransferResult { bytes: copy_range(b, 0, b.len()) }
    }
}

/// A decoded I2C request.
#[derive(Debug, Clone, PartialEq, Eq)]
pub enum I2cRequest {
    /// `evt.sub_opcode` 0: a byte transfer.
    Plain(I2cByteTransfer),
    /// `evt.sub_opcode` 7: a configuration write (payload not interpreted).
    ConfigWrite,
}

impl I2cRequest {
    /// Decodes a request: sub-opcode 0 carries `payload` as a byte transfer,
    /// 7 is a configuration write, anything else fails with `UnsupportedCmd`.
    pub fn from_evt_sub_opcode(sub_opcode: u8, payload: &[u8]) -> (r: Result<I2cRequest, RcpError>)
        ensures
            match evt_row2_kind(sub_opcode) {
                EvtRow2Kind::Plain => r matches Ok(I2cRequest::Plain(t)) && t.bytes@ == payload@,
                EvtRow2Kind::ConfigWrite => r matches Ok(I2cRequest::ConfigWrite),
                EvtRow2Kind::Reserved => r == Err::<I2cRequest, RcpError>(RcpError::UnsupportedCmd),
            },
    {
        match evt_row2_kind_of(sub_opcode) {
            EvtRow2Kind::Plain => Ok(I2cRequest::Plain(I2cByteTransfer::decode(payload))),
            EvtRow2Kind::ConfigWrite => Ok(I2cRequest::ConfigWrite),
            EvtRow2Kind::Reserved => Err(RcpError::UnsupportedCmd),
        }
    }
}

} // verus!
