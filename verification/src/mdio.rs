//! MDIO endpoints: the addressing-mode field, the byte-transparent transfer
//! payloads, and the request decode keyed on `evt.sub_opcode`.
use vstd::prelude::*;

use crate::evtgroup::{evt_row2_kind, evt_row2_kind_of, EvtRow2Kind};
use crate::regmap::{EndpointType, PerEpTypeFunctionalConfig};
use crate::wire::copy_range;
use crate::RcpError;

verus! {

/// MDIO addressing mode (a 2-bit field).
#[derive(Debug, Clone, Copy, PartialEq, Eq, Structural)]
pub enum MdioAddressingMode {
    /// 0: IEEE 802.3 Clause 22.
    Clause22,
    /// 1: IEEE 802.3 Clause 45.
    Clause45,
    /// 2: unallocated.
    Spare2,
    /// 3: unallocated.
    Spare3,
}

pub open spec fn addressing_mode_byte(m: MdioAddressingMode) -> u8 {
    match m {
        MdioAddressingMode::Clause22 => 0,
        MdioAddressingMode::Clause45 => 1,
        MdioAddressingMode::Spare2 => 2,
        MdioAddressingMode::Spare3 => 3,
    }
}

impl MdioAddressingMode {
    /// The mode's wire value.
    pub fn to_u8(self) -> (r: u8)
        ensures
            r == addressing_mode_byte(self),
    {
        match self {
            MdioAddressingMode::Clause22 => 0,
            MdioAddressingMode::Clause45 => 1,
            MdioAddressingMode::Spare2 => 2,
            MdioAddressingMode::Spare3 => 3,
        }
    }

    /// The mode of a wire value; `InvalidParameter` above 3.
    pub fn from_u8(raw: u8) -> (r: Result<MdioAddressingMode, RcpError>)
        ensures
            match r {
                Ok(m) => addressing_mode_byte(m) == raw,
                Err(e) => raw > 3 && e == RcpError::InvalidParameter,
            },
    {
        match raw {
            0 => Ok(MdioAddressingMode::Clause22),
            1 => Ok(MdioAddressingMode::Clause45),
            2 => Ok(MdioAddressingMode::Spare2),
            3 => Ok(MdioAddressingMode::Spare3),
            _ => Err(RcpError::InvalidParameter),
        }
    }

    /// True for the two unallocated values.
    pub fn is_unallocated_slot(self) -> (r: bool)
        ensures
            r == (self == MdioAddressingMode::Spare2 || self == MdioAddressingMode::Spare3),
    {
        match self {
            MdioAddressingMode::Spare2 | MdioAddressingMode::Spare3 => true,
            _ => false,
        }
    }
}

impl Default for MdioAddressingMode {
    /// Clause 22.
    fn default() -> (r: MdioAddressingMode)
        ensures
            r == MdioAddressingMode::Clause22,
    {
        MdioAddressingMode::Clause22
    }
}

/// The wire values of the four modes are exactly 0..=3, one each.
pub proof fn lemma_addressing_mode_byte_bijective(m: MdioAddressingMode, n: MdioAddressingMode)
    ensures
        addressing_mode_byte(m) <= 3,
        addressing_mode_byte(m) == addressing_mode_byte(n) ==> m == n,
{
}

/// MDIO-specific functional configuration.
#[derive(Debug, Clone, Copy, PartialEq, Eq)]
pub struct MdioFunctionalConfig {
    pub addressing_mode: MdioAddressingMode,
}

impl Default for MdioFunctionalConfig {
    /// Clause 22 addressing.
    fn default() -> (r: MdioFunctionalConfig)
        ensures
            r.addressing_mode == MdioAddressingMode::Clause22,
    {
        MdioFunctionalConfig { addressing_mode: MdioAddressingMode::Clause22 }
    }
}

impl MdioFunctionalConfig {
    /// The register-map tag of this configuration: endpoint type MDIO.
    pub fn layer_tag(&self) -> (r: PerEpTypeFunctionalConfig)
        ensures
            r.ep_type == EndpointType::Mdio,
    {
        PerEpTypeFunctionalConfig::new(EndpointType::Mdio)
    }
}

/// An MDIO transfer, carried verbatim.
#[derive(Debug, Clone, PartialEq, Eq, Default)]
pub struct MdioTransfer {
    pub bytes: Vec<u8>,
}

impl MdioTransfer {
    /// The transfer bytes, verbatim.
    pub fn encode(&self) -> (r: Vec<u8>)
        ensures
            r@ == self.bytes@,
    {
        copy_range(self.bytes.as_slice(), 0, self.bytes.len())
    }

    /// The transfer carrying `b` verbatim.
    pub fn decode(b: &[u8]) -> (r: MdioTransfer)
        ensures
            r.bytes@ == b@,
    {
        MdioTransfer { bytes: copy_range(b, 0, b.len()) }
    }
}

/// The result of an MDIO transfer, carried verbatim.
#[derive(Debug, Clone, PartialEq, Eq, Default)]
pub struct MdioTransferResult {
    pub bytes: Vec<u8>,
}

impl MdioTransferResult {
    /// The result bytes, verbatim.
    pub fn encode(&self) -> (r: Vec<u8>)
        ensures
            r@ == self.bytes@,
    {
        copy_range(self.bytes.as_slice(), 0, self.bytes.len())
    }

    /// The result carrying `b` verbatim.
    pub fn decode(b: &[u8]) -> (r: MdioTransferResult)
        ensures
            r.bytes@ == b@,
    {
        MdioTransferResult { bytes: copy_range(b, 0, b.len()) }
    }
}

/// A decoded MDIO request.
#[derive(Debug, Clone, PartialEq, Eq)]
pub enum MdioRequest {
    /// `evt.sub_opcode` 0: a transfer.
    Plain(MdioTransfer),
    /// `evt.sub_opcode` 7: a configuration write.
    ConfigWrite,
}

impl MdioRequest {
    /// Sub-opcode 0 wraps `transfer` unchanged, 7 is a configuration write,
    /// anything else fails with `UnsupportedCmd`.
    pub fn from_evt_sub_opcode(sub_opcode: u8, transfer: MdioTransfer) -> (r: Result<
        MdioRequest,
        RcpError,
    >)
        ensures
            match evt_row2_kind(sub_opcode) {
                EvtRow2Kind::Plain => r == Ok::<MdioRequest, RcpError>(MdioRequest::Plain(transfer)),
                EvtRow2Kind::ConfigWrite => r matches Ok(MdioRequest::ConfigWrite),
                EvtRow2Kind::Reserved => r == Err::<MdioRequest, RcpError>(RcpError::UnsupportedCmd),
            },
    {
        match evt_row2_kind_of(sub_opcode) {
            EvtRow2Kind::Plain => Ok(MdioRequest::Plain(transfer)),
            EvtRow2Kind::ConfigWrite => Ok(MdioRequest::ConfigWrite),
            EvtRow2Kind::Reserved => Err(RcpError::UnsupportedCmd),
        }
    }
}

} // verus!
