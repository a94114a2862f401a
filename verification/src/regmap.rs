//! Register-map endpoint typing: which endpoint type a per-endpoint
//! configuration block belongs to, and the check that a functional
//! configuration matches it; and the general (server-identity) register
//! block that EP0 serves.
use vstd::prelude::*;

use crate::wire::{be16, be32, from_be16, from_be32, lemma_be16_roundtrip, lemma_be32_roundtrip};
use crate::RcpError;

verus! {

/// The endpoint types of the register map.
#[derive(Debug, Clone, Copy, PartialEq, Eq, Structural, Hash)]
pub enum EndpointType {
    Can,
    Lin,
    Spi,
    I2c,
    Gpio,
    Uart,
    Pwm,
    Adc,
    Mdio,
    Iseled,
}

/// The generic per-endpoint configuration block, tagged with the endpoint's
/// type.
#[derive(Debug, Clone, Copy, PartialEq, Eq)]
pub struct PerEpConfigBlock {
    pub ep_type: EndpointType,
}

impl PerEpConfigBlock {
    pub fn new(ep_type: EndpointType) -> (r: PerEpConfigBlock)
        ensures
            r.ep_type == ep_type,
    {
        PerEpConfigBlock { ep_type }
    }
}

/// A per-endpoint-type functional configuration, tagged with the type it
/// configures.
#[derive(Debug, Clone, Copy, PartialEq, Eq)]
pub struct PerEpTypeFunctionalConfig {
    pub ep_type: EndpointType,
}

impl PerEpTypeFunctionalConfig {
    pub fn new(ep_type: EndpointType) -> (r: PerEpTypeFunctionalConfig)
        ensures
            r.ep_type == ep_type,
    {
        PerEpTypeFunctionalConfig { ep_type }
    }
}

/// True exactly when the functional configuration is for the endpoint type of
/// the configuration block.
pub fn functional_config_matches_ep_type(
    block: &PerEpConfigBlock,
    functional: &PerEpTypeFunctionalConfig,
) -> (r: bool)
    ensures
        r == (block.ep_type == functional.ep_type),
{
    block.ep_type == functional.ep_type
}

/// `Ok` exactly when the types match; otherwise `InvalidParameter`.
pub fn check_functional_config_matches_ep_type(
    block: &PerEpConfigBlock,
    functional: &PerEpTypeFunctionalConfig,
) -> (r: Result<(), RcpError>)
    ensures
        r == (if block.ep_type == functional.ep_type {
            Ok(())
        } else {
            Err(RcpError::InvalidParameter)
        }),
{
    if functional_config_matches_ep_type(block, functional) {
        Ok(())
    } else {
        Err(RcpError::InvalidParameter)
    }
}

/// Length of an encoded general register block, in octets.
pub const GENERAL_REGISTERS_LEN: usize = 12;

/// The general register block: the server-identity registers that EP0 serves
/// in every lifecycle state.
///
/// Encoded as twelve big-endian octets: `svr_oa_tc18_magic_nr` (four), then
/// `svr_version`, `svr_vendor_id`, `svr_device_id` and `svr_ep_count` (two
/// each).
#[derive(Debug, Clone, Copy, PartialEq, Eq)]
pub struct GeneralRegisters {
    pub svr_oa_tc18_magic_nr: u32,
    pub svr_version: u16,
    pub svr_vendor_id: u16,
    pub svr_device_id: u16,
    pub svr_ep_count: u16,
}

/// The twelve octets of an encoded general register block.
pub open spec fn general_registers_bytes(g: GeneralRegisters) -> Seq<u8> {
    be32(g.svr_oa_tc18_magic_nr) + be16(g.svr_version) + be16(g.svr_vendor_id) + be16(
        g.svr_device_id,
    ) + be16(g.svr_ep_count)
}

/// The general register block read from the first twelve octets of `s`.
pub open spec fn general_registers_of(s: Seq<u8>) -> GeneralRegisters {
    GeneralRegisters {
        svr_oa_tc18_magic_nr: from_be32(s[0], s[1], s[2], s[3]),
        svr_version: from_be16(s[4], s[5]),
        svr_vendor_id: from_be16(s[6], s[7]),
        svr_device_id: from_be16(s[8], s[9]),
        svr_ep_count: from_be16(s[10], s[11]),
    }
}

impl Default for GeneralRegisters {
    /// Every register zero.
    fn default() -> (r: GeneralRegisters)
        ensures
            r == (GeneralRegisters {
                svr_oa_tc18_magic_nr: 0,
                svr_version: 0,
                svr_vendor_id: 0,
                svr_device_id: 0,
                svr_ep_count: 0,
            }),
    {
        GeneralRegisters {
            svr_oa_tc18_magic_nr: 0,
            svr_version: 0,
            svr_vendor_id: 0,
            svr_device_id: 0,
            svr_ep_count: 0,
        }
    }
}

impl GeneralRegisters {
    /// The block's twelve octets.
    pub fn encode(&self) -> (r: [u8; 12])
        ensures
            r@ == general_registers_bytes(*self),
    {
        let m = self.svr_oa_tc18_magic_nr;
        let v = self.svr_version;
        let ven = self.svr_vendor_id;
        let dev = self.svr_device_id;
        let n = self.svr_ep_count;
        let r: [u8; 12] = [
            (m >> 24u32) as u8,
            (m >> 16u32) as u8,
            (m >> 8u32) as u8,
            m as u8,
            (v >> 8u16) as u8,
            v as u8,
            (ven >> 8u16) as u8,
            ven as u8,
            (dev >> 8u16) as u8,
            dev as u8,
            (n >> 8u16) as u8,
            n as u8,
        ];
        assert(r@ =~= general_registers_bytes(*self));
        r
    }

    /// Reads a block from the first twelve octets of `b`; later octets are
    /// ignored. Fails with `ShortFrame` below twelve octets.
    pub fn decode(b: &[u8]) -> (r: Result<GeneralRegisters, RcpError>)
        ensures
            r == (if b@.len() < GENERAL_REGISTERS_LEN {
                Err(RcpError::ShortFrame)
            } else {
                Ok(general_registers_of(b@))
            }),
    {
        if b.len() < GENERAL_REGISTERS_LEN {
            return Err(RcpError::ShortFrame);
        }
        Ok(GeneralRegisters {
            svr_oa_tc18_magic_nr: ((b[0] as u32) << 24u32) | ((b[1] as u32) << 16u32) | ((
            b[2] as u32) << 8u32) | (b[3] as u32),
            svr_version: ((b[4] as u16) << 8u16) | (b[5] as u16),
            svr_vendor_id: ((b[6] as u16) << 8u16) | (b[7] as u16),
            svr_device_id: ((b[8] as u16) << 8u16) | (b[9] as u16),
            svr_ep_count: ((b[10] as u16) << 8u16) | (b[11] as u16),
        })
    }
}

/// Decoding an encoded general register block gives the block back.
pub proof fn lemma_general_registers_roundtrip(g: GeneralRegisters)
    ensures
        general_registers_of(general_registers_bytes(g)) == g,
{
    let s = general_registers_bytes(g);
    lemma_be32_roundtrip(g.svr_oa_tc18_magic_nr);
    lemma_be16_roundtrip(g.svr_version);
    lemma_be16_roundtrip(g.svr_vendor_id);
    lemma_be16_roundtrip(g.svr_device_id);
    lemma_be16_roundtrip(g.svr_ep_count);
    assert(s[0] == be32(g.svr_oa_tc18_magic_nr)[0] && s[1] == be32(g.svr_oa_tc18_magic_nr)[1]
        && s[2] == be32(g.svr_oa_tc18_magic_nr)[2] && s[3] == be32(g.svr_oa_tc18_magic_nr)[3]);
    assert(s[4] == be16(g.svr_version)[0] && s[5] == be16(g.svr_version)[1]);
    assert(s[6] == be16(g.svr_vendor_id)[0] && s[7] == be16(g.svr_vendor_id)[1]);
    assert(s[8] == be16(g.svr_device_id)[0] && s[9] == be16(g.svr_device_id)[1]);
    assert(s[10] == be16(g.svr_ep_count)[0] && s[11] == be16(g.svr_ep_count)[1]);
}

} // verus!
