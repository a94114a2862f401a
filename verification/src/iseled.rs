//! ISELED endpoints: the 4b/5b line code, the chain frame (address, command,
//! data) and its line form, the native CRC-8, collected per-device
//! responses, and the request decode keyed on `evt.sub_opcode`.
use vstd::prelude::*;

use crate::evtgroup::{evt_row2_kind, evt_row2_kind_of, EvtRow2Kind};
use crate::regmap::{EndpointType, PerEpTypeFunctionalConfig};
use crate::wire::{copy_range, push_all};
use crate::RcpError;

verus! {

/// The 4b/5b line code: the 5-bit symbol of each nibble, indexed by nibble.
pub const NIBBLE_TO_5B: [u8; 16] = [
    0b11110, 0b01001, 0b10100, 0b10101, 0b01010, 0b01011, 0b01110, 0b01111, 0b10010, 0b10011,
    0b10110, 0b10111, 0b11010, 0b11011, 0b11100, 0b11101,
];

/// The 5-bit line symbol of a nibble.
pub open spec fn code_5b(n: u8) -> u8 {
    if n == 0x0 {
        0b11110
    } else if n == 0x1 {
        0b01001
    } else if n == 0x2 {
        0b10100
    } else if n == 0x3 {
        0b10101
    } else if n == 0x4 {
        0b01010
    } else if n == 0x5 {
        0b01011
    } else if n == 0x6 {
        0b01110
    } else if n == 0x7 {
        0b01111
    } else if n == 0x8 {
        0b10010
    } else if n == 0x9 {
        0b10011
    } else if n == 0xA {
        0b10110
    } else if n == 0xB {
        0b10111
    } else if n == 0xC {
        0b11010
    } else if n == 0xD {
        0b11011
    } else if n == 0xE {
        0b11100
    } else {
        0b11101
    }
}

/// The nibble a 5-bit line symbol stands for, or `None` for a symbol that is
/// not a data code.
pub open spec fn nibble_of(symbol: u8) -> Option<u8> {
    if exists|n: u8| n < 16 && code_5b(n) == symbol {
        Some(choose|n: u8| n < 16 && code_5b(n) == symbol)
    } else {
        None
    }
}

/// The line code is injective: distinct nibbles have distinct symbols.
pub proof fn lemma_code_5b_injective(a: u8, b: u8)
    requires
        a < 16,
        b < 16,
        code_5b(a) == code_5b(b),
    ensures
        a == b,
{
}

/// Every nibble decodes back from its symbol.
pub proof fn lemma_nibble_of_code(n: u8)
    requires
        n < 16,
    ensures
        nibble_of(code_5b(n)) == Some(n),
{
    let m = choose|m: u8| m < 16 && code_5b(m) == code_5b(n);
    lemma_code_5b_injective(m, n);
}

/// The table holds exactly the line code.
pub proof fn lemma_table_is_code(n: u8)
    requires
        n < 16,
    ensures
        NIBBLE_TO_5B@[n as int] == code_5b(n),
{
}

fn nibble_to_5b(n: u8) -> (r: u8)
    requires
        n < 16,
    ensures
        r == code_5b(n),
{
    proof {
        lemma_table_is_code(n);
    }
    NIBBLE_TO_5B[n as usize]
}

fn symbol_to_nibble(symbol: u8) -> (r: Option<u8>)
    ensures
        r == nibble_of(symbol),
        r matches Some(n) ==> n < 16,
{
    let r: Option<u8> = match symbol {
        0b11110 => Some(0x0),
        0b01001 => Some(0x1),
        0b10100 => Some(0x2),
        0b10101 => Some(0x3),
        0b01010 => Some(0x4),
        0b01011 => Some(0x5),
        0b01110 => Some(0x6),
        0b01111 => Some(0x7),
        0b10010 => Some(0x8),
        0b10011 => Some(0x9),
        0b10110 => Some(0xA),
        0b10111 => Some(0xB),
        0b11010 => Some(0xC),
        0b11011 => Some(0xD),
        0b11100 => Some(0xE),
        0b11101 => Some(0xF),
        _ => None,
    };
    proof {
        match r {
            Some(n) => {
                assert(code_5b(n) == symbol);
                lemma_nibble_of_code(n);
            },
            None => {
                assert forall|n: u8| n < 16 implies code_5b(n) != symbol by {}
            },
        }
    }
    r
}

/// The line symbols of `data`: for each octet, the symbol of its high nibble
/// then that of its low nibble.
pub open spec fn encode_4b5b_spec(data: Seq<u8>) -> Seq<u8> {
    Seq::new(
        (2 * data.len()) as nat,
        |i: int|
            if i % 2 == 0 {
                code_5b(data[i / 2] / 16)
            } else {
                code_5b(data[i / 2] % 16)
            },
    )
}

/// Every symbol of `symbols` is a data code.
pub open spec fn all_symbols_valid(symbols: Seq<u8>) -> bool {
    forall|i: int| 0 <= i < symbols.len() ==> (#[trigger] nibble_of(symbols[i])) is Some
}

/// The octets a valid, even-length symbol sequence decodes to.
pub open spec fn decode_4b5b_spec(symbols: Seq<u8>) -> Seq<u8> {
    Seq::new(
        symbols.len() / 2,
        |i: int|
            (nibble_of(symbols[2 * i]).unwrap() * 16 + nibble_of(symbols[2 * i + 1]).unwrap()) as u8,
    )
}

/// Encodes `data` with the 4b/5b line code, high nibble first.
pub fn encode_4b5b(data: &[u8]) -> (r: Vec<u8>)
    ensures
        r@ == encode_4b5b_spec(data@),
{
    let mut out: Vec<u8> = Vec::new();
    let mut i: usize = 0;
    while i < data.len()
        invariant
            i <= data.len(),
            out@ == encode_4b5b_spec(data@.subrange(0, i as int)),
        decreases data.len() - i,
    {
        let byte = data[i];
        out.push(nibble_to_5b(byte / 16));
        out.push(nibble_to_5b(byte % 16));
        i = i + 1;
        assert(out@ =~= encode_4b5b_spec(data@.subrange(0, i as int)));
    }
    assert(data@.subrange(0, data@.len() as int) =~= data@);
    out
}

/// Decodes 4b/5b line symbols, two per octet. Fails with `ShortFrame` for an
/// odd number of symbols and with `InvalidParameter` when a symbol is not a
/// data code.
pub fn decode_4b5b(symbols: &[u8]) -> (r: Result<Vec<u8>, RcpError>)
    ensures
        match r {
            Ok(v) => symbols@.len() % 2 == 0 && all_symbols_valid(symbols@) && v@
                == decode_4b5b_spec(symbols@),
            Err(e) => if symbols@.len() % 2 != 0 {
                e == RcpError::ShortFrame
            } else {
                !all_symbols_valid(symbols@) && e == RcpError::InvalidParameter
            },
        },
{
    if symbols.len() % 2 != 0 {
        return Err(RcpError::ShortFrame);
    }
    let mut out: Vec<u8> = Vec::new();
    let mut i: usize = 0;
    while i < symbols.len() / 2
        invariant
            symbols@.len() % 2 == 0,
            i <= symbols@.len() / 2,
            forall|j: int| 0 <= j < 2 * i ==> (#[trigger] nibble_of(symbols@[j])) is Some,
            out@ == decode_4b5b_spec(symbols@).subrange(0, i as int),
        decreases symbols.len() / 2 - i,
    {
        let hi = match symbol_to_nibble(symbols[2 * i]) {
            Some(n) => n,
            None => {
                return Err(RcpError::InvalidParameter);
            },
        };
        let lo = match symbol_to_nibble(symbols[2 * i + 1]) {
            Some(n) => n,
            None => {
                return Err(RcpError::InvalidParameter);
            },
        };
        out.push(hi * 16 + lo);
        proof {
            assert forall|j: int| 0 <= j < 2 * (i + 1) implies (#[trigger] nibble_of(
                symbols@[j],
            )) is Some by {
                if j == 2 * i || j == 2 * i + 1 {
                } else {
                }
            }
        }
        i = i + 1;
        assert(out@ =~= decode_4b5b_spec(symbols@).subrange(0, i as int));
    }
    assert(decode_4b5b_spec(symbols@).subrange(0, i as int) =~= decode_4b5b_spec(symbols@));
    Ok(out)
}

/// Decoding the line code of any octets gives the octets back.
pub proof fn lemma_4b5b_roundtrip(data: Seq<u8>)
    ensures
        encode_4b5b_spec(data).len() % 2 == 0,
        all_symbols_valid(encode_4b5b_spec(data)),
        decode_4b5b_spec(encode_4b5b_spec(data)) == data,
{
    let s = encode_4b5b_spec(data);
    assert forall|i: int| 0 <= i < s.len() implies (#[trigger] nibble_of(s[i])) is Some by {
        if i % 2 == 0 {
            lemma_nibble_of_code(data[i / 2] / 16);
        } else {
            lemma_nibble_of_code(data[i / 2] % 16);
        }
    }
    assert forall|i: int| 0 <= i < data.len() implies #[trigger] decode_4b5b_spec(s)[i]
        == data[i] by {
        lemma_nibble_of_code(data[i] / 16);
        lemma_nibble_of_code(data[i] % 16);
        assert((2 * i) / 2 == i);
        assert((2 * i + 1) / 2 == i);
    }
    assert(decode_4b5b_spec(s) =~= data);
}

/// An ISELED chain frame.
#[derive(Debug, Clone, PartialEq, Eq, Default)]
pub struct IseledFrame {
    pub chain_address: u8,
    pub command: u8,
    pub data: Vec<u8>,
}

/// The raw octets of a frame: chain address, command, then data.
pub open spec fn frame_bytes(chain_address: u8, command: u8, data: Seq<u8>) -> Seq<u8> {
    seq![chain_address, command] + data
}

impl IseledFrame {
    /// Chain address, command, then data.
    pub fn encode(&self) -> (r: Vec<u8>)
        ensures
            r@ == frame_bytes(self.chain_address, self.command, self.data@),
    {
        let mut buf: Vec<u8> = Vec::new();
        buf.push(self.chain_address);
        buf.push(self.command);
        push_all(&mut buf, self.data.as_slice());
        assert(buf@ =~= frame_bytes(self.chain_address, self.command, self.data@));
        buf
    }

    /// Splits `b` into chain address, command and data. Fails with
    /// `ShortFrame` below two octets.
    pub fn decode(b: &[u8]) -> (r: Result<IseledFrame, RcpError>)
        ensures
            match r {
                Ok(f) => b@.len() >= 2 && f.chain_address == b@[0] && f.command == b@[1]
                    && f.data@ == b@.subrange(2, b@.len() as int),
                Err(e) => b@.len() < 2 && e == RcpError::ShortFrame,
            },
    {
        if b.len() < 2 {
            return Err(RcpError::ShortFrame);
        }
        Ok(IseledFrame { chain_address: b[0], command: b[1], data: copy_range(b, 2, b.len()) })
    }

    /// The frame's line form: its raw octets under the 4b/5b code.
    pub fn encode_line(&self) -> (r: Vec<u8>)
        ensures
            r@ == encode_4b5b_spec(frame_bytes(self.chain_address, self.command, self.data@)),
    {
        let raw = self.encode();
        encode_4b5b(raw.as_slice())
    }

    /// Decodes a frame from its line form. Fails as [`decode_4b5b`] does, and
    /// with `ShortFrame` when fewer than two octets decode.
    pub fn decode_line(symbols: &[u8]) -> (r: Result<IseledFrame, RcpError>)
        ensures
            match r {
                Ok(f) => symbols@.len() % 2 == 0 && all_symbols_valid(symbols@) && ({
                    let raw = decode_4b5b_spec(symbols@);
                    &&& raw.len() >= 2
                    &&& f.chain_address == raw[0]
                    &&& f.command == raw[1]
                    &&& f.data@ == raw.subrange(2, raw.len() as int)
                }),
                Err(e) => if symbols@.len() % 2 != 0 {
                    e == RcpError::ShortFrame
                } else if !all_symbols_valid(symbols@) {
                    e == RcpError::InvalidParameter
                } else {
                    symbols@.len() < 4 && e == RcpError::ShortFrame
                },
            },
    {
        let raw = decode_4b5b(symbols)?;
        IseledFrame::decode(raw.as_slice())
    }
}

/// Decoding the line form of a frame gives the frame back.
pub proof fn lemma_frame_line_roundtrip(chain_address: u8, command: u8, data: Seq<u8>)
    ensures
        ({
            let raw = decode_4b5b_spec(encode_4b5b_spec(frame_bytes(chain_address, command, data)));
            &&& raw.len() >= 2
            &&& raw[0] == chain_address
            &&& raw[1] == command
            &&& raw.subrange(2, raw.len() as int) == data
        }),
{
    let raw = frame_bytes(chain_address, command, data);
    lemma_4b5b_roundtrip(raw);
    assert(raw.subrange(2, raw.len() as int) =~= data);
}

/// The native CRC-8 value of a frame.
#[derive(Debug, Clone, Copy, PartialEq, Eq, Default)]
pub struct IseledFrameCrc(pub u8);

/// One MSB-first step of the CRC-8 register (polynomial `0x2F`).
pub open spec fn crc8_bit_step(c: u8) -> u8 {
    if c & 0x80u8 != 0u8 {
        (c << 1u8) ^ 0x2Fu8
    } else {
        c << 1u8
    }
}

pub open spec fn crc8_bits(c: u8, n: nat) -> u8
    decreases n,
{
    if n == 0 {
        c
    } else {
        crc8_bit_step(crc8_bits(c, (n - 1) as nat))
    }
}

/// The CRC-8 register after absorbing `data` from `0xFF`.
pub open spec fn crc8_register(data: Seq<u8>) -> u8
    decreases data.len(),
{
    if data.len() == 0 {
        0xFF
    } else {
        crc8_bits(crc8_register(data.drop_last()) ^ data.last(), 8)
    }
}

/// CRC-8 (polynomial `0x2F`, init `0xFF`, final XOR `0xFF`, not reflected).
pub open spec fn crc8_spec(data: Seq<u8>) -> u8 {
    crc8_register(data) ^ 0xFFu8
}

/// The CRC-8 is CRC-8/AUTOSAR: appending a message's CRC to the message
/// gives the fixed residue `0xBD` (`0x42` in the register, after the final
/// XOR with `0xFF`), for every message; the empty message's CRC is `0x00`.
pub proof fn lemma_crc8_residue(data: Seq<u8>)
    ensures
        crc8_spec(data.push(crc8_spec(data))) == 0xBDu8,
        crc8_spec(Seq::<u8>::empty()) == 0x00u8,
{
    let m = data.push(crc8_spec(data));
    assert(m.drop_last() =~= data);
    assert(m.last() == crc8_spec(data));
    let reg = crc8_register(data);
    assert(reg ^ (reg ^ 0xFFu8) == 0xFFu8) by (bit_vector);
    assert(crc8_bit_step(0xFFu8) == 0xD1u8) by (bit_vector);
    assert(crc8_bit_step(0xD1u8) == 0x8Du8) by (bit_vector);
    assert(crc8_bit_step(0x8Du8) == 0x35u8) by (bit_vector);
    assert(crc8_bit_step(0x35u8) == 0x6Au8) by (bit_vector);
    assert(crc8_bit_step(0x6Au8) == 0xD4u8) by (bit_vector);
    assert(crc8_bit_step(0xD4u8) == 0x87u8) by (bit_vector);
    assert(crc8_bit_step(0x87u8) == 0x21u8) by (bit_vector);
    assert(crc8_bit_step(0x21u8) == 0x42u8) by (bit_vector);
    assert(crc8_bits(0xFFu8, 0) == 0xFFu8);
    assert(crc8_bits(0xFFu8, 1) == 0xD1u8);
    assert(crc8_bits(0xFFu8, 2) == 0x8Du8);
    assert(crc8_bits(0xFFu8, 3) == 0x35u8);
    assert(crc8_bits(0xFFu8, 4) == 0x6Au8);
    assert(crc8_bits(0xFFu8, 5) == 0xD4u8);
    assert(crc8_bits(0xFFu8, 6) == 0x87u8);
    assert(crc8_bits(0xFFu8, 7) == 0x21u8);
    assert(crc8_bits(0xFFu8, 8) == 0x42u8);
    assert(0x42u8 ^ 0xFFu8 == 0xBDu8) by (bit_vector);
    assert(0xFFu8 ^ 0xFFu8 == 0x00u8) by (bit_vector);
}

fn crc8_autosar(data: &[u8]) -> (r: u8)
    ensures
        r == crc8_spec(data@),
{
    let mut crc: u8 = 0xFF;
    let mut i: usize = 0;
    while i < data.len()
        invariant
            i <= data.len(),
            crc == crc8_register(data@.subrange(0, i as int)),
        decreases data.len() - i,
    {
        let c0: u8 = crc ^ data[i];
        crc = c0;
        let mut k: u32 = 0;
        while k < 8
            invariant
                k <= 8,
                crc == crc8_bits(c0, k as nat),
            decreases 8 - k,
        {
            crc = if crc & 0x80u8 != 0u8 {
                (crc << 1u8) ^ 0x2Fu8
            } else {
                crc << 1u8
            };
            k = k + 1;
        }
        assert(data@.subrange(0, i + 1).drop_last() =~= data@.subrange(0, i as int));
        i = i + 1;
    }
    assert(data@.subrange(0, data@.len() as int) =~= data@);
    crc ^ 0xFF
}

/// The native CRC-8 of a frame's raw octets.
pub fn iseled_frame_crc8(frame: &IseledFrame) -> (r: IseledFrameCrc)
    ensures
        r.0 == crc8_spec(frame_bytes(frame.chain_address, frame.command, frame.data@)),
{
    let raw = frame.encode();
    IseledFrameCrc(crc8_autosar(raw.as_slice()))
}

/// One device's response within a chain.
#[derive(Debug, Clone, PartialEq, Eq, Default)]
pub struct IseledDeviceResponse {
    pub chain_address: u8,
    pub data: Vec<u8>,
}

/// The per-device responses of a chain, in chain order.
#[derive(Debug, Clone, PartialEq, Eq, Default)]
pub struct IseledCollectedResponse(pub Vec<IseledDeviceResponse>);

/// Collects per-device responses, keeping each one and their order.
pub fn iseled_collect_resp(per_device: &[IseledDeviceResponse]) -> (r: IseledCollectedResponse)
    ensures
        r.0@.len() == per_device@.len(),
        forall|i: int|
            0 <= i < per_device@.len() ==> (#[trigger] r.0@[i]).chain_address
                == per_device@[i].chain_address && r.0@[i].data@ == per_device@[i].data@,
{
    let mut out: Vec<IseledDeviceResponse> = Vec::new();
    let mut i: usize = 0;
    while i < per_device.len()
        invariant
            i <= per_device@.len(),
            out@.len() == i,
            forall|j: int|
                0 <= j < i ==> (#[trigger] out@[j]).chain_address == per_device@[j].chain_address
                    && out@[j].data@ == per_device@[j].data@,
        decreases per_device.len() - i,
    {
        let d = &per_device[i];
        out.push(
            IseledDeviceResponse {
                chain_address: d.chain_address,
                data: copy_range(d.data.as_slice(), 0, d.data.len()),
            },
        );
        i = i + 1;
    }
    IseledCollectedResponse(out)
}

/// ISELED-specific functional configuration.
#[derive(Debug, Clone, Copy, PartialEq, Eq, Default)]
pub struct IseledFunctionalConfig {
    pub native_crc_enabled: bool,
}

impl IseledFunctionalConfig {
    /// The register-map tag of this configuration: endpoint type ISELED.
    pub fn layer_tag(&self) -> (r: PerEpTypeFunctionalConfig)
        ensures
            r.ep_type == EndpointType::Iseled,
    {
        PerEpTypeFunctionalConfig::new(EndpointType::Iseled)
    }
}

/// A decoded ISELED request.
#[derive(Debug, Clone, PartialEq, Eq)]
pub enum IseledRequest {
    /// `evt.sub_opcode` 0: a chain frame.
    Plain(IseledFrame),
    /// A configuration write (recognized; never produced by the decode).
    ConfigWrite,
}

impl IseledRequest {
    /// Sub-opcode 0 wraps `frame` unchanged, 7 (configuration write) fails
    /// with `ConfigWriteNotImplemented`, anything else with `UnsupportedCmd`.
    pub fn from_evt_sub_opcode(sub_opcode: u8, frame: IseledFrame) -> (r: Result<
        IseledRequest,
        RcpError,
    >)
        ensures
            match evt_row2_kind(sub_opcode) {
                EvtRow2Kind::Plain => r == Ok::<IseledRequest, RcpError>(IseledRequest::Plain(frame)),
                EvtRow2Kind::ConfigWrite => r == Err::<IseledRequest, RcpError>(
                    RcpError::ConfigWriteNotImplemented,
                ),
                EvtRow2Kind::Reserved => r == Err::<IseledRequest, RcpError>(
                    RcpError::UnsupportedCmd,
                ),
            },
    {
        match evt_row2_kind_of(sub_opcode) {
            EvtRow2Kind::Plain => Ok(IseledRequest::Plain(frame)),
            EvtRow2Kind::ConfigWrite => Err(RcpError::ConfigWriteNotImplemented),
            EvtRow2Kind::Reserved => Err(RcpError::UnsupportedCmd),
        }
    }
}

} // verus!
