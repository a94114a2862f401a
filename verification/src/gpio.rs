//! GPIO endpoints: the 32-pin bitmask, the eight write semantics selected by
//! `evt.sub_opcode`, and the change / rising / falling trigger evaluation.
use vstd::prelude::*;

use crate::regmap::{EndpointType, PerEpTypeFunctionalConfig};
use crate::wire::{be32, from_be32, lemma_be32_roundtrip};
use crate::RcpError;

verus! {

/// Length of an encoded bitmask, in octets.
pub const GPIO_BITMASK_LEN: usize = 4;

/// Length of an encoded trigger configuration, in octets.
pub const GPIO_TRIGGER_CONFIG_LEN: usize = 12;

/// One bit per GPIO pin.
#[derive(Debug, Clone, Copy, PartialEq, Eq, Default)]
pub struct GpioBitmask(pub u32);

impl GpioBitmask {
    /// The mask's four big-endian octets.
    pub fn encode(self) -> (r: [u8; 4])
        ensures
            r@ == be32(self.0),
    {
        let x = self.0;
        let r: [u8; 4] = [(x >> 24u32) as u8, (x >> 16u32) as u8, (x >> 8u32) as u8, x as u8];
        assert(r@ =~= be32(x));
        r
    }

    /// Reads a mask from the first four octets of `b` (big-endian); later
    /// octets are ignored. Fails with `ShortFrame` below four octets.
    pub fn decode(b: &[u8]) -> (r: Result<GpioBitmask, RcpError>)
        ensures
            match r {
                Ok(m) => b@.len() >= 4 && m.0 == from_be32(b@[0], b@[1], b@[2], b@[3]),
                Err(e) => b@.len() < 4 && e == RcpError::ShortFrame,
            },
    {
        if b.len() < GPIO_BITMASK_LEN {
            return Err(RcpError::ShortFrame);
        }
        Ok(GpioBitmask(
            ((b[0] as u32) << 24u32) | ((b[1] as u32) << 16u32) | ((b[2] as u32) << 8u32) | (
            b[3] as u32),
        ))
    }
}

/// Decoding an encoded mask gives the mask back.
pub proof fn lemma_bitmask_roundtrip(m: GpioBitmask)
    ensures
        from_be32(be32(m.0)[0], be32(m.0)[1], be32(m.0)[2], be32(m.0)[3]) == m.0,
{
    lemma_be32_roundtrip(m.0);
}

/// The eight GPIO write semantics, selected by `evt.sub_opcode` 0..=7.
#[derive(Debug, Clone, Copy, PartialEq, Eq, Structural)]
pub enum GpioWriteSemantics {
    Replace,
    Or,
    And,
    Xor,
    Add,
    SubtractSaturating,
    Reconfigure,
    Unnamed8th,
}

pub open spec fn write_semantics_opcode(s: GpioWriteSemantics) -> u8 {
    match s {
        GpioWriteSemantics::Replace => 0,
        GpioWriteSemantics::Or => 1,
        GpioWriteSemantics::And => 2,
        GpioWriteSemantics::Xor => 3,
        GpioWriteSemantics::Add => 4,
        GpioWriteSemantics::SubtractSaturating => 5,
        GpioWriteSemantics::Reconfigure => 6,
        GpioWriteSemantics::Unnamed8th => 7,
    }
}

impl GpioWriteSemantics {
    /// The semantics' sub-opcode.
    pub fn to_sub_opcode(self) -> (r: u8)
        ensures
            r == write_semantics_opcode(self),
    {
        match self {
            GpioWriteSemantics::Replace => 0,
            GpioWriteSemantics::Or => 1,
            GpioWriteSemantics::And => 2,
            GpioWriteSemantics::Xor => 3,
            GpioWriteSemantics::Add => 4,
            GpioWriteSemantics::SubtractSaturating => 5,
            GpioWriteSemantics::Reconfigure => 6,
            GpioWriteSemantics::Unnamed8th => 7,
        }
    }

    /// The semantics of a sub-opcode; `InvalidParameter` above 7.
    pub fn from_sub_opcode(raw: u8) -> (r: Result<GpioWriteSemantics, RcpError>)
        ensures
            match r {
                Ok(s) => write_semantics_opcode(s) == raw,
                Err(e) => raw > 7 && e == RcpError::InvalidParameter,
            },
    {
        match raw {
            0 => Ok(GpioWriteSemantics::Replace),
            1 => Ok(GpioWriteSemantics::Or),
            2 => Ok(GpioWriteSemantics::And),
            3 => Ok(GpioWriteSemantics::Xor),
            4 => Ok(GpioWriteSemantics::Add),
            5 => Ok(GpioWriteSemantics::SubtractSaturating),
            6 => Ok(GpioWriteSemantics::Reconfigure),
            7 => Ok(GpioWriteSemantics::Unnamed8th),
            _ => Err(RcpError::InvalidParameter),
        }
    }

    /// False only for the unnamed eighth value.
    pub fn is_named(self) -> (r: bool)
        ensures
            r == (self != GpioWriteSemantics::Unnamed8th),
    {
        match self {
            GpioWriteSemantics::Unnamed8th => false,
            _ => true,
        }
    }
}

/// The sub-opcodes of the eight semantics are exactly 0..=7, one each.
pub proof fn lemma_write_semantics_opcode_bijective(s: GpioWriteSemantics, t: GpioWriteSemantics)
    ensures
        write_semantics_opcode(s) <= 7,
        write_semantics_opcode(s) == write_semantics_opcode(t) ==> s == t,
{
}

/// The new pin state a write produces, or `None` for the unnamed eighth
/// semantics.
pub open spec fn gpio_write_result(s: GpioWriteSemantics, current: u32, operand: u32) -> Option<
    u32,
> {
    match s {
        GpioWriteSemantics::Replace => Some(operand),
        GpioWriteSemantics::Or => Some(current | operand),
        GpioWriteSemantics::And => Some(current & operand),
        GpioWriteSemantics::Xor => Some(current ^ operand),
        GpioWriteSemantics::Add => Some(((current + operand) % 0x1_0000_0000) as u32),
        GpioWriteSemantics::SubtractSaturating => Some(
            if current >= operand {
                (current - operand) as u32
            } else {
                0
            },
        ),
        GpioWriteSemantics::Reconfigure => Some(operand),
        GpioWriteSemantics::Unnamed8th => None,
    }
}

/// Applies a GPIO write: replace, or, and, xor, wrapping add, saturating
/// subtract, or reconfigure (a replace at bitmask level). The unnamed eighth
/// semantics fails with `UnsupportedCmd`.
pub fn apply_gpio_write(
    semantics: GpioWriteSemantics,
    current: GpioBitmask,
    operand: GpioBitmask,
) -> (r: Result<GpioBitmask, RcpError>)
    ensures
        match gpio_write_result(semantics, current.0, operand.0) {
            Some(v) => r == Ok::<GpioBitmask, RcpError>(GpioBitmask(v)),
            None => r == Err::<GpioBitmask, RcpError>(RcpError::UnsupportedCmd),
        },
{
    let c = current.0;
    let o = operand.0;
    let result = match semantics {
        GpioWriteSemantics::Replace => o,
        GpioWriteSemantics::Or => c | o,
        GpioWriteSemantics::And => c & o,
        GpioWriteSemantics::Xor => c ^ o,
        GpioWriteSemantics::Add => c.wrapping_add(o),
        GpioWriteSemantics::SubtractSaturating => c.saturating_sub(o),
        GpioWriteSemantics::Reconfigure => o,
        GpioWriteSemantics::Unnamed8th => {
            return Err(RcpError::UnsupportedCmd);
        },
    };
    Ok(GpioBitmask(result))
}

/// What each write semantics does to the pins, stated bit by bit: `Replace`
/// and `Reconfigure` make the operand the new state whatever the pins were;
/// `Or` sets exactly the operand's bits and keeps the others; `And` clears
/// exactly the bits the operand lacks and keeps the others; `Xor` flips
/// exactly the operand's bits; `Add` adds modulo 2^32; `SubtractSaturating`
/// subtracts, stopping at zero; the unnamed eighth semantics has no result.
pub proof fn lemma_gpio_write_semantics(current: u32, operand: u32)
    ensures
        gpio_write_result(GpioWriteSemantics::Replace, current, operand) == Some(operand),
        gpio_write_result(GpioWriteSemantics::Reconfigure, current, operand) == Some(operand),
        gpio_write_result(GpioWriteSemantics::Or, current, operand) matches Some(r) && r & operand
            == operand && r & !operand == current & !operand,
        gpio_write_result(GpioWriteSemantics::And, current, operand) matches Some(r) && r & !operand
            == 0 && r & operand == current & operand,
        gpio_write_result(GpioWriteSemantics::Xor, current, operand) matches Some(r) && r ^ operand
            == current,
        gpio_write_result(GpioWriteSemantics::Add, current, operand) matches Some(r) && (r as int
            == current + operand || r as int == current + operand - 0x1_0000_0000),
        gpio_write_result(GpioWriteSemantics::SubtractSaturating, current, operand) matches Some(r)
            && (if current >= operand {
            r + operand == current
        } else {
            r == 0
        }),
        gpio_write_result(GpioWriteSemantics::Unnamed8th, current, operand) is None,
{
    let r_or = current | operand;
    assert(r_or & operand == operand && r_or & !operand == current & !operand) by (bit_vector)
        requires
            r_or == current | operand,
    ;
    let r_and = current & operand;
    assert(r_and & !operand == 0 && r_and & operand == current & operand) by (bit_vector)
        requires
            r_and == current & operand,
    ;
    let r_xor = current ^ operand;
    assert(r_xor ^ operand == current) by (bit_vector)
        requires
            r_xor == current ^ operand,
    ;
}

/// Writing the same operand with `Xor` twice restores the pins; `Or` and
/// `And` are idempotent; `Reconfigure` agrees with `Replace`.
pub proof fn lemma_gpio_write_laws(current: u32, operand: u32)
    ensures
        (current ^ operand) ^ operand == current,
        (current | operand) | operand == current | operand,
        (current & operand) & operand == current & operand,
        gpio_write_result(GpioWriteSemantics::Reconfigure, current, operand) == gpio_write_result(
            GpioWriteSemantics::Replace,
            current,
            operand,
        ),
{
    assert((current ^ operand) ^ operand == current) by (bit_vector);
    assert((current | operand) | operand == current | operand) by (bit_vector);
    assert((current & operand) & operand == current & operand) by (bit_vector);
}

/// Which pins arm which trigger.
#[derive(Debug, Clone, Copy, PartialEq, Eq, Default)]
pub struct GpioTriggerConfig {
    pub change_enable: GpioBitmask,
    pub rising_enable: GpioBitmask,
    pub falling_enable: GpioBitmask,
}

/// The twelve octets of a trigger configuration: change, rising, falling.
pub open spec fn trigger_config_bytes(c: GpioTriggerConfig) -> Seq<u8> {
    be32(c.change_enable.0) + be32(c.rising_enable.0) + be32(c.falling_enable.0)
}

impl GpioTriggerConfig {
    /// Encodes change, rising and falling enables, each big-endian.
    pub fn encode(self) -> (r: [u8; 12])
        ensures
            r@ == trigger_config_bytes(self),
    {
        let a = self.change_enable.encode();
        let b = self.rising_enable.encode();
        let c = self.falling_enable.encode();
        let r: [u8; 12] = [a[0], a[1], a[2], a[3], b[0], b[1], b[2], b[3], c[0], c[1], c[2], c[3]];
        assert(r@ =~= trigger_config_bytes(self));
        r
    }

    /// Decodes the first twelve octets of `b`. Fails with `ShortFrame` below
    /// twelve octets.
    pub fn decode(b: &[u8]) -> (r: Result<GpioTriggerConfig, RcpError>)
        ensures
            match r {
                Ok(c) => b@.len() >= 12 && c.change_enable.0 == from_be32(b@[0], b@[1], b@[2], b@[3])
                    && c.rising_enable.0 == from_be32(b@[4], b@[5], b@[6], b@[7])
                    && c.falling_enable.0 == from_be32(b@[8], b@[9], b@[10], b@[11]),
                Err(e) => b@.len() < 12 && e == RcpError::ShortFrame,
            },
    {
        if b.len() < GPIO_TRIGGER_CONFIG_LEN {
            return Err(RcpError::ShortFrame);
        }
        let change_enable = GpioBitmask::decode(vstd::slice::slice_subrange(b, 0, 4))?;
        let rising_enable = GpioBitmask::decode(vstd::slice::slice_subrange(b, 4, 8))?;
        let falling_enable = GpioBitmask::decode(vstd::slice::slice_subrange(b, 8, 12))?;
        Ok(GpioTriggerConfig { change_enable, rising_enable, falling_enable })
    }
}

/// Decoding an encoded trigger configuration gives it back.
pub proof fn lemma_trigger_config_roundtrip(c: GpioTriggerConfig)
    ensures
        ({
            let s = trigger_config_bytes(c);
            &&& s.len() == 12
            &&& from_be32(s[0], s[1], s[2], s[3]) == c.change_enable.0
            &&& from_be32(s[4], s[5], s[6], s[7]) == c.rising_enable.0
            &&& from_be32(s[8], s[9], s[10], s[11]) == c.falling_enable.0
        }),
{
    lemma_be32_roundtrip(c.change_enable.0);
    lemma_be32_roundtrip(c.rising_enable.0);
    lemma_be32_roundtrip(c.falling_enable.0);
}

/// The per-pin trigger outputs of one evaluation.
#[derive(Debug, Clone, Copy, PartialEq, Eq, Default)]
pub struct GpioTriggerSignals {
    pub changed: GpioBitmask,
    pub rising: GpioBitmask,
    pub falling: GpioBitmask,
}

/// Evaluates the triggers between two samples: a pin signals `changed` when
/// it differs and change is armed, `rising` when it went 0 to 1 and rising
/// is armed, `falling` when it went 1 to 0 and falling is armed.
pub fn evaluate_gpio_triggers(
    config: &GpioTriggerConfig,
    previous: GpioBitmask,
    current: GpioBitmask,
) -> (r: GpioTriggerSignals)
    ensures
        r.changed.0 == (previous.0 ^ current.0) & config.change_enable.0,
        r.rising.0 == ((previous.0 ^ current.0) & current.0) & config.rising_enable.0,
        r.falling.0 == ((previous.0 ^ current.0) & previous.0) & config.falling_enable.0,
{
    let diff = previous.0 ^ current.0;
    let rose = diff & current.0;
    let fell = diff & previous.0;
    GpioTriggerSignals {
        changed: GpioBitmask(diff & config.change_enable.0),
        rising: GpioBitmask(rose & config.rising_enable.0),
        falling: GpioBitmask(fell & config.falling_enable.0),
    }
}

/// No pin both rises and falls; an unchanged sample raises no signal; a
/// rising or falling pin is a changed pin.
pub proof fn lemma_trigger_laws(previous: u32, current: u32)
    ensures
        ((previous ^ current) & current) & ((previous ^ current) & previous) == 0,
        previous == current ==> (previous ^ current) == 0,
        ((previous ^ current) & current) & !(previous ^ current) == 0,
        ((previous ^ current) & previous) & !(previous ^ current) == 0,
{
    assert(((previous ^ current) & current) & ((previous ^ current) & previous) == 0)
        by (bit_vector);
    assert(previous == current ==> (previous ^ current) == 0) by (bit_vector);
    assert(((previous ^ current) & current) & !(previous ^ current) == 0) by (bit_vector);
    assert(((previous ^ current) & previous) & !(previous ^ current) == 0) by (bit_vector);
}

/// GPIO-specific functional configuration.
#[derive(Debug, Clone, Copy, PartialEq, Eq, Default)]
pub struct GpioFunctionalConfig {
    pub trigger: GpioTriggerConfig,
}

impl GpioFunctionalConfig {
    /// The register-map tag of this configuration: endpoint type GPIO.
    pub fn layer_tag(&self) -> (r: PerEpTypeFunctionalConfig)
        ensures
            r.ep_type == EndpointType::Gpio,
    {
        PerEpTypeFunctionalConfig::new(EndpointType::Gpio)
    }
}

} // verus!
