//! EVT sub-opcode classification: the three event groups, the check that a
//! sub-opcode fits its 3-bit field, and the row-2 meaning (plain transfer,
//! configuration write, reserved) shared by the byte-oriented endpoints.
use vstd::prelude::*;

use crate::RcpError;

verus! {

/// The three EVT groups.
#[derive(Debug, Clone, Copy, PartialEq, Eq, Structural)]
pub enum EvtGroup {
    A,
    B,
    C,
}

/// The ordinal of each group.
pub open spec fn evt_group_ordinal(g: EvtGroup) -> u8 {
    match g {
        EvtGroup::A => 0,
        EvtGroup::B => 1,
        EvtGroup::C => 2,
    }
}

impl EvtGroup {
    /// Every group, in order.
    pub const ALL: [EvtGroup; 3] = [EvtGroup::A, EvtGroup::B, EvtGroup::C];

    /// The group's ordinal: `A` 0, `B` 1, `C` 2.
    pub fn to_u8(self) -> (r: u8)
        ensures
            r == evt_group_ordinal(self),
    {
        match self {
            EvtGroup::A => 0,
            EvtGroup::B => 1,
            EvtGroup::C => 2,
        }
    }

    /// The group of an ordinal; `InvalidParameter` above 2.
    pub fn from_u8(raw: u8) -> (r: Result<EvtGroup, RcpError>)
        ensures
            match r {
                Ok(g) => evt_group_ordinal(g) == raw,
                Err(e) => raw > 2 && e == RcpError::InvalidParameter,
            },
    {
        match raw {
            0 => Ok(EvtGroup::A),
            1 => Ok(EvtGroup::B),
            2 => Ok(EvtGroup::C),
            _ => Err(RcpError::InvalidParameter),
        }
    }
}

/// `from_u8` inverts `to_u8`.
pub proof fn lemma_evt_group_roundtrip(g: EvtGroup, h: EvtGroup)
    ensures
        evt_group_ordinal(g) <= 2,
        evt_group_ordinal(g) == evt_group_ordinal(h) ==> g == h,
{
}

/// Classifies an `evt.sub_opcode`: out-of-range values (above 7) fail with
/// `InvalidParameter`; no in-range value is yet assigned a group, so every
/// one classifies as `None`.
pub fn classify_evt_sub_opcode(sub_opcode: u8) -> (r: Result<Option<EvtGroup>, RcpError>)
    ensures
        r == (if sub_opcode > 7 {
            Err(RcpError::InvalidParameter)
        } else {
            Ok(None::<EvtGroup>)
        }),
{
    if sub_opcode > crate::acf::EVT_SUB_OPCODE_MAX {
        return Err(RcpError::InvalidParameter);
    }
    Ok(None)
}

/// Row-2 meaning of an `evt.sub_opcode` for byte-oriented endpoints.
#[derive(Debug, Clone, Copy, PartialEq, Eq, Structural)]
pub enum EvtRow2Kind {
    /// `000b`: a plain transfer.
    Plain,
    /// `111b`: a configuration write.
    ConfigWrite,
    /// Any other value.
    Reserved,
}

pub open spec fn evt_row2_kind(sub_opcode: u8) -> EvtRow2Kind {
    if sub_opcode == 0 {
        EvtRow2Kind::Plain
    } else if sub_opcode == 7 {
        EvtRow2Kind::ConfigWrite
    } else {
        EvtRow2Kind::Reserved
    }
}

/// `Plain` for 0, `ConfigWrite` for 7, `Reserved` otherwise.
pub fn evt_row2_kind_of(sub_opcode: u8) -> (r: EvtRow2Kind)
    ensures
        r == evt_row2_kind(sub_opcode),
{
    match sub_opcode {
        0 => EvtRow2Kind::Plain,
        7 => EvtRow2Kind::ConfigWrite,
        _ => EvtRow2Kind::Reserved,
    }
}

} // verus!
