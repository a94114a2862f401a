//! RC Server lifecycle state machine: the three server states, which
//! register categories each state can reach and write, and the two forward
//! transitions with their consistency guards.
use vstd::prelude::*;

use crate::RcpError;

verus! {

/// The RC Server's lifecycle state.
#[derive(Debug, Clone, Copy, PartialEq, Eq, Structural)]
pub enum RcServerState {
    /// `HW_UNCONFIGURED`, encoded `0x00`.
    HwUnconfigured,
    /// `HW_CONFIGURED`, encoded `0x55`.
    HwConfigured,
    /// `RCP_CONFIGURED`, encoded `0xAA`.
    RcpConfigured,
}

/// The wire encoding of a state.
pub open spec fn state_byte(s: RcServerState) -> u8 {
    match s {
        RcServerState::HwUnconfigured => 0x00,
        RcServerState::HwConfigured => 0x55,
        RcServerState::RcpConfigured => 0xAA,
    }
}

/// The two hexadecimal digits (upper case) of `b`.
pub open spec fn hex_digit(n: u8) -> Seq<char> {
    if n < 10 {
        seq![('0' as u8 + n) as char]
    } else {
        seq![('A' as u8 + (n - 10)) as char]
    }
}

pub open spec fn hex_byte(b: u8) -> Seq<char> {
    hex_digit(b / 16) + hex_digit(b % 16)
}

/// The message of the error reporting an unrecognized state byte.
pub open spec fn unrecognized_state_message(raw: u8) -> Seq<char> {
    "lifecycle: unrecognized RC Server state byte 0x"@ + hex_byte(raw)
        + " (expected 0x00 HW_UNCONFIGURED, 0x55 HW_CONFIGURED, or 0xAA RCP_CONFIGURED)"@
}

fn hex_digit_str(n: u8) -> (r: &'static str)
    requires
        n < 16,
    ensures
        r@ == hex_digit(n),
{
    proof {
        reveal_strlit("0");
        reveal_strlit("1");
        reveal_strlit("2");
        reveal_strlit("3");
        reveal_strlit("4");
        reveal_strlit("5");
        reveal_strlit("6");
        reveal_strlit("7");
        reveal_strlit("8");
        reveal_strlit("9");
        reveal_strlit("A");
        reveal_strlit("B");
        reveal_strlit("C");
        reveal_strlit("D");
        reveal_strlit("E");
        reveal_strlit("F");
    }
    let r = match n {
        0 => "0",
        1 => "1",
        2 => "2",
        3 => "3",
        4 => "4",
        5 => "5",
        6 => "6",
        7 => "7",
        8 => "8",
        9 => "9",
        10 => "A",
        11 => "B",
        12 => "C",
        13 => "D",
        14 => "E",
        _ => "F",
    };
    assert(r@ =~= hex_digit(n));
    r
}

fn unrecognized_state_error_text(raw: u8) -> (r: String)
    ensures
        r@ == unrecognized_state_message(raw),
{
    let s = String::from_str("lifecycle: unrecognized RC Server state byte 0x");
    let s = s.concat(hex_digit_str(raw / 16));
    let s = s.concat(hex_digit_str(raw % 16));
    let s = s.concat(
        " (expected 0x00 HW_UNCONFIGURED, 0x55 HW_CONFIGURED, or 0xAA RCP_CONFIGURED)",
    );
    assert(s@ =~= unrecognized_state_message(raw));
    s
}

impl RcServerState {
    /// The state every RC Server starts in.
    pub const INITIAL: RcServerState = RcServerState::HwUnconfigured;

    /// The state's wire encoding.
    pub fn to_u8(self) -> (r: u8)
        ensures
            r == state_byte(self),
    {
        match self {
            RcServerState::HwUnconfigured => 0x00,
            RcServerState::HwConfigured => 0x55,
            RcServerState::RcpConfigured => 0xAA,
        }
    }

    /// Decodes a state byte: `Ok` for `0x00`, `0x55` and `0xAA`, otherwise
    /// an `Other` error naming the byte.
    pub fn from_u8(raw: u8) -> (r: Result<RcServerState, RcpError>)
        ensures
            match r {
                Ok(s) => state_byte(s) == raw,
                Err(e) => raw != 0x00 && raw != 0x55 && raw != 0xAA && (e matches RcpError::Other(
                    m,
                ) && m@ == unrecognized_state_message(raw)),
            },
            r is Err <==> (raw != 0x00 && raw != 0x55 && raw != 0xAA),
    {
        match raw {
            0x00 => Ok(RcServerState::HwUnconfigured),
            0x55 => Ok(RcServerState::HwConfigured),
            0xAA => Ok(RcServerState::RcpConfigured),
            _ => Err(RcpError::Other(unrecognized_state_error_text(raw))),
        }
    }
}


impl Default for RcServerState {
    /// The initial state, `HW_UNCONFIGURED`.
    fn default() -> (r: RcServerState)
        ensures
            r == RcServerState::HwUnconfigured,
    {
        RcServerState::INITIAL
    }
}

/// Decoding the encoding of a state gives the state back.
pub proof fn lemma_state_byte_roundtrip(s: RcServerState, t: RcServerState)
    ensures
        state_byte(s) == state_byte(t) ==> s == t,
{
}

/// The broad classes of register whose reachability and writability the
/// lifecycle state decides.
#[derive(Debug, Clone, Copy, PartialEq, Eq, Structural)]
pub enum RegisterCategory {
    /// Server identity and status: reachable in every state.
    General,
    /// Hardware configuration: reachable in every state.
    HwConfig,
    /// RCP-level configuration: reachable from `HW_CONFIGURED` onward.
    RcpConfig,
}

/// Whether `category` is reachable at all in `state`.
pub open spec fn register_reachable(state: RcServerState, category: RegisterCategory) -> bool {
    !(state == RcServerState::HwUnconfigured && category == RegisterCategory::RcpConfig)
}

/// True unless `category` is `RcpConfig` and the server is still
/// `HW_UNCONFIGURED`.
pub fn is_register_reachable(state: RcServerState, category: RegisterCategory) -> (r: bool)
    ensures
        r == register_reachable(state, category),
{
    match (state, category) {
        (_, RegisterCategory::General) => true,
        (_, RegisterCategory::HwConfig) => true,
        (RcServerState::HwUnconfigured, RegisterCategory::RcpConfig) => false,
        (RcServerState::HwConfigured, RegisterCategory::RcpConfig) => true,
        (RcServerState::RcpConfigured, RegisterCategory::RcpConfig) => true,
    }
}

/// `Ok` exactly when reachable; otherwise `UnauthorizedAccess`.
pub fn check_register_reachable(state: RcServerState, category: RegisterCategory) -> (r: Result<
    (),
    RcpError,
>)
    ensures
        r == (if register_reachable(state, category) {
            Ok(())
        } else {
            Err(RcpError::UnauthorizedAccess)
        }),
{
    if is_register_reachable(state, category) {
        Ok(())
    } else {
        Err(RcpError::UnauthorizedAccess)
    }
}

/// Write-lock policy of a register category.
#[derive(Debug, Clone, Copy, PartialEq, Eq, Structural)]
pub enum LockPolicy {
    /// Writable whenever reachable.
    W,
    /// Writable until the server reaches `RCP_CONFIGURED`, then locked for good.
    WStar,
}

/// The lock policy of each category: none (read-only) for `General`, `W*`
/// for `HwConfig`, `W` for `RcpConfig`.
pub open spec fn lock_policy_of(category: RegisterCategory) -> Option<LockPolicy> {
    match category {
        RegisterCategory::General => None,
        RegisterCategory::HwConfig => Some(LockPolicy::WStar),
        RegisterCategory::RcpConfig => Some(LockPolicy::W),
    }
}

pub fn lock_policy(category: RegisterCategory) -> (r: Option<LockPolicy>)
    ensures
        r == lock_policy_of(category),
{
    match category {
        RegisterCategory::General => None,
        RegisterCategory::HwConfig => Some(LockPolicy::WStar),
        RegisterCategory::RcpConfig => Some(LockPolicy::W),
    }
}

/// Whether a write to `category` is permitted in `state`: it must be
/// reachable, and its lock policy must still allow writes.
pub open spec fn register_writable(state: RcServerState, category: RegisterCategory) -> bool {
    register_reachable(state, category) && match lock_policy_of(category) {
        None => false,
        Some(LockPolicy::W) => true,
        Some(LockPolicy::WStar) => state != RcServerState::RcpConfigured,
    }
}

pub fn is_register_writable(state: RcServerState, category: RegisterCategory) -> (r: bool)
    ensures
        r == register_writable(state, category),
{
    if !is_register_reachable(state, category) {
        return false;
    }
    match lock_policy(category) {
        None => false,
        Some(LockPolicy::W) => true,
        Some(LockPolicy::WStar) => match state {
            RcServerState::RcpConfigured => false,
            _ => true,
        },
    }
}

/// `Ok` exactly when writable; otherwise `UnauthorizedAccess` when the
/// category is not reachable and `LockedMemAccess` when it is reachable but
/// write-locked.
pub fn check_register_writable(state: RcServerState, category: RegisterCategory) -> (r: Result<
    (),
    RcpError,
>)
    ensures
        r == (if !register_reachable(state, category) {
            Err(RcpError::UnauthorizedAccess)
        } else if register_writable(state, category) {
            Ok(())
        } else {
            Err(RcpError::LockedMemAccess)
        }),
{
    if !is_register_reachable(state, category) {
        Err(RcpError::UnauthorizedAccess)
    } else if is_register_writable(state, category) {
        Ok(())
    } else {
        Err(RcpError::LockedMemAccess)
    }
}

/// A writable register is always reachable; `General` registers are never
/// writable; `HwConfig` is locked for good once `RCP_CONFIGURED`.
pub proof fn lemma_writability_laws(state: RcServerState, category: RegisterCategory)
    ensures
        register_writable(state, category) ==> register_reachable(state, category),
        !register_writable(state, RegisterCategory::General),
        !register_writable(RcServerState::RcpConfigured, RegisterCategory::HwConfig),
        register_reachable(state, RegisterCategory::RcpConfig) ==> register_writable(
            state,
            RegisterCategory::RcpConfig,
        ),
{
}

/// The two implemented forward transitions.
pub open spec fn transition_defined(from: RcServerState, to: RcServerState) -> bool {
    (from == RcServerState::HwUnconfigured && to == RcServerState::HwConfigured) || (from
        == RcServerState::HwConfigured && to == RcServerState::RcpConfigured)
}

pub fn is_transition_defined(from: RcServerState, to: RcServerState) -> (r: bool)
    ensures
        r == transition_defined(from, to),
{
    match (from, to) {
        (RcServerState::HwUnconfigured, RcServerState::HwConfigured) => true,
        (RcServerState::HwConfigured, RcServerState::RcpConfigured) => true,
        _ => false,
    }
}

impl RcServerState {
    /// Attempts a transition to `target`, consulting `is_consistent` only for
    /// a defined transition: `Ok(target)` when the guard holds, otherwise
    /// `InvalidParameter` (the `HW_CFG_INCONSISTENT` / `RCP_CFG_INCONSISTENT`
    /// rejection). Any other transition fails with `RequestRejected` without
    /// calling the guard.
    pub fn try_transition<F: FnOnce() -> bool>(self, target: RcServerState, is_consistent: F) -> (r:
        Result<RcServerState, RcpError>)
        requires
            transition_defined(self, target) ==> call_requires(is_consistent, ()),
        ensures
            !transition_defined(self, target) ==> r == Err::<RcServerState, RcpError>(
                RcpError::RequestRejected,
            ),
            transition_defined(self, target) ==> exists|ok: bool|
                call_ensures(is_consistent, (), ok) && r == (if ok {
                    Ok::<RcServerState, RcpError>(target)
                } else {
                    Err::<RcServerState, RcpError>(RcpError::InvalidParameter)
                }),
    {
        if is_transition_defined(self, target) {
            let ok = is_consistent();
            if ok {
                Ok(target)
            } else {
                Err(RcpError::InvalidParameter)
            }
        } else {
            Err(RcpError::RequestRejected)
        }
    }
}

/// A successful transition always moves the server strictly forward:
/// `HW_UNCONFIGURED` to `HW_CONFIGURED`, or `HW_CONFIGURED` to
/// `RCP_CONFIGURED`; no transition leaves `RCP_CONFIGURED`.
pub proof fn lemma_transitions_only_move_forward(from: RcServerState, to: RcServerState)
    requires
        transition_defined(from, to),
    ensures
        from != to,
        from != RcServerState::RcpConfigured,
        to != RcServerState::HwUnconfigured,
        state_byte(from) < state_byte(to),
{
}

} // verus!
