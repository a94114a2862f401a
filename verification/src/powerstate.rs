//! Power-mode state machine: the four power modes, the ordinary transitions
//! out of `Normal`, the idle gate every powered-mode change waits for, the
//! cold and hot start paths back to `Normal`, and the wake-up handshake.
use vstd::prelude::*;

use crate::request::RequestLifecycleState;
use crate::RcpError;

verus! {

/// The RC Server's power mode.
#[derive(Debug, Clone, Copy, PartialEq, Eq, Structural)]
pub enum PowerMode {
    Normal,
    StandBy,
    Sleep,
    Unpowered,
}

impl PowerMode {
    /// The mode's lower-case name.
    pub fn as_str(self) -> (r: &'static str)
        ensures
            r@ == (match self {
                PowerMode::Normal => "normal"@,
                PowerMode::StandBy => "standby"@,
                PowerMode::Sleep => "sleep"@,
                PowerMode::Unpowered => "unpowered"@,
            }),
    {
        match self {
            PowerMode::Normal => "normal",
            PowerMode::StandBy => "standby",
            PowerMode::Sleep => "sleep",
            PowerMode::Unpowered => "unpowered",
        }
    }
}

/// The two ordinary transitions: `Normal` to `StandBy` and `Normal` to `Sleep`.
pub open spec fn power_transition_defined(from: PowerMode, to: PowerMode) -> bool {
    from == PowerMode::Normal && (to == PowerMode::StandBy || to == PowerMode::Sleep)
}

pub fn is_power_mode_transition_defined(from: PowerMode, to: PowerMode) -> (r: bool)
    ensures
        r == power_transition_defined(from, to),
{
    match (from, to) {
        (PowerMode::Normal, PowerMode::StandBy) => true,
        (PowerMode::Normal, PowerMode::Sleep) => true,
        _ => false,
    }
}

/// The facts the idle gate is decided on.
#[derive(Debug, Clone, Copy, PartialEq, Eq, Default)]
pub struct PowerModeGateInput {
    pub all_endpoints_idle: bool,
    pub no_pending_response: bool,
}

pub open spec fn gate_satisfied(g: PowerModeGateInput) -> bool {
    g.all_endpoints_idle && g.no_pending_response
}

/// True exactly when every endpoint is idle and no response is pending.
pub fn is_power_mode_gate_satisfied(input: PowerModeGateInput) -> (r: bool)
    ensures
        r == gate_satisfied(input),
{
    input.all_endpoints_idle && input.no_pending_response
}

/// Every request state in `states` is `Finalized`.
pub open spec fn all_finalized(states: Seq<RequestLifecycleState>) -> bool {
    forall|i: int| 0 <= i < states.len() ==> states[i] == RequestLifecycleState::Finalized
}

/// The idle-condition input of a set of request states: both flags are true exactly when
/// every request has been finalized (vacuously for none).
pub fn power_mode_gate_from_request_states(states: &[RequestLifecycleState]) -> (r:
    PowerModeGateInput)
    ensures
        r.all_endpoints_idle == all_finalized(states@),
        r.no_pending_response == all_finalized(states@),
{
    let mut idle = true;
    let mut i: usize = 0;
    while i < states.len()
        invariant
            i <= states@.len(),
            idle == all_finalized(states@.subrange(0, i as int)),
        decreases states.len() - i,
    {
        let s = states[i];
        let finalized = match s {
            RequestLifecycleState::Finalized => true,
            _ => false,
        };
        proof {
            if !finalized {
                assert(states@.subrange(0, i + 1)[i as int] == s);
            }
        }
        idle = idle && finalized;
        i = i + 1;
    }
    assert(states@.subrange(0, states@.len() as int) =~= states@);
    PowerModeGateInput { all_endpoints_idle: idle, no_pending_response: idle }
}

/// An ordinary transition: `Ok(to)` when defined and gated, otherwise
/// `RequestRejected`.
pub fn try_enter_power_mode(from: PowerMode, to: PowerMode, gate: PowerModeGateInput) -> (r: Result<
    PowerMode,
    RcpError,
>)
    ensures
        r == (if power_transition_defined(from, to) && gate_satisfied(gate) {
            Ok(to)
        } else {
            Err(RcpError::RequestRejected)
        }),
{
    if !is_power_mode_transition_defined(from, to) {
        return Err(RcpError::RequestRejected);
    }
    if !is_power_mode_gate_satisfied(gate) {
        return Err(RcpError::RequestRejected);
    }
    Ok(to)
}

/// Shutdown is unconditional: every mode goes to `Unpowered`.
pub fn shutdown_to_unpowered(_from: PowerMode) -> (r: PowerMode)
    ensures
        r == PowerMode::Unpowered,
{
    PowerMode::Unpowered
}

/// The two start paths back to `Normal`.
#[derive(Debug, Clone, Copy, PartialEq, Eq)]
pub enum StartupPath {
    Cold,
    Hot,
}

/// Cold start: from `Unpowered` or `Sleep`, when gated, to `Normal`;
/// otherwise `RequestRejected`.
pub fn try_cold_start(from: PowerMode, gate: PowerModeGateInput) -> (r: Result<PowerMode, RcpError>)
    ensures
        r == (if (from == PowerMode::Unpowered || from == PowerMode::Sleep) && gate_satisfied(
            gate,
        ) {
            Ok(PowerMode::Normal)
        } else {
            Err(RcpError::RequestRejected)
        }),
{
    match from {
        PowerMode::Unpowered | PowerMode::Sleep => {},
        _ => {
            return Err(RcpError::RequestRejected);
        },
    }
    if !is_power_mode_gate_satisfied(gate) {
        return Err(RcpError::RequestRejected);
    }
    Ok(PowerMode::Normal)
}

/// Hot start: from `StandBy`, once the wake-up handshake is acknowledged and
/// the idle condition is met, to `Normal`; otherwise `RequestRejected`.
pub fn try_hot_start(from: PowerMode, wakeup: WakeUpHandshakeState, gate: PowerModeGateInput) -> (r:
    Result<PowerMode, RcpError>)
    ensures
        r == (if from == PowerMode::StandBy && wakeup == WakeUpHandshakeState::Acknowledged
            && gate_satisfied(gate) {
            Ok(PowerMode::Normal)
        } else {
            Err(RcpError::RequestRejected)
        }),
{
    match from {
        PowerMode::StandBy => {},
        _ => {
            return Err(RcpError::RequestRejected);
        },
    }
    if !is_wakeup_handshake_complete(wakeup) {
        return Err(RcpError::RequestRejected);
    }
    if !is_power_mode_gate_satisfied(gate) {
        return Err(RcpError::RequestRejected);
    }
    Ok(PowerMode::Normal)
}

/// The wake-up handshake.
#[derive(Debug, Clone, Copy, PartialEq, Eq, Structural)]
pub enum WakeUpHandshakeState {
    Idle,
    RequestSent,
    Acknowledged,
}

impl Default for WakeUpHandshakeState {
    /// `Idle`.
    fn default() -> (r: WakeUpHandshakeState)
        ensures
            r == WakeUpHandshakeState::Idle,
    {
        WakeUpHandshakeState::Idle
    }
}

/// Sends the wake-up request: only from `Idle`, to `RequestSent`; otherwise
/// `RequestRejected`.
pub fn send_wakeup_request(state: WakeUpHandshakeState) -> (r: Result<
    WakeUpHandshakeState,
    RcpError,
>)
    ensures
        r == (if state == WakeUpHandshakeState::Idle {
            Ok(WakeUpHandshakeState::RequestSent)
        } else {
            Err(RcpError::RequestRejected)
        }),
{
    match state {
        WakeUpHandshakeState::Idle => Ok(WakeUpHandshakeState::RequestSent),
        _ => Err(RcpError::RequestRejected),
    }
}

/// Acknowledges the request: only from `RequestSent`, to `Acknowledged`;
/// otherwise `RequestRejected`.
pub fn acknowledge_wakeup_request(state: WakeUpHandshakeState) -> (r: Result<
    WakeUpHandshakeState,
    RcpError,
>)
    ensures
        r == (if state == WakeUpHandshakeState::RequestSent {
            Ok(WakeUpHandshakeState::Acknowledged)
        } else {
            Err(RcpError::RequestRejected)
        }),
{
    match state {
        WakeUpHandshakeState::RequestSent => Ok(WakeUpHandshakeState::Acknowledged),
        _ => Err(RcpError::RequestRejected),
    }
}

/// True only once acknowledged.
pub fn is_wakeup_handshake_complete(state: WakeUpHandshakeState) -> (r: bool)
    ensures
        r == (state == WakeUpHandshakeState::Acknowledged),
{
    match state {
        WakeUpHandshakeState::Acknowledged => true,
        _ => false,
    }
}

/// The cold-start origins (`Sleep`, `Unpowered`) and the hot-start origin
/// (`StandBy`) are disjoint, and `Normal` is the origin of neither.
pub proof fn lemma_start_origins_partition(from: PowerMode)
    ensures
        !((from == PowerMode::Unpowered || from == PowerMode::Sleep) && from == PowerMode::StandBy),
        from == PowerMode::Normal ==> !(from == PowerMode::Unpowered || from == PowerMode::Sleep
            || from == PowerMode::StandBy),
{
}

/// No ordinary transition leads to or from `Unpowered`, and none stays put.
pub proof fn lemma_ordinary_transitions(from: PowerMode, to: PowerMode)
    ensures
        power_transition_defined(from, to) ==> from != to && to != PowerMode::Unpowered && from
            != PowerMode::Unpowered,
{
}

} // verus!
