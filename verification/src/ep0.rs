//! Endpoint zero: the reserved `byte_bus_id` 0 that addresses the RC Server's
//! own register map, the routing decision it drives, and the access check
//! for reads and (root-client-only) writes.
use vstd::prelude::*;

use crate::acf::ByteMessageInfo;
use crate::avtp::StreamId;
use crate::lifecycle::{
    check_register_reachable, check_register_writable, register_reachable, register_writable,
    RcServerState, RegisterCategory,
};
use crate::RcpError;

verus! {

/// The reserved `byte_bus_id` of endpoint zero.
pub const EP0_BYTE_BUS_ID: u16 = 0;

/// True exactly for the reserved EP0 address.
pub fn is_ep0_address(byte_bus_id: u16) -> (r: bool)
    ensures
        r == (byte_bus_id == 0),
{
    byte_bus_id == EP0_BYTE_BUS_ID
}

/// Where a request is routed.
#[derive(Debug, Clone, Copy, PartialEq, Eq)]
pub enum RequestRoute {
    /// The reserved EP0 address: the whole-register-map path.
    Ep0,
    /// Any other address: the endpoint table.
    DeviceEndpoint,
}

/// `Ep0` exactly for `byte_bus_id` 0, decided from the address alone.
pub fn route_byte_bus_id(byte_bus_id: u16) -> (r: RequestRoute)
    ensures
        r == (if byte_bus_id == 0 {
            RequestRoute::Ep0
        } else {
            RequestRoute::DeviceEndpoint
        }),
{
    if is_ep0_address(byte_bus_id) {
        RequestRoute::Ep0
    } else {
        RequestRoute::DeviceEndpoint
    }
}

/// Direction of an EP0 access.
#[derive(Debug, Clone, Copy, PartialEq, Eq)]
pub enum Ep0AccessKind {
    /// `op = false`.
    Read,
    /// `op = true`.
    Write,
}

/// `Write` exactly when `op` is set.
pub fn access_kind(info: &ByteMessageInfo) -> (r: Ep0AccessKind)
    ensures
        r == (if info.op {
            Ep0AccessKind::Write
        } else {
            Ep0AccessKind::Read
        }),
{
    if info.op {
        Ep0AccessKind::Write
    } else {
        Ep0AccessKind::Read
    }
}

/// The result of an EP0 access check: a read needs the category reachable,
/// a write needs it writable (`UnauthorizedAccess` when unreachable,
/// `LockedMemAccess` when locked).
pub open spec fn ep0_access_result(
    state: RcServerState,
    category: RegisterCategory,
    op: bool,
) -> Result<(), RcpError> {
    if !op {
        if register_reachable(state, category) {
            Ok(())
        } else {
            Err(RcpError::UnauthorizedAccess)
        }
    } else if !register_reachable(state, category) {
        Err(RcpError::UnauthorizedAccess)
    } else if register_writable(state, category) {
        Ok(())
    } else {
        Err(RcpError::LockedMemAccess)
    }
}

/// Checks an EP0 access against the lifecycle state: reads as
/// `check_register_reachable`, writes as `check_register_writable`.
pub fn check_ep0_access(state: RcServerState, category: RegisterCategory, info: &ByteMessageInfo) -> (r:
    Result<(), RcpError>)
    ensures
        r == ep0_access_result(state, category, info.op),
{
    match access_kind(info) {
        Ep0AccessKind::Read => check_register_reachable(state, category),
        Ep0AccessKind::Write => check_register_writable(state, category),
    }
}

/// True exactly when a root client is designated and it is `stream`.
pub fn is_root_client(root_client: Option<StreamId>, stream: StreamId) -> (r: bool)
    ensures
        r == (root_client == Some(stream)),
{
    match root_client {
        Some(root) => root.0 == stream.0,
        None => false,
    }
}

/// The EP0 access check with the root-client gate: a read is checked as
/// [`check_ep0_access`] whoever asks; a write from any stream other than the
/// designated root client fails with `UnauthorizedAccess`, and a write from
/// the root client is checked as [`check_ep0_access`].
pub fn check_ep0_access_for_stream(
    state: RcServerState,
    category: RegisterCategory,
    info: &ByteMessageInfo,
    requesting_stream: StreamId,
    root_client: Option<StreamId>,
) -> (r: Result<(), RcpError>)
    ensures
        r == (if info.op && root_client != Some(requesting_stream) {
            Err(RcpError::UnauthorizedAccess)
        } else {
            ep0_access_result(state, category, info.op)
        }),
{
    match access_kind(info) {
        Ep0AccessKind::Read => check_ep0_access(state, category, info),
        Ep0AccessKind::Write => {
            if is_root_client(root_client, requesting_stream) {
                check_ep0_access(state, category, info)
            } else {
                Err(RcpError::UnauthorizedAccess)
            }
        },
    }
}

/// The root-client gate never grants more than the lifecycle check: any
/// access it admits, the plain EP0 check admits too.
pub proof fn lemma_root_gate_only_restricts(
    state: RcServerState,
    category: RegisterCategory,
    op: bool,
    requesting_stream: StreamId,
    root_client: Option<StreamId>,
)
    ensures
        (if op && root_client != Some(requesting_stream) {
            Err(RcpError::UnauthorizedAccess)
        } else {
            ep0_access_result(state, category, op)
        }) is Ok ==> ep0_access_result(state, category, op) is Ok,
{
}

} // verus!
