//! An in-memory RC Server and a byte-buffer endpoint, composing the frame,
//! routing, access-check and addressing layers into one decode -> route ->
//! dispatch -> encode path.
//!
//! [`RcServer`] holds a lifecycle state, a [`GeneralRegisters`] snapshot, an
//! optional root client gating EP0 writes, and the device endpoints
//! registered under `(stream_id, byte_bus_id)` pairs. Endpoint ids are handed
//! out in registration order from 0, so the endpoint with id `n` is the
//! `n`-th one registered.
//!
//! EP0 requests are checked against [`RegisterCategory::General`] only: a
//! read returns the encoded snapshot in every lifecycle state, and a write
//! never gets past the access check, since the general block has no lock
//! policy and so is never writable.
use vstd::prelude::*;

use crate::acf::{
    abb_frame, build_response_info, decode_acf_abb, encode_acf_abb, frame_decodable,
    frame_decode_error, frame_encodable, frame_payload, info_of_bytes, verify_echo_back,
    AcfAbbMessage, ByteMessageInfo, ACF_ABB_MSG_TYPE,
};
use crate::addressing::{EndpointId, EndpointTable};
use crate::avtp::{
    decode_ntscf_frame, encode_ntscf_frame, ntscf_decodable, ntscf_decode_error, ntscf_frame, ntscf_length, StreamId,
};
use crate::ep0::{check_ep0_access_for_stream, ep0_access_result, route_byte_bus_id, RequestRoute};
use crate::lifecycle::{transition_defined, RcServerState, RegisterCategory};
use crate::regmap::{general_registers_bytes, general_registers_of, EndpointType, GeneralRegisters};
use crate::wire::copy_range;
use crate::RcpError;

verus! {

/// What an RC Server dispatches a device-endpoint request to.
///
/// `read_spec` and `write_spec` say how a read or a write can move an
/// endpoint from `pre` to `post` and what it can answer. An implementation
/// that does not define them promises nothing (they hold of everything); the
/// endpoints of this library define them exactly.
pub trait Endpoint {
    /// A read of `read_size` can take the endpoint from `pre` to `post`
    /// answering `r`.
    open spec fn read_spec(
        pre: &Self,
        read_size: u16,
        post: &Self,
        r: &Result<Vec<u8>, RcpError>,
    ) -> bool {
        true
    }

    /// A write of `payload` can take the endpoint from `pre` to `post`
    /// answering `r`.
    open spec fn write_spec(pre: &Self, payload: Seq<u8>, post: &Self, r: &Result<(), RcpError>) -> bool {
        true
    }

    /// This endpoint's register-map type.
    fn ep_type(&self) -> EndpointType;

    /// Answer a read of `read_size` (the request's raw `read_size`).
    fn read(&mut self, read_size: u16) -> (r: Result<Vec<u8>, RcpError>)
        ensures
            Self::read_spec(&*old(self), read_size, &*final(self), &r),
    ;

    /// Apply a write of the request's payload.
    fn write(&mut self, payload: &[u8]) -> (r: Result<(), RcpError>)
        ensures
            Self::write_spec(&*old(self), payload@, &*final(self), &r),
    ;
}

/// A byte-buffer endpoint: a write replaces the buffer, a read returns up to
/// `read_size` octets from its front.
#[derive(Debug, Clone)]
pub struct MockEndpoint {
    ep_type: EndpointType,
    buf: Vec<u8>,
}

impl MockEndpoint {
    /// This endpoint's type.
    pub closed spec fn kind(&self) -> EndpointType {
        self.ep_type
    }

    /// The octets this endpoint holds.
    pub closed spec fn contents(&self) -> Seq<u8> {
        self.buf@
    }

    /// An endpoint of type `ep_type` holding `initial`.
    pub fn new(ep_type: EndpointType, initial: Vec<u8>) -> (r: MockEndpoint)
        ensures
            r.kind() == ep_type,
            r.contents() == initial@,
    {
        MockEndpoint { ep_type, buf: initial }
    }
}

/// The first `min(read_size, len)` octets of `buf`.
pub open spec fn read_front(buf: Seq<u8>, read_size: u16) -> Seq<u8> {
    if (read_size as int) < buf.len() {
        buf.take(read_size as int)
    } else {
        buf
    }
}

impl Endpoint for MockEndpoint {
    /// A read leaves the endpoint as it is and answers the first
    /// `min(read_size, len)` octets it holds.
    open spec fn read_spec(
        pre: &Self,
        read_size: u16,
        post: &Self,
        r: &Result<Vec<u8>, RcpError>,
    ) -> bool {
        &&& *post == *pre
        &&& *r matches Ok(v) && v@ == read_front(pre.contents(), read_size)
    }

    /// A write replaces the octets held with `payload` and succeeds.
    open spec fn write_spec(pre: &Self, payload: Seq<u8>, post: &Self, r: &Result<(), RcpError>) -> bool {
        &&& post.kind() == pre.kind()
        &&& post.contents() == payload
        &&& *r == Ok::<(), RcpError>(())
    }

    fn ep_type(&self) -> (r: EndpointType)
        ensures
            r == self.kind(),
    {
        self.ep_type
    }

    fn read(&mut self, read_size: u16) -> (r: Result<Vec<u8>, RcpError>) {
        let n: usize = if (read_size as usize) < self.buf.len() {
            read_size as usize
        } else {
            self.buf.len()
        };
        let v = copy_range(self.buf.as_slice(), 0, n);
        proof {
            assert(v@ =~= read_front(self.buf@, read_size));
        }
        Ok(v)
    }

    fn write(&mut self, payload: &[u8]) -> (r: Result<(), RcpError>) {
        self.buf = copy_range(payload, 0, payload.len());
        proof {
            assert(payload@.subrange(0, payload@.len() as int) =~= payload@);
        }
        Ok(())
    }
}

/// An in-memory RC Server dispatching device requests to endpoints of type
/// `E`.
pub struct RcServer<E> {
    state: RcServerState,
    general: GeneralRegisters,
    root_client: Option<StreamId>,
    endpoints: EndpointTable,
    endpoint_impls: Vec<E>,
    sequence_num: u32,
}

/// The header of the response to a request with header `info`: the
/// request's own header, marked as a response.
pub open spec fn response_info(info: ByteMessageInfo) -> ByteMessageInfo {
    ByteMessageInfo { rsp: true, ..info }
}

/// What an EP0 access check answers `stream` for a request with header
/// `info`, given the server's lifecycle state and root client.
pub open spec fn ep0_check(
    state: RcServerState,
    root_client: Option<StreamId>,
    stream: StreamId,
    info: ByteMessageInfo,
) -> Result<(), RcpError> {
    if info.op && root_client != Some(stream) {
        Err(RcpError::UnauthorizedAccess)
    } else {
        ep0_access_result(state, RegisterCategory::General, info.op)
    }
}

impl<E: Endpoint> RcServer<E> {
    /// The server's lifecycle state.
    pub closed spec fn state_of(&self) -> RcServerState {
        self.state
    }

    /// The server's general register snapshot.
    pub closed spec fn general_of(&self) -> GeneralRegisters {
        self.general
    }

    /// The stream allowed to write EP0, if any.
    pub closed spec fn root_client_of(&self) -> Option<StreamId> {
        self.root_client
    }

    /// The registered endpoints: `(stream_id, byte_bus_id)` to endpoint id.
    pub closed spec fn endpoint_map(&self) -> Map<(u64, u16), u32> {
        self.endpoints.view_map()
    }

    /// How many endpoints have been registered.
    pub closed spec fn endpoint_count(&self) -> nat {
        self.endpoint_impls@.len()
    }

    /// The endpoint registered with id `i`.
    pub closed spec fn endpoint_at(&self, i: int) -> E {
        self.endpoint_impls@[i]
    }

    /// The next response frame's sequence counter.
    pub closed spec fn sequence_of(&self) -> u32 {
        self.sequence_num
    }

    /// Every registered pair names an endpoint that exists, and no pair is
    /// registered twice.
    pub closed spec fn wf(&self) -> bool {
        &&& self.endpoints.wf()
        &&& self.endpoint_impls@.len() <= u32::MAX
        &&& forall|k: (u64, u16)| #[trigger]
            self.endpoints.view_map().dom().contains(k) ==> self.endpoints.view_map()[k]
                < self.endpoint_impls@.len()
    }

    proof fn lemma_table_ids_fit(self)
        requires
            self.wf(),
        ensures
            forall|k: (u64, u16)| #[trigger] self.endpoint_map().dom().contains(k) ==> k.1 <= 0x7FF,
    {
        self.endpoints.lemma_registered_ids_fit();
    }

    /// `post` is `pre` with only the endpoint of id `id` possibly replaced.
    pub open spec fn same_but_endpoint(pre: Self, post: Self, id: int) -> bool {
        &&& post.state_of() == pre.state_of()
        &&& post.general_of() == pre.general_of()
        &&& post.root_client_of() == pre.root_client_of()
        &&& post.endpoint_map() == pre.endpoint_map()
        &&& post.endpoint_count() == pre.endpoint_count()
        &&& post.sequence_of() == pre.sequence_of()
        &&& forall|j: int|
            0 <= j < pre.endpoint_count() && j != id ==> #[trigger] post.endpoint_at(j)
                == pre.endpoint_at(j)
    }

    /// `post` differs from `pre` in nothing the contracts speak of.
    pub open spec fn same_view(pre: Self, post: Self) -> bool {
        &&& post.state_of() == pre.state_of()
        &&& post.general_of() == pre.general_of()
        &&& post.root_client_of() == pre.root_client_of()
        &&& post.endpoint_map() == pre.endpoint_map()
        &&& post.endpoint_count() == pre.endpoint_count()
        &&& post.sequence_of() == pre.sequence_of()
        &&& forall|j: int| 0 <= j < pre.endpoint_count() ==> #[trigger] post.endpoint_at(j) == pre.endpoint_at(j)
    }

    /// How the server answers, from `stream`, the ACF_ABB request with header
    /// `info` and payload `payload`, moving from `pre` to `post` with outcome
    /// `out`.
    ///
    /// EP0 (`byte_bus_id` 0): the access check decides; a permitted read
    /// answers the encoded snapshot; a permitted write would replace the
    /// snapshot with the decoded payload (`ShortFrame` if it is too short).
    /// Other addresses: `EpNotFound` when nothing is registered under
    /// `(stream, byte_bus_id)`; otherwise the registered endpoint handles it,
    /// and a success answers the endpoint's read data, or nothing for a write.
    /// Every answer carries the request's header marked as a response.
    pub open spec fn handled(
        pre: Self,
        post: Self,
        stream: StreamId,
        info: ByteMessageInfo,
        payload: Seq<u8>,
        out: Result<AcfAbbMessage, RcpError>,
    ) -> bool {
        let key = (stream.0, info.byte_bus_id);
        if info.byte_bus_id == 0 {
            match ep0_check(pre.state_of(), pre.root_client_of(), stream, info) {
                Err(e) => out == Err::<AcfAbbMessage, RcpError>(e) && Self::same_view(pre, post),
                Ok(()) => if !info.op {
                    &&& out matches Ok(m) && m.info == response_info(info) && m.payload@
                        == general_registers_bytes(pre.general_of())
                    &&& Self::same_view(pre, post)
                } else if payload.len() < 12 {
                    out == Err::<AcfAbbMessage, RcpError>(RcpError::ShortFrame) && Self::same_view(
                        pre,
                        post,
                    )
                } else {
                    &&& out matches Ok(m) && m.info == response_info(info) && m.payload@.len()
                        == 0
                    &&& post.general_of() == general_registers_of(payload)
                    &&& post.state_of() == pre.state_of()
                    &&& post.root_client_of() == pre.root_client_of()
                    &&& post.endpoint_map() == pre.endpoint_map()
                    &&& post.endpoint_count() == pre.endpoint_count()
                    &&& post.sequence_of() == pre.sequence_of()
                    &&& forall|j: int| 0 <= j < pre.endpoint_count() ==> #[trigger] post.endpoint_at(j) == pre.endpoint_at(j)
                },
            }
        } else if !pre.endpoint_map().dom().contains(key) {
            out == Err::<AcfAbbMessage, RcpError>(RcpError::EpNotFound) && Self::same_view(pre, post)
        } else {
            let id = pre.endpoint_map()[key] as int;
            &&& Self::same_but_endpoint(pre, post, id)
            &&& if info.op {
                exists|w: Result<(), RcpError>|
                    {
                        &&& #[trigger] E::write_spec(&pre.endpoint_at(id), payload, &post.endpoint_at(id), &w)
                        &&& match w {
                            Ok(()) => out matches Ok(m) && m.info == response_info(info)
                                && m.payload@.len() == 0,
                            Err(e) => out == Err::<AcfAbbMessage, RcpError>(e),
                        }
                    }
            } else {
                exists|rd: Result<Vec<u8>, RcpError>|
                    {
                        &&& #[trigger] E::read_spec(
                            &pre.endpoint_at(id),
                            info.read_size_segment_num.0 as u16,
                            &post.endpoint_at(id),
                            &rd,
                        )
                        &&& match rd {
                            Ok(v) => out matches Ok(m) && m.info == response_info(info)
                                && m.payload@ == v@,
                            Err(e) => out == Err::<AcfAbbMessage, RcpError>(e),
                        }
                    }
            }
        }
    }

    /// A fresh server: initial lifecycle state, snapshot `general`, no root
    /// client, no endpoints, sequence counter 0.
    pub fn new(general: GeneralRegisters) -> (r: Self)
        ensures
            r.wf(),
            r.state_of() == RcServerState::INITIAL,
            r.general_of() == general,
            r.root_client_of() == None::<StreamId>,
            r.endpoint_map() == Map::<(u64, u16), u32>::empty(),
            r.endpoint_count() == 0,
            r.sequence_of() == 0,
    {
        RcServer {
            state: RcServerState::INITIAL,
            general,
            root_client: None,
            endpoints: EndpointTable::new(),
            endpoint_impls: Vec::new(),
            sequence_num: 0,
        }
    }

    /// The server's current lifecycle state.
    pub fn state(&self) -> (r: RcServerState)
        ensures
            r == self.state_of(),
    {
        self.state
    }

    /// The server's current general register snapshot.
    pub fn general_registers(&self) -> (r: GeneralRegisters)
        ensures
            r == self.general_of(),
    {
        self.general
    }

    /// Move to `target` as [`RcServerState::try_transition`] decides; on
    /// failure the state is left unchanged.
    pub fn try_transition<F: FnOnce() -> bool>(&mut self, target: RcServerState, is_consistent: F) -> (r:
        Result<(), RcpError>)
        requires
            old(self).wf(),
            transition_defined(old(self).state_of(), target) ==> call_requires(is_consistent, ()),
        ensures
            final(self).wf(),
            final(self).general_of() == old(self).general_of(),
            final(self).root_client_of() == old(self).root_client_of(),
            final(self).endpoint_map() == old(self).endpoint_map(),
            final(self).endpoint_count() == old(self).endpoint_count(),
            final(self).sequence_of() == old(self).sequence_of(),
            forall|j: int| 0 <= j < old(self).endpoint_count() ==> #[trigger] final(self).endpoint_at(j) == old(self).endpoint_at(j),
            !transition_defined(old(self).state_of(), target) ==> r == Err::<(), RcpError>(
                RcpError::RequestRejected,
            ) && final(self).state_of() == old(self).state_of(),
            transition_defined(old(self).state_of(), target) ==> exists|ok: bool|
                {
                    &&& call_ensures(is_consistent, (), ok)
                    &&& ok ==> r == Ok::<(), RcpError>(()) && final(self).state_of() == target
                    &&& !ok ==> r == Err::<(), RcpError>(RcpError::InvalidParameter)
                        && final(self).state_of() == old(self).state_of()
                },
    {
        match self.state.try_transition(target, is_consistent) {
            Ok(s) => {
                self.state = s;
                Ok(())
            },
            Err(e) => Err(e),
        }
    }

    /// Designate `stream` (or nobody) as the one stream allowed to write EP0.
    pub fn set_root_client(&mut self, stream: Option<StreamId>)
        requires
            old(self).wf(),
        ensures
            final(self).wf(),
            final(self).root_client_of() == stream,
            final(self).state_of() == old(self).state_of(),
            final(self).general_of() == old(self).general_of(),
            final(self).endpoint_map() == old(self).endpoint_map(),
            final(self).endpoint_count() == old(self).endpoint_count(),
            final(self).sequence_of() == old(self).sequence_of(),
            forall|j: int| 0 <= j < old(self).endpoint_count() ==> #[trigger] final(self).endpoint_at(j) == old(self).endpoint_at(j),
    {
        self.root_client = stream;
    }

    /// Register `endpoint` under `(stream_id, byte_bus_id)` and return the id
    /// it was given: the number of endpoints registered before it.
    ///
    /// Fails, leaving the server unchanged, as the endpoint table's
    /// registration does: `InvalidSize` when `byte_bus_id` does not fit its
    /// 11 bits, `EpError` when the pair is already registered.
    pub fn register_endpoint(
        &mut self,
        stream_id: StreamId,
        byte_bus_id: u16,
        endpoint: E,
    ) -> (r: Result<EndpointId, RcpError>)
        requires
            old(self).wf(),
            old(self).endpoint_count() < u32::MAX,
        ensures
            final(self).wf(),
            final(self).state_of() == old(self).state_of(),
            final(self).general_of() == old(self).general_of(),
            final(self).root_client_of() == old(self).root_client_of(),
            final(self).sequence_of() == old(self).sequence_of(),
            forall|j: int| 0 <= j < old(self).endpoint_count() ==> #[trigger] final(self).endpoint_at(j) == old(self).endpoint_at(j),
            old(self).endpoint_map().dom().contains((stream_id.0, byte_bus_id)) ==> r == Err::<
                EndpointId,
                RcpError,
            >(RcpError::EpError),
            match r {
                Ok(id) => {
                    &&& byte_bus_id <= 0x7FF
                    &&& !old(self).endpoint_map().dom().contains((stream_id.0, byte_bus_id))
                    &&& id.0 == old(self).endpoint_count()
                    &&& final(self).endpoint_map() == old(self).endpoint_map().insert(
                        (stream_id.0, byte_bus_id),
                        id.0,
                    )
                    &&& final(self).endpoint_count() == old(self).endpoint_count() + 1
                    &&& final(self).endpoint_at(id.0 as int) == endpoint
                },
                Err(e) => {
                    &&& if byte_bus_id > 0x7FF {
                        e == RcpError::InvalidSize
                    } else {
                        old(self).endpoint_map().dom().contains((stream_id.0, byte_bus_id)) && e
                            == RcpError::EpError
                    }
                    &&& final(self).endpoint_map() == old(self).endpoint_map()
                    &&& final(self).endpoint_count() == old(self).endpoint_count()
                },
            },
    {
        let ghost old_map = self.endpoints.view_map();
        let ghost old_len = self.endpoint_impls@.len();
        let ghost old_impls = self.endpoint_impls@;
        let id = EndpointId(self.endpoint_impls.len() as u32);
        assert(id.0 == old_len);
        match self.endpoints.register(stream_id, byte_bus_id, id) {
            Ok(()) => {
                self.endpoint_impls.push(endpoint);
                assert(self.endpoint_impls@ == old_impls.push(endpoint));
                assert(self.endpoint_impls@.len() == old_len + 1);
                proof {
                    let key = (stream_id.0, byte_bus_id);
                    assert(self.endpoints.view_map() == old_map.insert(key, id.0));
                    assert forall|k: (u64, u16)| #[trigger]
                        self.endpoints.view_map().dom().contains(k) implies self.endpoints.view_map()[k]
                        < self.endpoint_impls@.len() by {
                        if k == key {
                            assert(self.endpoints.view_map()[k] == id.0);
                        } else {
                            assert(old_map.dom().contains(k));
                            assert(self.endpoints.view_map()[k] == old_map[k]);
                            assert(old_map[k] < old_len);
                        }
                    }
                }
                Ok(id)
            },
            Err(e) => Err(e),
        }
    }

    /// Answer the ACF_ABB request `request` from `stream_id` (see
    /// [`RcServer::handled`]).
    pub fn handle_abb(&mut self, stream_id: StreamId, request: &AcfAbbMessage) -> (r: Result<
        AcfAbbMessage,
        RcpError,
    >)
        requires
            old(self).wf(),
        ensures
            final(self).wf(),
            Self::handled(*old(self), *final(self), stream_id, request.info, request.payload@, r),
    {
        let ghost mut dev_read: Result<Vec<u8>, RcpError> = Err(RcpError::EpError);
        let ghost mut dev_write: Result<(), RcpError> = Err(RcpError::EpError);
        let response_payload: Vec<u8> = match route_byte_bus_id(request.info.byte_bus_id) {
            RequestRoute::Ep0 => {
                let state = self.state;
                let root_client = self.root_client;
                match check_ep0_access_for_stream(
                    state,
                    RegisterCategory::General,
                    &request.info,
                    stream_id,
                    root_client,
                ) {
                    Err(e) => {
                        return Err(e);
                    },
                    Ok(()) => {},
                }
                if request.info.op {
                    match GeneralRegisters::decode(request.payload.as_slice()) {
                        Err(e) => {
                            return Err(e);
                        },
                        Ok(decoded) => {
                            self.general = decoded;
                        },
                    }
                    Vec::new()
                } else {
                    let bytes = self.general.encode();
                    let v = copy_range(&bytes, 0, 12);
                    proof {
                        assert(bytes@.subrange(0, 12) =~= bytes@);
                    }
                    v
                }
            },
            RequestRoute::DeviceEndpoint => {
                let found = self.endpoints.lookup(stream_id, request.info.byte_bus_id);
                let endpoint_id = match found {
                    None => {
                        return Err(RcpError::EpNotFound);
                    },
                    Some(id) => id,
                };
                let idx = endpoint_id.0 as usize;
                proof {
                    assert(self.endpoints.view_map().dom().contains(
                        (stream_id.0, request.info.byte_bus_id),
                    ));
                }
                let ghost pre_ep = self.endpoint_impls@[idx as int];
                if request.info.op {
                    let w = self.endpoint_impls[idx].write(request.payload.as_slice());
                    proof {
                        dev_write = w;
                        assert(E::write_spec(&pre_ep, request.payload@, &self.endpoint_impls@[idx as int], &w));
                    }
                    proof {
                        let key = (stream_id.0, request.info.byte_bus_id);
                        assert(old(self).endpoint_map()[key] as int == idx as int);
                        assert(old(self).endpoint_at(idx as int) == pre_ep);
                        assert(self.endpoint_impls@ == old(self).endpoint_impls@.update(idx as int, self.endpoint_impls@[idx as int]));
                        assert(Self::same_but_endpoint(*old(self), *self, idx as int));
                    }
                    match w {
                        Err(e) => {
                            proof {
                                let id = idx as int;
                                assert(E::write_spec(&old(self).endpoint_at(id), request.payload@, &self.endpoint_at(id), &dev_write));
                            }
                            return Err(e);
                        },
                        Ok(()) => {},
                    }
                    Vec::new()
                } else {
                    let read_size = request.info.read_size_segment_num.as_read_size() as u16;
                    let rd = self.endpoint_impls[idx].read(read_size);
                    proof {
                        dev_read = rd;
                        assert(E::read_spec(&pre_ep, read_size, &self.endpoint_impls@[idx as int], &dev_read));
                    }
                    proof {
                        let key = (stream_id.0, request.info.byte_bus_id);
                        assert(old(self).endpoint_map()[key] as int == idx as int);
                        assert(old(self).endpoint_at(idx as int) == pre_ep);
                        assert(self.endpoint_impls@ == old(self).endpoint_impls@.update(idx as int, self.endpoint_impls@[idx as int]));
                        assert(Self::same_but_endpoint(*old(self), *self, idx as int));
                    }
                    match rd {
                        Err(e) => {
                            proof {
                                let id = idx as int;
                                assert(E::read_spec(&old(self).endpoint_at(id), request.info.read_size_segment_num.0 as u16, &self.endpoint_at(id), &dev_read));
                            }
                            return Err(e);
                        },
                        Ok(v) => v,
                    }
                }
            },
        };
        let response_info = build_response_info(&request.info, request.info);
        match verify_echo_back(&request.info, &response_info) {
            Err(e) => {
                return Err(e);
            },
            Ok(()) => {},
        }
        proof {
            if request.info.byte_bus_id != 0 {
                let id = old(self).endpoint_map()[(stream_id.0, request.info.byte_bus_id)] as int;
                if request.info.op {
                    assert(E::write_spec(&old(self).endpoint_at(id), request.payload@, &self.endpoint_at(id), &dev_write));
                } else {
                    assert(E::read_spec(&old(self).endpoint_at(id), request.info.read_size_segment_num.0 as u16, &self.endpoint_at(id), &dev_read));
                }
            }
        }
        Ok(AcfAbbMessage { info: response_info, payload: response_payload })
    }

    /// Answer a whole NTSCF-framed ACF_ABB request from `stream_id`: decode
    /// the frame and the message, handle it, and frame the response with
    /// the server's sequence counter (taken modulo 256), which then advances
    /// by one (wrapping).
    ///
    /// The decoding errors come back unchanged with the server untouched;
    /// after the request is handled, its error, an `InvalidSize` from
    /// encoding the response, or a `PayloadTooLarge` from framing it, come
    /// back as they are.
    pub fn handle_ntscf_frame(&mut self, stream_id: StreamId, frame: &[u8]) -> (r: Result<
        Vec<u8>,
        RcpError,
    >)
        requires
            old(self).wf(),
        ensures
            final(self).wf(),
            !ntscf_decodable(frame@) ==> r == Err::<Vec<u8>, RcpError>(ntscf_decode_error(frame@))
                && Self::same_view(*old(self), *final(self)),
            ntscf_decodable(frame@) ==> {
                let acf = frame@.subrange(12, 12 + ntscf_length(frame@));
                if !frame_decodable(acf, ACF_ABB_MSG_TYPE, 8) {
                    r == Err::<Vec<u8>, RcpError>(frame_decode_error(acf, ACF_ABB_MSG_TYPE, 8))
                        && Self::same_view(*old(self), *final(self))
                } else {
                    exists|mid: Self, out: Result<AcfAbbMessage, RcpError>|
                        {
                            &&& Self::handled(
                                *old(self),
                                mid,
                                stream_id,
                                info_of_bytes(acf),
                                frame_payload(acf, 8),
                                out,
                            )
                            &&& match out {
                                Err(e) => r == Err::<Vec<u8>, RcpError>(e) && Self::same_view(
                                    mid,
                                    *final(self),
                                ),
                                Ok(m) => if !frame_encodable(m.info, 8 + m.payload@.len() as int) {
                                    r == Err::<Vec<u8>, RcpError>(RcpError::InvalidSize)
                                        && Self::same_view(mid, *final(self))
                                } else {
                                    &&& final(self).sequence_of() == (mid.sequence_of() + 1) % 0x1_0000_0000
                                    &&& final(self).state_of() == mid.state_of()
                                    &&& final(self).general_of() == mid.general_of()
                                    &&& final(self).root_client_of() == mid.root_client_of()
                                    &&& final(self).endpoint_map() == mid.endpoint_map()
                                    &&& final(self).endpoint_count() == mid.endpoint_count()
                                    &&& forall|j: int| 0 <= j < mid.endpoint_count() ==> #[trigger] final(self).endpoint_at(j) == mid.endpoint_at(j)
                                    &&& if abb_frame(m).len() > 0x7FF {
                                        r == Err::<Vec<u8>, RcpError>(RcpError::PayloadTooLarge)
                                    } else {
                                        r matches Ok(v) && v@ == ntscf_frame(
                                            stream_id.0,
                                            (mid.sequence_of() % 256) as u8,
                                            abb_frame(m),
                                        )
                                    }
                                },
                            }
                        }
                }
            },
    {
        let (_hdr, acf_bytes) = match decode_ntscf_frame(frame) {
            Err(e) => {
                return Err(e);
            },
            Ok(x) => x,
        };
        let request = match decode_acf_abb(acf_bytes) {
            Err(e) => {
                return Err(e);
            },
            Ok(m) => m,
        };
        let ghost pre = *self;
        let response = self.handle_abb(stream_id, &request);
        let ghost mid = *self;
        let response = match response {
            Err(e) => {
                return Err(e);
            },
            Ok(m) => m,
        };
        let response_bytes = match encode_acf_abb(&response) {
            Err(e) => {
                return Err(e);
            },
            Ok(b) => b,
        };
        let seq = (self.sequence_num % 256) as u8;
        self.sequence_num = self.sequence_num.wrapping_add(1);
        encode_ntscf_frame(stream_id, seq, response_bytes.as_slice())
    }
}

/// An EP0 read is answered in every lifecycle state, to any stream, with
/// the encoded snapshot, and changes nothing.
pub proof fn lemma_ep0_read_always_answered<E: Endpoint>(
    pre: RcServer<E>,
    post: RcServer<E>,
    stream: StreamId,
    info: ByteMessageInfo,
    payload: Seq<u8>,
    out: Result<AcfAbbMessage, RcpError>,
)
    requires
        info.byte_bus_id == 0,
        !info.op,
        RcServer::handled(pre, post, stream, info, payload, out),
    ensures
        out matches Ok(m) && m.payload@ == general_registers_bytes(pre.general_of()),
        RcServer::same_view(pre, post),
{
}

/// An EP0 write never succeeds and never changes the snapshot: the general
/// register block is never writable, so the access check refuses it, with
/// `UnauthorizedAccess` for a stream other than the root client and
/// `LockedMemAccess` for the root client.
pub proof fn lemma_ep0_write_never_applied<E: Endpoint>(
    pre: RcServer<E>,
    post: RcServer<E>,
    stream: StreamId,
    info: ByteMessageInfo,
    payload: Seq<u8>,
    out: Result<AcfAbbMessage, RcpError>,
)
    requires
        info.byte_bus_id == 0,
        info.op,
        RcServer::handled(pre, post, stream, info, payload, out),
    ensures
        out == Err::<AcfAbbMessage, RcpError>(
            if pre.root_client_of() == Some(stream) {
                RcpError::LockedMemAccess
            } else {
                RcpError::UnauthorizedAccess
            },
        ),
        RcServer::same_view(pre, post),
{
}

/// Every answer carries the request's own header, changed only in being
/// marked as a response: it echoes the `byte_bus_id`, and keeps `err`, `op`,
/// `evt` and the rest as the request had them.
pub proof fn lemma_response_echoes_request<E: Endpoint>(
    pre: RcServer<E>,
    post: RcServer<E>,
    stream: StreamId,
    info: ByteMessageInfo,
    payload: Seq<u8>,
    out: Result<AcfAbbMessage, RcpError>,
)
    requires
        RcServer::handled(pre, post, stream, info, payload, out),
    ensures
        out matches Ok(m) ==> m.info.byte_bus_id == info.byte_bus_id && m.info.rsp,
        out matches Ok(m) ==> m.info == (ByteMessageInfo { rsp: true, ..info }),
        out matches Ok(m) ==> m.info.err == info.err && m.info.op == info.op && m.info.evt
            == info.evt && m.info.read_size_segment_num == info.read_size_segment_num,
{
}

/// A device request is only ever dispatched to an endpoint registered under
/// the requesting stream: a `byte_bus_id` registered under another stream
/// only is answered `EpNotFound`, and nothing changes.
pub proof fn lemma_endpoints_scoped_by_stream<E: Endpoint>(
    pre: RcServer<E>,
    post: RcServer<E>,
    stream: StreamId,
    info: ByteMessageInfo,
    payload: Seq<u8>,
    out: Result<AcfAbbMessage, RcpError>,
)
    requires
        info.byte_bus_id != 0,
        !pre.endpoint_map().dom().contains((stream.0, info.byte_bus_id)),
        RcServer::handled(pre, post, stream, info, payload, out),
    ensures
        out == Err::<AcfAbbMessage, RcpError>(RcpError::EpNotFound),
        RcServer::same_view(pre, post),
{
}

/// Every `byte_bus_id` registered with a server fits its 11 bits.
pub proof fn lemma_registered_ids_fit<E: Endpoint>(srv: RcServer<E>)
    requires
        srv.wf(),
    ensures
        forall|k: (u64, u16)| #[trigger] srv.endpoint_map().dom().contains(k) ==> k.1 <= 0x7FF,
{
    srv.lemma_table_ids_fit();
}

} // verus!
