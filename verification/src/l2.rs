//! Layer-2 transport: Ethernet framing of AVTPDUs (EtherType `0x22F0`) and a
//! request/response transport over a user-supplied raw socket.
use vstd::prelude::*;

use std::sync::Arc;

use crate::acf::{
    self, abb_frame, frame_decodable, frame_decode_error, frame_encodable, frame_payload,
    gbb_frame, info_of_bytes, AcfAbbMessage, AcfGbbMessage,
};
use crate::avtp::{self, ntscf_decodable, ntscf_decode_error, ntscf_frame, ntscf_length, StreamId};
use crate::wire::{be16, from_be64, push_all, push_be16};
use crate::RcpError;

verus! {

/// The AVTP EtherType.
pub const ETHERTYPE_AVTP: u16 = 0x22F0;

/// Length of an Ethernet header, in octets.
pub const ETHERNET_HEADER_LEN: usize = 14;

/// The Ethernet frame carrying `avtpdu`: destination MAC, source MAC,
/// EtherType (big-endian), then the AVTPDU.
pub open spec fn ethernet_frame(dest: Seq<u8>, src: Seq<u8>, avtpdu: Seq<u8>) -> Seq<u8> {
    dest + src + be16(ETHERTYPE_AVTP) + avtpdu
}

/// Wraps `avtpdu` in an Ethernet header.
pub fn encode_ethernet_frame(dest_mac: [u8; 6], src_mac: [u8; 6], avtpdu: &[u8]) -> (r: Vec<u8>)
    ensures
        r@ == ethernet_frame(dest_mac@, src_mac@, avtpdu@),
{
    let mut frame: Vec<u8> = Vec::new();
    push_all(&mut frame, dest_mac.as_slice());
    push_all(&mut frame, src_mac.as_slice());
    push_be16(&mut frame, ETHERTYPE_AVTP);
    push_all(&mut frame, avtpdu);
    frame
}

/// A decoded Ethernet frame: destination MAC, source MAC, AVTPDU.
pub type DecodedEthernetFrame<'a> = ([u8; 6], [u8; 6], &'a [u8]);

/// The frame's EtherType.
pub open spec fn ethertype_of(s: Seq<u8>) -> int {
    s[12] * 256 + s[13]
}

/// The lower-case hexadecimal digit of `n` (below 16).
pub open spec fn hex_lower_digit(n: int) -> Seq<char> {
    if n < 10 {
        seq![('0' as u8 + n) as char]
    } else {
        seq![('a' as u8 + (n - 10)) as char]
    }
}

/// The four lower-case hexadecimal digits of `x`.
pub open spec fn hex4_lower(x: int) -> Seq<char> {
    hex_lower_digit(x / 4096) + hex_lower_digit((x / 256) % 16) + hex_lower_digit((x / 16) % 16)
        + hex_lower_digit(x % 16)
}

/// The message of the error reporting a frame of EtherType `ethertype`.
pub open spec fn unexpected_ethertype_message(ethertype: int) -> Seq<char> {
    "l2: unexpected EtherType 0x"@ + hex4_lower(ethertype) + ", expected 0x22f0"@
}

/// Splits an Ethernet frame into its MACs and AVTPDU. Fails with
/// `ShortFrame` below fourteen octets and with an `Other` error naming the
/// EtherType when it is not AVTP's.
pub fn decode_ethernet_frame(frame: &[u8]) -> (r: Result<DecodedEthernetFrame<'_>, RcpError>)
    ensures
        match r {
            Ok((d, s, p)) => frame@.len() >= 14 && ethertype_of(frame@) == 0x22F0 && d@
                == frame@.subrange(0, 6) && s@ == frame@.subrange(6, 12) && p@ == frame@.subrange(
                14,
                frame@.len() as int,
            ),
            Err(e) => if frame@.len() < 14 {
                e == RcpError::ShortFrame
            } else {
                ethertype_of(frame@) != 0x22F0 && (e matches RcpError::Other(m) && m@
                    == unexpected_ethertype_message(ethertype_of(frame@)))
            },
        },
{
    if frame.len() < ETHERNET_HEADER_LEN {
        return Err(RcpError::ShortFrame);
    }
    let ethertype = (frame[12] as u16) * 256 + frame[13] as u16;
    if ethertype != ETHERTYPE_AVTP {
        return Err(RcpError::Other(unexpected_ethertype_text(ethertype)));
    }
    let dest_mac: [u8; 6] = [frame[0], frame[1], frame[2], frame[3], frame[4], frame[5]];
    let src_mac: [u8; 6] = [frame[6], frame[7], frame[8], frame[9], frame[10], frame[11]];
    assert(dest_mac@ =~= frame@.subrange(0, 6));
    assert(src_mac@ =~= frame@.subrange(6, 12));
    let payload = vstd::slice::slice_subrange(frame, ETHERNET_HEADER_LEN, frame.len());
    Ok((dest_mac, src_mac, payload))
}

fn hex_lower_digit_str(n: u16) -> (r: &'static str)
    requires
        n < 16,
    ensures
        r@ == hex_lower_digit(n as int),
{
    proof {
        reveal_strlit("0");
        reveal_strlit("1");
        reveal_strlit("2");
        reveal_strlit("3");
        reveal_strlit("4");
        reveal_strlit("5");
        reveal_strlit("6");
        reveal_strlit("7");
        reveal_strlit("8");
        reveal_strlit("9");
        reveal_strlit("a");
        reveal_strlit("b");
        reveal_strlit("c");
        reveal_strlit("d");
        reveal_strlit("e");
        reveal_strlit("f");
    }
    let r = match n {
        0 => "0",
        1 => "1",
        2 => "2",
        3 => "3",
        4 => "4",
        5 => "5",
        6 => "6",
        7 => "7",
        8 => "8",
        9 => "9",
        10 => "a",
        11 => "b",
        12 => "c",
        13 => "d",
        14 => "e",
        _ => "f",
    };
    assert(r@ =~= hex_lower_digit(n as int));
    r
}

fn unexpected_ethertype_text(ethertype: u16) -> (r: String)
    ensures
        r@ == unexpected_ethertype_message(ethertype as int),
{
    let s = String::from_str("l2: unexpected EtherType 0x");
    let s = s.concat(hex_lower_digit_str(ethertype / 4096));
    let s = s.concat(hex_lower_digit_str((ethertype / 256) % 16));
    let s = s.concat(hex_lower_digit_str((ethertype / 16) % 16));
    let s = s.concat(hex_lower_digit_str(ethertype % 16));
    let s = s.concat(", expected 0x22f0");
    proof {
        reveal_strlit("l2: unexpected EtherType 0x");
        reveal_strlit(", expected 0x22f0");
    }
    assert(s@ =~= unexpected_ethertype_message(ethertype as int));
    s
}

/// Decoding an encoded Ethernet frame gives back its MACs and AVTPDU.
pub proof fn lemma_ethernet_roundtrip(dest: Seq<u8>, src: Seq<u8>, avtpdu: Seq<u8>)
    requires
        dest.len() == 6,
        src.len() == 6,
    ensures
        ethernet_frame(dest, src, avtpdu).len() >= 14,
        ethertype_of(ethernet_frame(dest, src, avtpdu)) == 0x22F0,
        ethernet_frame(dest, src, avtpdu).subrange(0, 6) == dest,
        ethernet_frame(dest, src, avtpdu).subrange(6, 12) == src,
        ethernet_frame(dest, src, avtpdu).subrange(
            14,
            ethernet_frame(dest, src, avtpdu).len() as int,
        ) == avtpdu,
{
    let f = ethernet_frame(dest, src, avtpdu);
    assert(f.subrange(0, 6) =~= dest);
    assert(f.subrange(6, 12) =~= src);
    assert(f.subrange(14, f.len() as int) =~= avtpdu);
    assert(f[12] == ((0x22F0u16 >> 8u16) as u8) && f[13] == (0x22F0u16 as u8));
    assert(((0x22F0u16 >> 8u16) as u8) == 0x22u8 && (0x22F0u16 as u8) == 0xF0u8) by (bit_vector);
}

/// A raw layer-2 socket, supplied by the user of [`L2Transport`].
///
/// Timeouts are whole nanoseconds: `None` waits forever, `Some(0)` is the
/// zero timeout.
///
/// `send_spec` and `recv_spec` say what a socket can answer. A socket that
/// does not define them promises nothing (they hold of everything).
pub trait L2Socket {
    /// Sending `frame` can answer `r`.
    open spec fn send_spec(&self, frame: Seq<u8>, r: &Result<usize, RcpError>) -> bool {
        true
    }

    /// Receiving with `timeout_ns` can answer `r`.
    open spec fn recv_spec(&self, timeout_ns: Option<u128>, r: &Result<Vec<u8>, RcpError>) -> bool {
        true
    }

    /// Sends one frame; returns the number of octets sent.
    fn send(&self, frame: &[u8]) -> (r: Result<usize, RcpError>)
        ensures
            self.send_spec(frame@, &r),
    ;

    /// Receives one frame, waiting at most `timeout_ns` nanoseconds (forever
    /// for `None`).
    fn recv(&self, timeout_ns: Option<u128>) -> (r: Result<Vec<u8>, RcpError>)
        ensures
            self.recv_spec(timeout_ns, &r),
    ;
}

/// Whether interface `c` (its name and whether it has a link-layer address)
/// is a raw socket's candidate for the interface named `wanted`.
pub open spec fn interface_matches(c: (Seq<char>, bool), wanted: Seq<char>) -> bool {
    c.0 == wanted && c.1
}

/// The interface a raw socket binds to: the first of `interfaces` (each its
/// name and whether it has a link-layer address) named `wanted` that has a
/// link-layer address, or `None` when there is none.
pub fn select_link_interface(interfaces: &[(String, bool)], wanted: &str) -> (r: Option<usize>)
    ensures
        match r {
            Some(i) => {
                &&& i < interfaces@.len()
                &&& interface_matches((interfaces@[i as int].0@, interfaces@[i as int].1), wanted@)
                &&& forall|j: int|
                    0 <= j < i ==> !interface_matches(
                        (#[trigger] interfaces@[j].0@, interfaces@[j].1),
                        wanted@,
                    )
            },
            None => forall|j: int|
                0 <= j < interfaces@.len() ==> !interface_matches(
                    (#[trigger] interfaces@[j].0@, interfaces@[j].1),
                    wanted@,
                ),
        },
{
    let key = wanted.to_owned();
    let mut i: usize = 0;
    while i < interfaces.len()
        invariant
            i <= interfaces@.len(),
            key@ == wanted@,
            forall|j: int|
                0 <= j < i ==> !interface_matches(
                    (#[trigger] interfaces@[j].0@, interfaces@[j].1),
                    wanted@,
                ),
        decreases interfaces.len() - i,
    {
        if interfaces[i].1 && interfaces[i].0 == key {
            return Some(i);
        }
        i = i + 1;
    }
    None
}

/// The request frame an ACF_ABB message goes out as: the message encoded,
/// wrapped in an NTSCF frame of `local_stream` and `sequence_num`, wrapped in
/// an Ethernet frame.
pub open spec fn abb_request_frame(
    dest: Seq<u8>,
    src: Seq<u8>,
    local_stream: u64,
    sequence_num: u8,
    msg: AcfAbbMessage,
) -> Seq<u8> {
    ethernet_frame(dest, src, ntscf_frame(local_stream, sequence_num, abb_frame(msg)))
}

pub open spec fn gbb_request_frame(
    dest: Seq<u8>,
    src: Seq<u8>,
    local_stream: u64,
    sequence_num: u8,
    msg: AcfGbbMessage,
) -> Seq<u8> {
    ethernet_frame(dest, src, ntscf_frame(local_stream, sequence_num, gbb_frame(msg)))
}

/// The AVTPDU of an Ethernet frame, and the ACF payload of that AVTPDU.
pub open spec fn response_acf(frame: Seq<u8>) -> Seq<u8> {
    let avtpdu = frame.subrange(14, frame.len() as int);
    avtpdu.subrange(12, 12 + ntscf_length(avtpdu))
}

/// The received frame carries a well-formed NTSCF AVTPDU.
pub open spec fn response_framing_ok(frame: Seq<u8>) -> bool {
    &&& frame.len() >= 14
    &&& ethertype_of(frame) == 0x22F0
    &&& ntscf_decodable(frame.subrange(14, frame.len() as int))
}

/// `frame` answers a request to `byte_bus_id` with a well-formed message of
/// `msg_type` whose header occupies `header_len` octets, echoing the
/// request's `byte_bus_id`.
pub open spec fn response_ok(frame: Seq<u8>, msg_type: u8, header_len: int, byte_bus_id: u16) -> bool {
    &&& response_framing_ok(frame)
    &&& frame_decodable(response_acf(frame), msg_type, header_len)
    &&& info_of_bytes(response_acf(frame)).byte_bus_id == byte_bus_id
}

/// `e` is the error parsing `frame` reports when it is not
/// [`response_ok`]: that of the first layer that fails (Ethernet, NTSCF,
/// ACF), or `EpError` when only the echo-back rule fails.
pub open spec fn response_error(
    frame: Seq<u8>,
    msg_type: u8,
    header_len: int,
    e: RcpError,
) -> bool {
    let avtpdu = frame.subrange(14, frame.len() as int);
    if frame.len() < 14 {
        e == RcpError::ShortFrame
    } else if ethertype_of(frame) != 0x22F0 {
        e matches RcpError::Other(m) && m@ == unexpected_ethertype_message(ethertype_of(frame))
    } else if !ntscf_decodable(avtpdu) {
        e == ntscf_decode_error(avtpdu)
    } else if !frame_decodable(response_acf(frame), msg_type, header_len) {
        e == frame_decode_error(response_acf(frame), msg_type, header_len)
    } else {
        e == RcpError::EpError
    }
}

/// Builds the Ethernet frame an ACF_ABB request goes out as. Fails as
/// [`acf::encode_acf_abb`] and [`avtp::encode_ntscf_frame`] do.
pub fn build_abb_request_frame(
    dest_mac: [u8; 6],
    src_mac: [u8; 6],
    local_stream: StreamId,
    sequence_num: u8,
    msg: &AcfAbbMessage,
) -> (r: Result<Vec<u8>, RcpError>)
    ensures
        match r {
            Ok(v) => frame_encodable(msg.info, 8 + msg.payload@.len() as int) && abb_frame(
                *msg,
            ).len() <= 0x7FF && v@ == abb_request_frame(
                dest_mac@,
                src_mac@,
                local_stream.0,
                sequence_num,
                *msg,
            ),
            Err(e) => if !frame_encodable(msg.info, 8 + msg.payload@.len() as int) {
                e == RcpError::InvalidSize
            } else {
                abb_frame(*msg).len() > 0x7FF && e == RcpError::PayloadTooLarge
            },
        },
{
    let payload = acf::encode_acf_abb(msg)?;
    let ntscf = avtp::encode_ntscf_frame(local_stream, sequence_num, payload.as_slice())?;
    Ok(encode_ethernet_frame(dest_mac, src_mac, ntscf.as_slice()))
}

/// Builds the Ethernet frame an ACF_GBB request goes out as. Fails as
/// [`acf::encode_acf_gbb`] and [`avtp::encode_ntscf_frame`] do.
pub fn build_gbb_request_frame(
    dest_mac: [u8; 6],
    src_mac: [u8; 6],
    local_stream: StreamId,
    sequence_num: u8,
    msg: &AcfGbbMessage,
) -> (r: Result<Vec<u8>, RcpError>)
    ensures
        match r {
            Ok(v) => frame_encodable(msg.info, 16 + msg.payload@.len() as int) && gbb_frame(
                *msg,
            ).len() <= 0x7FF && v@ == gbb_request_frame(
                dest_mac@,
                src_mac@,
                local_stream.0,
                sequence_num,
                *msg,
            ),
            Err(e) => if !frame_encodable(msg.info, 16 + msg.payload@.len() as int) {
                e == RcpError::InvalidSize
            } else {
                gbb_frame(*msg).len() > 0x7FF && e == RcpError::PayloadTooLarge
            },
        },
{
    let payload = acf::encode_acf_gbb(msg)?;
    let ntscf = avtp::encode_ntscf_frame(local_stream, sequence_num, payload.as_slice())?;
    Ok(encode_ethernet_frame(dest_mac, src_mac, ntscf.as_slice()))
}

/// What parsing `frame` as the answer to an ACF_ABB request to `byte_bus_id`
/// gives: the decoded response when [`response_ok`], else the first failing
/// layer's error.
pub open spec fn abb_parsed(byte_bus_id: u16, frame: Seq<u8>, r: Result<AcfAbbMessage, RcpError>) -> bool {
    match r {
        Ok(resp) => {
            &&& response_ok(frame, acf::ACF_ABB_MSG_TYPE, 8, byte_bus_id)
            &&& resp.info == info_of_bytes(response_acf(frame))
            &&& resp.payload@ == frame_payload(response_acf(frame), 8)
        },
        Err(e) => !response_ok(frame, acf::ACF_ABB_MSG_TYPE, 8, byte_bus_id) && response_error(
            frame,
            acf::ACF_ABB_MSG_TYPE,
            8,
            e,
        ),
    }
}

/// What parsing `frame` as the answer to an ACF_GBB request to `byte_bus_id`
/// gives, as [`abb_parsed`] does for ACF_ABB.
pub open spec fn gbb_parsed(byte_bus_id: u16, frame: Seq<u8>, r: Result<AcfGbbMessage, RcpError>) -> bool {
    match r {
        Ok(resp) => {
            &&& response_ok(frame, acf::ACF_GBB_MSG_TYPE, 16, byte_bus_id)
            &&& resp.info == info_of_bytes(response_acf(frame))
            &&& resp.message_timestamp == from_be64(response_acf(frame).subrange(8, 16))
            &&& resp.payload@ == frame_payload(response_acf(frame), 16)
        },
        Err(e) => !response_ok(frame, acf::ACF_GBB_MSG_TYPE, 16, byte_bus_id) && response_error(
            frame,
            acf::ACF_GBB_MSG_TYPE,
            16,
            e,
        ),
    }
}

/// Parses the frame received in answer to `request`: Ethernet, then NTSCF,
/// then ACF_ABB, then the echo-back rule. `Ok` exactly when every layer
/// decodes and the response echoes the request's `byte_bus_id`; the first
/// layer that fails decides the error (`EpError` for the echo-back rule).
pub fn parse_abb_response(request: &AcfAbbMessage, frame: &[u8]) -> (r: Result<
    AcfAbbMessage,
    RcpError,
>)
    ensures
        abb_parsed(request.info.byte_bus_id, frame@, r),
{
    let (_dest, _src, resp_ntscf) = decode_ethernet_frame(frame)?;
    let (_, resp_payload) = avtp::decode_ntscf_frame(resp_ntscf)?;
    let resp = acf::decode_acf_abb(resp_payload)?;
    acf::verify_echo_back(&request.info, &resp.info)?;
    Ok(resp)
}

/// Parses the frame received in answer to an ACF_GBB `request`, as
/// [`parse_abb_response`] does for ACF_ABB.
pub fn parse_gbb_response(request: &AcfGbbMessage, frame: &[u8]) -> (r: Result<
    AcfGbbMessage,
    RcpError,
>)
    ensures
        gbb_parsed(request.info.byte_bus_id, frame@, r),
{
    let (_dest, _src, resp_ntscf) = decode_ethernet_frame(frame)?;
    let (_, resp_payload) = avtp::decode_ntscf_frame(resp_ntscf)?;
    let resp = acf::decode_acf_gbb(resp_payload)?;
    acf::verify_echo_back(&request.info, &resp.info)?;
    Ok(resp)
}

/// A request/response transport over a raw layer-2 socket.
pub struct L2Transport<S: L2Socket + ?Sized> {
    local_stream: StreamId,
    socket: Arc<S>,
    dest_mac: [u8; 6],
    src_mac: [u8; 6],
}

impl<S: L2Socket + ?Sized> L2Transport<S> {
    /// The socket the transport sends and receives on.
    pub closed spec fn socket_of(&self) -> Arc<S> {
        self.socket
    }

    pub closed spec fn local_stream_spec(&self) -> StreamId {
        self.local_stream
    }

    pub closed spec fn dest_mac_spec(&self) -> Seq<u8> {
        self.dest_mac@
    }

    pub closed spec fn src_mac_spec(&self) -> Seq<u8> {
        self.src_mac@
    }

    /// A transport for `local_stream` over `socket`, addressing `dest_mac`
    /// from `src_mac`.
    pub fn new(local_stream: StreamId, socket: Arc<S>, dest_mac: [u8; 6], src_mac: [u8; 6]) -> (r:
        L2Transport<S>)
        ensures
            r.local_stream_spec() == local_stream,
            r.dest_mac_spec() == dest_mac@,
            r.src_mac_spec() == src_mac@,
    {
        L2Transport { local_stream, socket, dest_mac, src_mac }
    }

    pub fn local_stream(&self) -> (r: StreamId)
        ensures
            r == self.local_stream_spec(),
    {
        self.local_stream
    }

    pub fn dest_mac(&self) -> (r: [u8; 6])
        ensures
            r@ == self.dest_mac_spec(),
    {
        self.dest_mac
    }

    pub fn src_mac(&self) -> (r: [u8; 6])
        ensures
            r@ == self.src_mac_spec(),
    {
        self.src_mac
    }

    /// Sends an ACF_ABB request and returns the response to it.
    ///
    /// A zero timeout (`Some(0)`) fails with `Timeout` before anything is
    /// built or sent. Otherwise the request frame is built (failing as
    /// [`build_abb_request_frame`] does), handed to the socket's `send`, and
    /// the frame the socket's `recv` answers is parsed as
    /// [`parse_abb_response`] does; a socket error comes back as it is.
    pub fn send_acf_abb(&self, msg: &AcfAbbMessage, sequence_num: u8, timeout_ns: Option<u128>) -> (r:
        Result<AcfAbbMessage, RcpError>)
        ensures
            timeout_ns == Some(0u128) ==> r == Err::<AcfAbbMessage, RcpError>(RcpError::Timeout),
            timeout_ns != Some(0u128) ==> if !frame_encodable(msg.info, 8 + msg.payload@.len() as int) {
                r == Err::<AcfAbbMessage, RcpError>(RcpError::InvalidSize)
            } else if abb_frame(*msg).len() > 0x7FF {
                r == Err::<AcfAbbMessage, RcpError>(RcpError::PayloadTooLarge)
            } else {
                exists|sent: Result<usize, RcpError>|
                    {
                        &&& #[trigger] self.socket_of().send_spec(
                            abb_request_frame(
                                self.dest_mac_spec(),
                                self.src_mac_spec(),
                                self.local_stream_spec().0,
                                sequence_num,
                                *msg,
                            ),
                            &sent,
                        )
                        &&& match sent {
                            Err(e) => r == Err::<AcfAbbMessage, RcpError>(e),
                            Ok(_) => exists|got: Result<Vec<u8>, RcpError>|
                                {
                                    &&& #[trigger] self.socket_of().recv_spec(timeout_ns, &got)
                                    &&& match got {
                                        Err(e) => r == Err::<AcfAbbMessage, RcpError>(e),
                                        Ok(f) => abb_parsed(msg.info.byte_bus_id, f@, r),
                                    }
                                },
                        }
                    }
            },
    {
        if let Some(t) = timeout_ns {
            if t == 0 {
                return Err(RcpError::Timeout);
            }
        }
        let frame = build_abb_request_frame(
            self.dest_mac,
            self.src_mac,
            self.local_stream,
            sequence_num,
            msg,
        )?;
        let sent = self.socket.send(frame.as_slice());
        proof {
            assert(frame@ == abb_request_frame(
                self.dest_mac_spec(),
                self.src_mac_spec(),
                self.local_stream_spec().0,
                sequence_num,
                *msg,
            ));
            assert(self.socket_of().send_spec(frame@, &sent));
        }
        match sent {
            Err(e) => {
                return Err(e);
            },
            Ok(_) => {},
        }
        let got = self.socket.recv(timeout_ns);
        proof {
            assert(self.socket_of().recv_spec(timeout_ns, &got));
        }
        let resp_frame = match got {
            Err(e) => {
                return Err(e);
            },
            Ok(f) => f,
        };
        parse_abb_response(msg, resp_frame.as_slice())
    }

    /// Sends an ACF_GBB request and returns the response to it.
    ///
    /// A zero timeout (`Some(0)`) fails with `Timeout` before anything is
    /// built or sent. Otherwise the request frame is built (failing as
    /// [`build_gbb_request_frame`] does), handed to the socket's `send`, and
    /// the frame the socket's `recv` answers is parsed as
    /// [`parse_gbb_response`] does; a socket error comes back as it is.
    pub fn send_acf_gbb(&self, msg: &AcfGbbMessage, sequence_num: u8, timeout_ns: Option<u128>) -> (r:
        Result<AcfGbbMessage, RcpError>)
        ensures
            timeout_ns == Some(0u128) ==> r == Err::<AcfGbbMessage, RcpError>(RcpError::Timeout),
            timeout_ns != Some(0u128) ==> if !frame_encodable(msg.info, 16 + msg.payload@.len() as int) {
                r == Err::<AcfGbbMessage, RcpError>(RcpError::InvalidSize)
            } else if gbb_frame(*msg).len() > 0x7FF {
                r == Err::<AcfGbbMessage, RcpError>(RcpError::PayloadTooLarge)
            } else {
                exists|sent: Result<usize, RcpError>|
                    {
                        &&& #[trigger] self.socket_of().send_spec(
                            gbb_request_frame(
                                self.dest_mac_spec(),
                                self.src_mac_spec(),
                                self.local_stream_spec().0,
                                sequence_num,
                                *msg,
                            ),
                            &sent,
                        )
                        &&& match sent {
                            Err(e) => r == Err::<AcfGbbMessage, RcpError>(e),
                            Ok(_) => exists|got: Result<Vec<u8>, RcpError>|
                                {
                                    &&& #[trigger] self.socket_of().recv_spec(timeout_ns, &got)
                                    &&& match got {
                                        Err(e) => r == Err::<AcfGbbMessage, RcpError>(e),
                                        Ok(f) => gbb_parsed(msg.info.byte_bus_id, f@, r),
                                    }
                                },
                        }
                    }
            },
    {
        if let Some(t) = timeout_ns {
            if t == 0 {
                return Err(RcpError::Timeout);
            }
        }
        let frame = build_gbb_request_frame(
            self.dest_mac,
            self.src_mac,
            self.local_stream,
            sequence_num,
            msg,
        )?;
        let sent = self.socket.send(frame.as_slice());
        proof {
            assert(frame@ == gbb_request_frame(
                self.dest_mac_spec(),
                self.src_mac_spec(),
                self.local_stream_spec().0,
                sequence_num,
                *msg,
            ));
            assert(self.socket_of().send_spec(frame@, &sent));
        }
        match sent {
            Err(e) => {
                return Err(e);
            },
            Ok(_) => {},
        }
        let got = self.socket.recv(timeout_ns);
        proof {
            assert(self.socket_of().recv_spec(timeout_ns, &got));
        }
        let resp_frame = match got {
            Err(e) => {
                return Err(e);
            },
            Ok(f) => f,
        };
        parse_gbb_response(msg, resp_frame.as_slice())
    }

    /// Closes the transport (nothing to release).
    pub fn close(&self) -> (r: Result<(), RcpError>)
        ensures
            r is Ok,
    {
        Ok(())
    }
}

} // verus!
