//! ACF byte-message framing: the 8-octet `byte_message_info` header and the
//! ACF_ABB / ACF_GBB messages built on it.
//!
//! Wire layout of `byte_message_info` (octet: bits):
//! - 0: `acf_msg_type` (7 bits, MSBs), then bit 8 of `acf_msg_length`;
//! - 1: `acf_msg_length` bits 7..0 (the length counts quadlets);
//! - 2: `pad` (2 bits, MSBs), `ms` (bit 5), `op` (bit 4), bits 10..8 of
//!   `byte_bus_id` (bits 2..0);
//! - 3: `byte_bus_id` bits 7..0;
//! - 4: `read_size` / `segment_num`;
//! - 5: `evt.sub_opcode` (bits 2..0);
//! - 6: `rsp` (bit 6), `err` (bit 5);
//! - 7: reserved, zero.
use vstd::prelude::*;

use crate::wire::{be64, from_be64, push_all, push_be64, push_zeros, copy_range, lemma_be64_roundtrip};
use crate::RcpError;

verus! {

/// Length of the `byte_message_info` header, in octets.
pub const BYTE_MESSAGE_INFO_LEN: usize = 8;

/// Length of an ACF_ABB header (just `byte_message_info`).
pub const ACF_ABB_HEADER_LEN: usize = 8;

/// Length of an ACF_GBB header (`byte_message_info` plus the 8-octet
/// `message_timestamp`).
pub const ACF_GBB_HEADER_LEN: usize = 16;

/// One quadlet, in octets.
pub const QUADLET_LEN: usize = 4;

/// Largest value of the 9-bit `acf_msg_length` field.
pub const ACF_MSG_LENGTH_9BIT_MAX: u16 = 0x1FF;

/// Largest value of the 11-bit `byte_bus_id` field.
pub const BYTE_MESSAGE_INFO_11BIT_MAX: u16 = 0x7FF;

/// Largest value of the 7-bit `acf_msg_type` field.
pub const ACF_MSG_TYPE_7BIT_MAX: u8 = 0x7F;

/// Largest value of the 2-bit `pad` field.
pub const PAD_2BIT_MAX: u8 = 3;

/// Largest value of the 3-bit `evt.sub_opcode` field.
pub const EVT_SUB_OPCODE_MAX: u8 = 7;

/// `acf_msg_type` of an ACF_ABB message.
pub const ACF_ABB_MSG_TYPE: u8 = 0x20;

/// `acf_msg_type` of an ACF_GBB message.
pub const ACF_GBB_MSG_TYPE: u8 = 0x21;

/// The `read_size` / `segment_num` octet of `byte_message_info`.
#[derive(Debug, Clone, Copy, PartialEq, Eq, Default)]
pub struct ReadSizeOrSegmentNum(pub u8);

impl ReadSizeOrSegmentNum {
    /// The octet read as a fragment's `segment_num`.
    pub fn as_segment_num(&self) -> (r: u8)
        ensures
            r == self.0,
    {
        self.0
    }

    /// The octet read as a `read_size`.
    pub fn as_read_size(&self) -> (r: u8)
        ensures
            r == self.0,
    {
        self.0
    }
}

/// The `evt` field of `byte_message_info`.
#[derive(Debug, Clone, Copy, PartialEq, Eq, Default)]
pub struct Evt {
    /// 3-bit sub-opcode.
    pub sub_opcode: u8,
}

/// Decoded `byte_message_info`.
#[derive(Debug, Clone, Copy, PartialEq, Eq, Default)]
pub struct ByteMessageInfo {
    pub acf_msg_type: u8,
    pub acf_msg_length: u16,
    pub pad: u8,
    pub ms: bool,
    pub op: bool,
    pub byte_bus_id: u16,
    pub read_size_segment_num: ReadSizeOrSegmentNum,
    pub evt: Evt,
    pub rsp: bool,
    pub err: bool,
}

/// An ACF_ABB message: header and payload.
#[derive(Debug, Clone, PartialEq, Eq)]
pub struct AcfAbbMessage {
    pub info: ByteMessageInfo,
    pub payload: Vec<u8>,
}

/// An ACF_GBB message: header, `message_timestamp` and payload.
#[derive(Debug, Clone, PartialEq, Eq)]
pub struct AcfGbbMessage {
    pub info: ByteMessageInfo,
    pub message_timestamp: u64,
    pub payload: Vec<u8>,
}

/// Every field of `i` fits its wire width.
pub open spec fn info_fields_valid(i: ByteMessageInfo) -> bool {
    &&& i.acf_msg_type <= 0x7F
    &&& i.acf_msg_length <= 0x1FF
    &&& i.pad <= 3
    &&& i.byte_bus_id <= 0x7FF
    &&& i.evt.sub_opcode <= 7
}

pub open spec fn bit(b: bool, weight: int) -> int {
    if b {
        weight
    } else {
        0
    }
}

/// The eight octets that encode `i` (see the module documentation).
pub open spec fn info_bytes(i: ByteMessageInfo) -> Seq<u8> {
    seq![
        (i.acf_msg_type * 2 + i.acf_msg_length / 256) as u8,
        (i.acf_msg_length % 256) as u8,
        (i.pad * 64 + bit(i.ms, 32) + bit(i.op, 16) + i.byte_bus_id / 256) as u8,
        (i.byte_bus_id % 256) as u8,
        i.read_size_segment_num.0,
        i.evt.sub_opcode,
        (bit(i.rsp, 64) + bit(i.err, 32)) as u8,
        0u8,
    ]
}

/// The `byte_message_info` that the first eight octets of `s` encode.
pub open spec fn info_of_bytes(s: Seq<u8>) -> ByteMessageInfo {
    ByteMessageInfo {
        acf_msg_type: (s[0] / 2) as u8,
        acf_msg_length: ((s[0] % 2) * 256 + s[1]) as u16,
        pad: (s[2] / 64) as u8,
        ms: (s[2] / 32) % 2 == 1,
        op: (s[2] / 16) % 2 == 1,
        byte_bus_id: ((s[2] % 8) * 256 + s[3]) as u16,
        read_size_segment_num: ReadSizeOrSegmentNum(s[4]),
        evt: Evt { sub_opcode: (s[5] % 8) as u8 },
        rsp: (s[6] / 64) % 2 == 1,
        err: (s[6] / 32) % 2 == 1,
    }
}

/// Decoding the encoding of a valid header gives the header back.
pub proof fn lemma_info_roundtrip(i: ByteMessageInfo)
    requires
        info_fields_valid(i),
    ensures
        info_bytes(i).len() == 8,
        info_of_bytes(info_bytes(i)) == i,
{
    let s = info_bytes(i);
    assert(s[0] / 2 == i.acf_msg_type);
    assert((s[0] % 2) * 256 + s[1] == i.acf_msg_length);
    assert(s[2] / 64 == i.pad);
    assert((s[2] / 32) % 2 == 1 <==> i.ms);
    assert((s[2] / 16) % 2 == 1 <==> i.op);
    assert((s[2] % 8) * 256 + s[3] == i.byte_bus_id);
    assert((s[6] / 64) % 2 == 1 <==> i.rsp);
    assert((s[6] / 32) % 2 == 1 <==> i.err);
}

/// The header encoded as an ACF message of `msg_type`, `payload_len` octets of
/// payload after a header of `header_len` octets: length in quadlets, and the
/// pad that rounds header and payload up to whole quadlets.
pub open spec fn quadlets_for(total: int) -> int {
    (total + 3) / 4
}

pub open spec fn pad_for(total: int) -> int {
    quadlets_for(total) * 4 - total
}

pub open spec fn framed_info(i: ByteMessageInfo, msg_type: u8, total: int) -> ByteMessageInfo {
    ByteMessageInfo {
        acf_msg_type: msg_type,
        acf_msg_length: quadlets_for(total) as u16,
        pad: pad_for(total) as u8,
        ..i
    }
}

/// An ACF message with this header and `total` octets of header and payload
/// can be encoded: its length fits 9 bits and the other fields fit their widths.
pub open spec fn frame_encodable(i: ByteMessageInfo, total: int) -> bool {
    &&& quadlets_for(total) <= 0x1FF
    &&& i.byte_bus_id <= 0x7FF
    &&& i.evt.sub_opcode <= 7
}

pub open spec fn zeros(n: int) -> Seq<u8> {
    Seq::new(n as nat, |_i: int| 0u8)
}

/// The wire form of an ACF_ABB message.
pub open spec fn abb_frame(m: AcfAbbMessage) -> Seq<u8> {
    let total: int = 8 + m.payload@.len() as int;
    info_bytes(framed_info(m.info, ACF_ABB_MSG_TYPE, total)) + m.payload@ + zeros(pad_for(total))
}

/// The wire form of an ACF_GBB message.
pub open spec fn gbb_frame(m: AcfGbbMessage) -> Seq<u8> {
    let total: int = 16 + m.payload@.len() as int;
    info_bytes(framed_info(m.info, ACF_GBB_MSG_TYPE, total)) + be64(m.message_timestamp)
        + m.payload@ + zeros(pad_for(total))
}

/// Encodes `info` as its eight wire octets.
///
/// Fails with `InvalidSize` exactly when a field exceeds its wire width.
pub fn encode_byte_message_info(info: &ByteMessageInfo) -> (r: Result<Vec<u8>, RcpError>)
    ensures
        match r {
            Ok(v) => info_fields_valid(*info) && v@ == info_bytes(*info),
            Err(e) => !info_fields_valid(*info) && e == RcpError::InvalidSize,
        },
{
    if info.acf_msg_type > ACF_MSG_TYPE_7BIT_MAX || info.acf_msg_length > ACF_MSG_LENGTH_9BIT_MAX
        || info.pad > PAD_2BIT_MAX || info.byte_bus_id > BYTE_MESSAGE_INFO_11BIT_MAX
        || info.evt.sub_opcode > EVT_SUB_OPCODE_MAX {
        return Err(RcpError::InvalidSize);
    }
    let ms: u8 = if info.ms { 32 } else { 0 };
    let op: u8 = if info.op { 16 } else { 0 };
    let rsp: u8 = if info.rsp { 64 } else { 0 };
    let err: u8 = if info.err { 32 } else { 0 };
    let mut v: Vec<u8> = Vec::new();
    v.push(info.acf_msg_type * 2 + (info.acf_msg_length / 256) as u8);
    v.push((info.acf_msg_length % 256) as u8);
    v.push(info.pad * 64 + ms + op + (info.byte_bus_id / 256) as u8);
    v.push((info.byte_bus_id % 256) as u8);
    v.push(info.read_size_segment_num.0);
    v.push(info.evt.sub_opcode);
    v.push(rsp + err);
    v.push(0u8);
    assert(v@ =~= info_bytes(*info));
    Ok(v)
}

/// Decodes the first eight octets of `b` as `byte_message_info`.
///
/// Fails with `ShortFrame` exactly when `b` holds fewer than eight octets.
pub fn decode_byte_message_info(b: &[u8]) -> (r: Result<ByteMessageInfo, RcpError>)
    ensures
        match r {
            Ok(i) => b@.len() >= 8 && i == info_of_bytes(b@),
            Err(e) => b@.len() < 8 && e == RcpError::ShortFrame,
        },
{
    if b.len() < BYTE_MESSAGE_INFO_LEN {
        return Err(RcpError::ShortFrame);
    }
    Ok(ByteMessageInfo {
        acf_msg_type: b[0] / 2,
        acf_msg_length: ((b[0] % 2) as u16) * 256 + b[1] as u16,
        pad: b[2] / 64,
        ms: (b[2] / 32) % 2 == 1,
        op: (b[2] / 16) % 2 == 1,
        byte_bus_id: ((b[2] % 8) as u16) * 256 + b[3] as u16,
        read_size_segment_num: ReadSizeOrSegmentNum(b[4]),
        evt: Evt { sub_opcode: b[5] % 8 },
        rsp: (b[6] / 64) % 2 == 1,
        err: (b[6] / 32) % 2 == 1,
    })
}

/// Encodes a framed header: `info` with its type, quadlet length and pad
/// derived from `total` octets of header and payload.
fn encode_framed_header(info: &ByteMessageInfo, msg_type: u8, total: usize) -> (r: Result<
    Vec<u8>,
    RcpError,
>)
    requires
        msg_type <= 0x7F,
        total <= 0x1FF * 4 + 64,
    ensures
        match r {
            Ok(v) => frame_encodable(*info, total as int) && v@ == info_bytes(
                framed_info(*info, msg_type, total as int),
            ),
            Err(e) => !frame_encodable(*info, total as int) && e == RcpError::InvalidSize,
        },
{
    let quadlets = (total + 3) / 4;
    if quadlets > ACF_MSG_LENGTH_9BIT_MAX as usize {
        return Err(RcpError::InvalidSize);
    }
    let pad = quadlets * 4 - total;
    let framed = ByteMessageInfo {
        acf_msg_type: msg_type,
        acf_msg_length: quadlets as u16,
        pad: pad as u8,
        ..*info
    };
    assert(framed == framed_info(*info, msg_type, total as int));
    encode_byte_message_info(&framed)
}

/// Encodes an ACF_ABB message: header (type, quadlet length and pad derived
/// from the payload), payload, then `pad` zero octets.
///
/// Fails with `InvalidSize` exactly when the framed length does not fit 9
/// bits or `byte_bus_id` / `evt.sub_opcode` exceed their widths.
pub fn encode_acf_abb(msg: &AcfAbbMessage) -> (r: Result<Vec<u8>, RcpError>)
    ensures
        match r {
            Ok(v) => frame_encodable(msg.info, 8 + msg.payload@.len() as int) && v@ == abb_frame(*msg),
            Err(e) => !frame_encodable(msg.info, 8 + msg.payload@.len() as int) && e
                == RcpError::InvalidSize,
        },
{
    if msg.payload.len() > 0x1FF * 4 {
        return Err(RcpError::InvalidSize);
    }
    let total = ACF_ABB_HEADER_LEN + msg.payload.len();
    let mut out = encode_framed_header(&msg.info, ACF_ABB_MSG_TYPE, total)?;
    push_all(&mut out, msg.payload.as_slice());
    let pad = ((total + 3) / 4) * 4 - total;
    push_zeros(&mut out, pad);
    assert(out@ =~= abb_frame(*msg));
    Ok(out)
}

/// Encodes an ACF_GBB message: header, `message_timestamp` (8 octets,
/// big-endian), payload, then `pad` zero octets.
///
/// Fails with `InvalidSize` exactly when the framed length does not fit 9
/// bits or `byte_bus_id` / `evt.sub_opcode` exceed their widths.
pub fn encode_acf_gbb(msg: &AcfGbbMessage) -> (r: Result<Vec<u8>, RcpError>)
    ensures
        match r {
            Ok(v) => frame_encodable(msg.info, 16 + msg.payload@.len() as int) && v@ == gbb_frame(*msg),
            Err(e) => !frame_encodable(msg.info, 16 + msg.payload@.len() as int) && e
                == RcpError::InvalidSize,
        },
{
    if msg.payload.len() > 0x1FF * 4 {
        return Err(RcpError::InvalidSize);
    }
    let total = ACF_GBB_HEADER_LEN + msg.payload.len();
    let mut out = encode_framed_header(&msg.info, ACF_GBB_MSG_TYPE, total)?;
    push_be64(&mut out, msg.message_timestamp);
    push_all(&mut out, msg.payload.as_slice());
    let pad = ((total + 3) / 4) * 4 - total;
    push_zeros(&mut out, pad);
    assert(out@ =~= gbb_frame(*msg));
    Ok(out)
}

/// The octets `s` form a decodable ACF message of `msg_type` whose header
/// occupies `header_len` octets.
pub open spec fn frame_decodable(s: Seq<u8>, msg_type: u8, header_len: int) -> bool {
    let i = info_of_bytes(s);
    &&& s.len() >= header_len
    &&& i.acf_msg_type == msg_type
    &&& i.acf_msg_length * 4 <= s.len()
    &&& header_len + i.pad <= i.acf_msg_length * 4
}

/// The payload region of a decodable ACF message.
pub open spec fn frame_payload(s: Seq<u8>, header_len: int) -> Seq<u8> {
    let i = info_of_bytes(s);
    s.subrange(header_len, i.acf_msg_length * 4 - i.pad)
}

/// The error decoding `s` as a `msg_type` message reports, when it is not
/// decodable: `ShortFrame` when the octets run out, `InvalidParameter` for
/// another message type, `InvalidSize` when the length leaves no room for
/// header and pad.
pub open spec fn frame_decode_error(s: Seq<u8>, msg_type: u8, header_len: int) -> RcpError {
    let i = info_of_bytes(s);
    if s.len() < header_len {
        RcpError::ShortFrame
    } else if i.acf_msg_type != msg_type {
        RcpError::InvalidParameter
    } else if i.acf_msg_length * 4 > s.len() {
        RcpError::ShortFrame
    } else {
        RcpError::InvalidSize
    }
}

/// Decodes an ACF_ABB message: the payload is the region that
/// `acf_msg_length` describes after the header, less its `pad` octets.
pub fn decode_acf_abb(b: &[u8]) -> (r: Result<AcfAbbMessage, RcpError>)
    ensures
        match r {
            Ok(m) => frame_decodable(b@, ACF_ABB_MSG_TYPE, 8) && m.info == info_of_bytes(b@)
                && m.payload@ == frame_payload(b@, 8),
            Err(e) => !frame_decodable(b@, ACF_ABB_MSG_TYPE, 8) && e == frame_decode_error(
                b@,
                ACF_ABB_MSG_TYPE,
                8,
            ),
        },
{
    let info = decode_byte_message_info(b)?;
    if info.acf_msg_type != ACF_ABB_MSG_TYPE {
        return Err(RcpError::InvalidParameter);
    }
    let total = info.acf_msg_length as usize * 4;
    if total > b.len() {
        return Err(RcpError::ShortFrame);
    }
    if ACF_ABB_HEADER_LEN + (info.pad as usize) > total {
        return Err(RcpError::InvalidSize);
    }
    let payload = copy_range(b, ACF_ABB_HEADER_LEN, total - info.pad as usize);
    Ok(AcfAbbMessage { info, payload })
}

/// Decodes an ACF_GBB message: `message_timestamp` from octets 8..16, and the
/// payload from the region `acf_msg_length` describes after it, less `pad`.
pub fn decode_acf_gbb(b: &[u8]) -> (r: Result<AcfGbbMessage, RcpError>)
    ensures
        match r {
            Ok(m) => frame_decodable(b@, ACF_GBB_MSG_TYPE, 16) && m.info == info_of_bytes(b@)
                && m.message_timestamp == from_be64(b@.subrange(8, 16)) && m.payload@
                == frame_payload(b@, 16),
            Err(e) => !frame_decodable(b@, ACF_GBB_MSG_TYPE, 16) && e == frame_decode_error(
                b@,
                ACF_GBB_MSG_TYPE,
                16,
            ),
        },
{
    if b.len() < ACF_GBB_HEADER_LEN {
        return Err(RcpError::ShortFrame);
    }
    let info = decode_byte_message_info(b)?;
    if info.acf_msg_type != ACF_GBB_MSG_TYPE {
        return Err(RcpError::InvalidParameter);
    }
    let total = info.acf_msg_length as usize * 4;
    if total > b.len() {
        return Err(RcpError::ShortFrame);
    }
    if ACF_GBB_HEADER_LEN + (info.pad as usize) > total {
        return Err(RcpError::InvalidSize);
    }
    let ts = ((b[8] as u64) << 56u64) | ((b[9] as u64) << 48u64) | ((b[10] as u64) << 40u64) | ((
    b[11] as u64) << 32u64) | ((b[12] as u64) << 24u64) | ((b[13] as u64) << 16u64) | ((
    b[14] as u64) << 8u64) | (b[15] as u64);
    let payload = copy_range(b, ACF_GBB_HEADER_LEN, total - info.pad as usize);
    Ok(AcfGbbMessage { info, message_timestamp: ts, payload })
}

/// Decoding the wire form of an encodable ACF_ABB message gives back its
/// framed header and its payload.
pub proof fn lemma_abb_roundtrip(m: AcfAbbMessage)
    requires
        frame_encodable(m.info, 8 + m.payload@.len() as int),
    ensures
        frame_decodable(abb_frame(m), ACF_ABB_MSG_TYPE, 8),
        info_of_bytes(abb_frame(m)) == framed_info(m.info, ACF_ABB_MSG_TYPE, 8 + m.payload@.len() as int),
        frame_payload(abb_frame(m), 8) == m.payload@,
{
    let total: int = 8 + m.payload@.len() as int;
    let fi = framed_info(m.info, ACF_ABB_MSG_TYPE, total);
    lemma_info_roundtrip(fi);
    let s = abb_frame(m);
    assert(s.subrange(0, 8) =~= info_bytes(fi));
    assert(info_of_bytes(s) == info_of_bytes(info_bytes(fi)));
    assert(s.len() == quadlets_for(total) * 4);
    assert(s.subrange(8, total) =~= m.payload@);
}

/// Decoding the wire form of an encodable ACF_GBB message gives back its
/// framed header, its timestamp and its payload.
pub proof fn lemma_gbb_roundtrip(m: AcfGbbMessage)
    requires
        frame_encodable(m.info, 16 + m.payload@.len() as int),
    ensures
        frame_decodable(gbb_frame(m), ACF_GBB_MSG_TYPE, 16),
        info_of_bytes(gbb_frame(m)) == framed_info(m.info, ACF_GBB_MSG_TYPE, 16 + m.payload@.len() as int),
        from_be64(gbb_frame(m).subrange(8, 16)) == m.message_timestamp,
        frame_payload(gbb_frame(m), 16) == m.payload@,
{
    let total: int = 16 + m.payload@.len() as int;
    let fi = framed_info(m.info, ACF_GBB_MSG_TYPE, total);
    lemma_info_roundtrip(fi);
    lemma_be64_roundtrip(m.message_timestamp);
    let s = gbb_frame(m);
    assert(info_of_bytes(s) == info_of_bytes(info_bytes(fi)));
    assert(s.subrange(8, 16) =~= be64(m.message_timestamp));
    assert(s.len() == quadlets_for(total) * 4);
    assert(s.subrange(16, total) =~= m.payload@);
}

/// The header of a response to `request`: `base` with the request's
/// `byte_bus_id` echoed back and `rsp` set.
pub fn build_response_info(request: &ByteMessageInfo, base: ByteMessageInfo) -> (r:
    ByteMessageInfo)
    ensures
        r == (ByteMessageInfo { byte_bus_id: request.byte_bus_id, rsp: true, ..base }),
{
    ByteMessageInfo { byte_bus_id: request.byte_bus_id, rsp: true, ..base }
}

/// The echo-back rule: a response must carry its request's `byte_bus_id`.
/// Fails with `EpError` exactly when it does not.
pub fn verify_echo_back(request: &ByteMessageInfo, response: &ByteMessageInfo) -> (r: Result<
    (),
    RcpError,
>)
    ensures
        match r {
            Ok(()) => request.byte_bus_id == response.byte_bus_id,
            Err(e) => request.byte_bus_id != response.byte_bus_id && e == RcpError::EpError,
        },
{
    if request.byte_bus_id == response.byte_bus_id {
        Ok(())
    } else {
        Err(RcpError::EpError)
    }
}

} // verus!
