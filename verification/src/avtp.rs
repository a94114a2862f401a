//! AVTPDU stream headers: the 64-bit stream identifier and the NTSCF
//! (non-time-synchronous) and TSCF (time-synchronous) control-frame headers.
//!
//! NTSCF wire layout (12 octets, then the ACF payload): subtype `0x82`;
//! `sv` (bit 7, always set) with bits 10..8 of `ntscf_data_length`;
//! `ntscf_data_length` bits 7..0; `sequence_num`; `stream_id` (8 octets,
//! big-endian).
use vstd::prelude::*;

use crate::wire::{be64, from_be64, push_all, push_be64};
use crate::RcpError;

verus! {

/// AVTP subtype of an NTSCF frame.
pub const NTSCF_SUBTYPE: u8 = 0x82;

/// Length of an NTSCF header, in octets.
pub const NTSCF_HEADER_LEN: usize = 12;

/// Largest value of the 11-bit `ntscf_data_length` field.
pub const NTSCF_DATA_LENGTH_MAX: usize = 0x7FF;

/// A 64-bit AVTP stream identifier: a 48-bit MAC address followed by a
/// 16-bit unique id.
#[derive(Debug, Clone, Copy, PartialEq, Eq, Hash)]
pub struct StreamId(pub u64);

/// The stream id made of `mac` (big-endian, high 48 bits) and `unique_id`.
pub open spec fn stream_id_value(mac: Seq<u8>, unique_id: u16) -> u64 {
    ((mac[0] as u64) << 56u64) | ((mac[1] as u64) << 48u64) | ((mac[2] as u64) << 40u64) | ((
    mac[3] as u64) << 32u64) | ((mac[4] as u64) << 24u64) | ((mac[5] as u64) << 16u64) | (
    unique_id as u64)
}

impl StreamId {
    /// Builds the stream id of `mac` and `unique_id`.
    pub fn new(mac: [u8; 6], unique_id: u16) -> (r: StreamId)
        ensures
            r.0 == stream_id_value(mac@, unique_id),
    {
        StreamId(
            ((mac[0] as u64) << 56u64) | ((mac[1] as u64) << 48u64) | ((mac[2] as u64) << 40u64)
                | ((mac[3] as u64) << 32u64) | ((mac[4] as u64) << 24u64) | ((mac[5] as u64)
                << 16u64) | (unique_id as u64),
        )
    }

    /// The raw 64-bit value.
    pub fn value(&self) -> (r: u64)
        ensures
            r == self.0,
    {
        self.0
    }
}

/// An NTSCF header (no `avtp_timestamp`).
#[derive(Debug, Clone, Copy, PartialEq, Eq, Default)]
pub struct NtscfHeader {
    pub stream_id: u64,
    pub sequence_num: u8,
    pub ntscf_data_length: u16,
}

/// A TSCF header (carries `avtp_timestamp`).
#[derive(Debug, Clone, Copy, PartialEq, Eq, Default)]
pub struct TscfHeader {
    pub stream_id: u64,
    pub sequence_num: u8,
    pub avtp_timestamp: u32,
    pub stream_data_length: u16,
}

/// Which AVTPDU header a frame carries.
#[derive(Debug, Clone, Copy, PartialEq, Eq)]
pub enum HeaderVariant {
    Ntscf(NtscfHeader),
    Tscf(TscfHeader),
}

/// The wire form of an NTSCF frame carrying `payload`.
pub open spec fn ntscf_frame(stream_id: u64, sequence_num: u8, payload: Seq<u8>) -> Seq<u8> {
    seq![
        NTSCF_SUBTYPE,
        (0x80 + payload.len() / 256) as u8,
        (payload.len() % 256) as u8,
        sequence_num,
    ] + be64(stream_id) + payload
}

/// Encodes an NTSCF frame: header then `payload`.
///
/// Fails with `PayloadTooLarge` exactly when `payload` exceeds the 11-bit
/// `ntscf_data_length`.
pub fn encode_ntscf_frame(stream_id: StreamId, sequence_num: u8, payload: &[u8]) -> (r: Result<
    Vec<u8>,
    RcpError,
>)
    ensures
        match r {
            Ok(v) => payload@.len() <= 0x7FF && v@ == ntscf_frame(stream_id.0, sequence_num, payload@),
            Err(e) => payload@.len() > 0x7FF && e == RcpError::PayloadTooLarge,
        },
{
    if payload.len() > NTSCF_DATA_LENGTH_MAX {
        return Err(RcpError::PayloadTooLarge);
    }
    let len = payload.len();
    let mut out: Vec<u8> = Vec::new();
    out.push(NTSCF_SUBTYPE);
    out.push((0x80 + len / 256) as u8);
    out.push((len % 256) as u8);
    out.push(sequence_num);
    push_be64(&mut out, stream_id.0);
    push_all(&mut out, payload);
    assert(out@ =~= ntscf_frame(stream_id.0, sequence_num, payload@));
    Ok(out)
}

/// The octets `s` form a decodable NTSCF frame: a full header with the NTSCF
/// subtype and `sv` set, and at least `ntscf_data_length` payload octets.
pub open spec fn ntscf_decodable(s: Seq<u8>) -> bool {
    &&& s.len() >= 12
    &&& s[0] == NTSCF_SUBTYPE
    &&& s[1] / 128 == 1
    &&& 12 + ntscf_length(s) <= s.len()
}

/// The `ntscf_data_length` field of the header `s` starts with.
pub open spec fn ntscf_length(s: Seq<u8>) -> int {
    (s[1] % 8) * 256 + s[2]
}

/// The error decoding `s` as an NTSCF frame reports, when it is not
/// decodable: `InvalidParameter` for a full header of another subtype or with
/// `sv` cleared, otherwise `ShortFrame`.
pub open spec fn ntscf_decode_error(s: Seq<u8>) -> RcpError {
    if s.len() >= 12 && (s[0] != NTSCF_SUBTYPE || s[1] / 128 != 1) {
        RcpError::InvalidParameter
    } else {
        RcpError::ShortFrame
    }
}

/// Decodes an NTSCF frame into its header and its `ntscf_data_length`
/// payload octets.
///
/// Fails with `ShortFrame` when the octets run out, and with
/// `InvalidParameter` for another subtype or a cleared `sv` bit.
pub fn decode_ntscf_frame(frame: &[u8]) -> (r: Result<(NtscfHeader, &[u8]), RcpError>)
    ensures
        match r {
            Ok((h, p)) => ntscf_decodable(frame@) && h.stream_id == from_be64(
                frame@.subrange(4, 12),
            ) && h.sequence_num == frame@[3] && h.ntscf_data_length == ntscf_length(frame@)
                && p@ == frame@.subrange(12, 12 + ntscf_length(frame@)),
            Err(e) => !ntscf_decodable(frame@) && e == ntscf_decode_error(frame@),
        },
{
    if frame.len() < NTSCF_HEADER_LEN {
        return Err(RcpError::ShortFrame);
    }
    if frame[0] != NTSCF_SUBTYPE || frame[1] / 128 != 1 {
        return Err(RcpError::InvalidParameter);
    }
    let len = ((frame[1] % 8) as usize) * 256 + frame[2] as usize;
    if NTSCF_HEADER_LEN + len > frame.len() {
        return Err(RcpError::ShortFrame);
    }
    let stream_id = ((frame[4] as u64) << 56u64) | ((frame[5] as u64) << 48u64) | ((
    frame[6] as u64) << 40u64) | ((frame[7] as u64) << 32u64) | ((frame[8] as u64) << 24u64)
        | ((frame[9] as u64) << 16u64) | ((frame[10] as u64) << 8u64) | (frame[11] as u64);
    let header = NtscfHeader {
        stream_id,
        sequence_num: frame[3],
        ntscf_data_length: len as u16,
    };
    let payload = vstd::slice::slice_subrange(frame, NTSCF_HEADER_LEN, NTSCF_HEADER_LEN + len);
    Ok((header, payload))
}

/// Decoding an encoded NTSCF frame gives back its stream id, sequence
/// number and payload.
pub proof fn lemma_ntscf_roundtrip(stream_id: u64, sequence_num: u8, payload: Seq<u8>)
    requires
        payload.len() <= 0x7FF,
    ensures
        ntscf_decodable(ntscf_frame(stream_id, sequence_num, payload)),
        from_be64(ntscf_frame(stream_id, sequence_num, payload).subrange(4, 12)) == stream_id,
        ntscf_frame(stream_id, sequence_num, payload)[3] == sequence_num,
        ntscf_length(ntscf_frame(stream_id, sequence_num, payload)) == payload.len(),
        ntscf_frame(stream_id, sequence_num, payload).subrange(12, 12 + payload.len() as int) == payload,
{
    let s = ntscf_frame(stream_id, sequence_num, payload);
    crate::wire::lemma_be64_roundtrip(stream_id);
    assert(s.subrange(4, 12) =~= be64(stream_id));
    assert(s.subrange(12, 12 + payload.len() as int) =~= payload);
}

} // verus!
