//! End-to-end protection: the OPEN Alliance TC18 safe-point CRC-32
//! (polynomial `0xF4ACFB13`, init and final XOR `0xFFFFFFFF`, reflected input
//! and output), the byte sequence it covers, the CRC trailer's wire placement
//! and its placement across a fragment train.
use vstd::prelude::*;

use crate::acf::{
    self, info_bytes, info_fields_valid, info_of_bytes, AcfAbbMessage, AcfGbbMessage,
    ByteMessageInfo,
};
use crate::avtp::HeaderVariant;
use crate::wire::{be32, be64, from_be32, push_all, push_be32, push_be64, copy_range};
use crate::RcpError;

verus! {

/// Bit reversal of the polynomial `0xF4ACFB13`: the reflected engine shifts
/// its register right against this constant.
pub const CRC32_TC18_POLY_REFLECTED: u32 = 0xC8DF_352F;

/// Initial register value and final XOR.
pub const CRC32_TC18_INIT_XOROUT: u32 = 0xFFFF_FFFF;

/// Quadlets by which the coverage buffer pre-adjusts `acf_msg_length`.
pub const CRC32_COVERAGE_LENGTH_PREADJUST_QUADLETS: u16 = 1;

/// Quadlets the CRC trailer adds to `acf_msg_length`.
pub const CRC_TRAILER_QUADLETS: u16 = CRC32_COVERAGE_LENGTH_PREADJUST_QUADLETS;

/// Octets the CRC trailer occupies on the wire.
pub const CRC_TRAILER_LEN: usize = 4;

/// One step of the reflected shift register.
pub open spec fn crc_bit_step(c: u32) -> u32 {
    if c & 1u32 != 0u32 {
        (c >> 1u32) ^ CRC32_TC18_POLY_REFLECTED
    } else {
        c >> 1u32
    }
}

/// `n` steps of the shift register from `c`.
pub open spec fn crc_bits(c: u32, n: nat) -> u32
    decreases n,
{
    if n == 0 {
        c
    } else {
        crc_bit_step(crc_bits(c, (n - 1) as nat))
    }
}

/// The register after absorbing one byte.
pub open spec fn crc_byte_step(c: u32, b: u8) -> u32 {
    crc_bits(c ^ (b as u32), 8)
}

/// The register after absorbing `data` from the initial value.
pub open spec fn crc_register(data: Seq<u8>) -> u32
    decreases data.len(),
{
    if data.len() == 0 {
        CRC32_TC18_INIT_XOROUT
    } else {
        crc_byte_step(crc_register(data.drop_last()), data.last())
    }
}

/// The TC18 safe-point CRC-32 of `data`.
pub open spec fn crc32_tc18_spec(data: Seq<u8>) -> u32 {
    crc_register(data) ^ CRC32_TC18_INIT_XOROUT
}

/// Computes the OPEN Alliance TC18 safe-point CRC-32 over exactly `data`.
pub fn crc32_tc18(data: &[u8]) -> (r: u32)
    ensures
        r == crc32_tc18_spec(data@),
{
    let mut crc: u32 = CRC32_TC18_INIT_XOROUT;
    let mut i: usize = 0;
    while i < data.len()
        invariant
            i <= data.len(),
            crc == crc_register(data@.subrange(0, i as int)),
        decreases data.len() - i,
    {
        let byte = data[i];
        let c0: u32 = crc ^ (byte as u32);
        crc = c0;
        let mut k: u32 = 0;
        while k < 8
            invariant
                k <= 8,
                crc == crc_bits(c0, k as nat),
            decreases 8 - k,
        {
            crc = if crc & 1u32 != 0u32 {
                (crc >> 1u32) ^ CRC32_TC18_POLY_REFLECTED
            } else {
                crc >> 1u32
            };
            k = k + 1;
        }
        assert(data@.subrange(0, i + 1).drop_last() =~= data@.subrange(0, i as int));
        i = i + 1;
    }
    assert(data@.subrange(0, data@.len() as int) =~= data@);
    crc ^ CRC32_TC18_INIT_XOROUT
}

/// Which ACF message shape a coverage buffer's ACF header is drawn from.
#[derive(Debug, Clone, Copy, PartialEq, Eq)]
pub enum AcfCoverageMessage<'a> {
    /// An ACF_ABB message (no `message_timestamp`).
    Abb(&'a AcfAbbMessage),
    /// An ACF_GBB message (carries `message_timestamp`).
    Gbb(&'a AcfGbbMessage),
}

/// `stream_id` (8 octets, big-endian) then `avtp_timestamp` (4 octets,
/// big-endian; four zero octets under NTSCF).
pub open spec fn coverage_prefix(h: HeaderVariant) -> Seq<u8> {
    match h {
        HeaderVariant::Ntscf(n) => be64(n.stream_id) + seq![0u8, 0u8, 0u8, 0u8],
        HeaderVariant::Tscf(t) => be64(t.stream_id) + be32(t.avtp_timestamp),
    }
}

/// `x + 1`, saturating at `u16::MAX`.
pub open spec fn saturating_inc(x: u16) -> u16 {
    if x == 0xFFFF {
        0xFFFF
    } else {
        (x + 1) as u16
    }
}

/// The header the coverage buffer encodes: the message's own header with
/// its type and with `acf_msg_length` pre-adjusted by one quadlet.
pub open spec fn adjusted_info(i: ByteMessageInfo, msg_type: u8) -> ByteMessageInfo {
    ByteMessageInfo { acf_msg_type: msg_type, acf_msg_length: saturating_inc(i.acf_msg_length), ..i }
}

pub open spec fn coverage_info(m: AcfCoverageMessage) -> ByteMessageInfo {
    match m {
        AcfCoverageMessage::Abb(a) => adjusted_info(a.info, acf::ACF_ABB_MSG_TYPE),
        AcfCoverageMessage::Gbb(g) => adjusted_info(g.info, acf::ACF_GBB_MSG_TYPE),
    }
}

/// `message_timestamp` octets (GBB only).
pub open spec fn coverage_timestamp(m: AcfCoverageMessage) -> Seq<u8> {
    match m {
        AcfCoverageMessage::Abb(_) => Seq::empty(),
        AcfCoverageMessage::Gbb(g) => be64(g.message_timestamp),
    }
}

/// The message's own payload.
pub open spec fn coverage_payload(m: AcfCoverageMessage) -> Seq<u8> {
    match m {
        AcfCoverageMessage::Abb(a) => a.payload@,
        AcfCoverageMessage::Gbb(g) => g.payload@,
    }
}

/// The CRC coverage buffer of message `m` under `h`, with `payload` in the
/// payload region.
pub open spec fn coverage_buffer(h: HeaderVariant, m: AcfCoverageMessage, payload: Seq<u8>) -> Seq<
    u8,
> {
    coverage_prefix(h) + info_bytes(coverage_info(m)) + coverage_timestamp(m) + payload
}

fn push_coverage_prefix(out: &mut Vec<u8>, header: &HeaderVariant)
    ensures
        final(out)@ == old(out)@ + coverage_prefix(*header),
{
    match header {
        HeaderVariant::Ntscf(h) => {
            push_be64(out, h.stream_id);
            push_be32(out, 0);
            assert(be32(0) =~= seq![0u8, 0u8, 0u8, 0u8]) by {
                assert(((0u32 >> 24u32) as u8) == 0u8 && ((0u32 >> 16u32) as u8) == 0u8 && ((
                0u32 >> 8u32) as u8) == 0u8) by (bit_vector);
            }
        },
        HeaderVariant::Tscf(h) => {
            push_be64(out, h.stream_id);
            push_be32(out, h.avtp_timestamp);
        },
    }
    assert(final(out)@ =~= old(out)@ + coverage_prefix(*header));
}

/// Assembles the byte sequence the CRC covers for a safe-point frame:
/// `stream_id`, `avtp_timestamp` (zeroed under NTSCF), the ACF header with
/// `acf_msg_length` increased by one quadlet (saturating), the
/// `message_timestamp` for ACF_GBB, then the payload.
///
/// Fails with `InvalidSize` exactly when the adjusted header does not fit
/// the `byte_message_info` field widths.
pub fn build_crc32_coverage_buffer(header: &HeaderVariant, acf: &AcfCoverageMessage) -> (r: Result<
    Vec<u8>,
    RcpError,
>)
    ensures
        match r {
            Ok(v) => info_fields_valid(coverage_info(*acf)) && v@ == coverage_buffer(
                *header,
                *acf,
                coverage_payload(*acf),
            ),
            Err(e) => !info_fields_valid(coverage_info(*acf)) && e == RcpError::InvalidSize,
        },
{
    let mut buf: Vec<u8> = Vec::new();
    push_coverage_prefix(&mut buf, header);
    match acf {
        AcfCoverageMessage::Abb(msg) => {
            let adjusted = ByteMessageInfo {
                acf_msg_type: acf::ACF_ABB_MSG_TYPE,
                acf_msg_length: msg.info.acf_msg_length.saturating_add(CRC_TRAILER_QUADLETS),
                ..msg.info
            };
            assert(adjusted == coverage_info(*acf));
            let info_bytes_v = acf::encode_byte_message_info(&adjusted)?;
            push_all(&mut buf, info_bytes_v.as_slice());
            push_all(&mut buf, msg.payload.as_slice());
        },
        AcfCoverageMessage::Gbb(msg) => {
            let adjusted = ByteMessageInfo {
                acf_msg_type: acf::ACF_GBB_MSG_TYPE,
                acf_msg_length: msg.info.acf_msg_length.saturating_add(CRC_TRAILER_QUADLETS),
                ..msg.info
            };
            assert(adjusted == coverage_info(*acf));
            let info_bytes_v = acf::encode_byte_message_info(&adjusted)?;
            push_all(&mut buf, info_bytes_v.as_slice());
            push_be64(&mut buf, msg.message_timestamp);
            push_all(&mut buf, msg.payload.as_slice());
        },
    }
    assert(buf@ =~= coverage_buffer(*header, *acf, coverage_payload(*acf)));
    Ok(buf)
}

/// The coverage buffer is laid out as its parts say: twelve octets of
/// `stream_id` and `avtp_timestamp`, then eight header octets that decode to
/// the message's own header with only the message type set (`0x20` for
/// ACF_ABB, `0x21` for ACF_GBB) and `acf_msg_length` one quadlet larger (every
/// other field, `byte_bus_id` among them, as the message has it), then the
/// ACF_GBB `message_timestamp`, then the payload.
pub proof fn lemma_coverage_buffer_layout(h: HeaderVariant, m: AcfCoverageMessage, payload: Seq<u8>)
    requires
        info_fields_valid(coverage_info(m)),
    ensures
        ({
            let b = coverage_buffer(h, m, payload);
            let own = match m {
                AcfCoverageMessage::Abb(a) => a.info,
                AcfCoverageMessage::Gbb(g) => g.info,
            };
            let hdr = info_of_bytes(b.subrange(12, 20));
            let body_start: int = match m {
                AcfCoverageMessage::Abb(_) => 20,
                AcfCoverageMessage::Gbb(_) => 28,
            };
            &&& b.len() == body_start + payload.len()
            &&& b.subrange(0, 8) == be64(
                match h {
                    HeaderVariant::Ntscf(n) => n.stream_id,
                    HeaderVariant::Tscf(t) => t.stream_id,
                },
            )
            &&& hdr.acf_msg_type == (match m {
                AcfCoverageMessage::Abb(_) => 0x20u8,
                AcfCoverageMessage::Gbb(_) => 0x21u8,
            })
            &&& hdr.acf_msg_length == own.acf_msg_length + 1
            &&& hdr.byte_bus_id == own.byte_bus_id
            &&& hdr.pad == own.pad
            &&& hdr.ms == own.ms
            &&& hdr.op == own.op
            &&& hdr.read_size_segment_num == own.read_size_segment_num
            &&& hdr.evt == own.evt
            &&& hdr.rsp == own.rsp
            &&& hdr.err == own.err
            &&& b.subrange(body_start, b.len() as int) == payload
        }),
{
    let ci = coverage_info(m);
    acf::lemma_info_roundtrip(ci);
    let b = coverage_buffer(h, m, payload);
    assert(coverage_prefix(h).len() == 12);
    assert(b.subrange(12, 20) =~= info_bytes(ci));
    assert(b.subrange(0, 8) =~= coverage_prefix(h).subrange(0, 8));
    match h {
        HeaderVariant::Ntscf(n) => {
            assert(coverage_prefix(h).subrange(0, 8) =~= be64(n.stream_id));
        },
        HeaderVariant::Tscf(t) => {
            assert(coverage_prefix(h).subrange(0, 8) =~= be64(t.stream_id));
        },
    }
    match m {
        AcfCoverageMessage::Abb(_) => {
            assert(b.subrange(20, b.len() as int) =~= payload);
        },
        AcfCoverageMessage::Gbb(g) => {
            assert(be64(g.message_timestamp).len() == 8);
            assert(b.subrange(28, b.len() as int) =~= payload);
        },
    }
}

/// `frame` with its header re-encoded to count one more quadlet, and the
/// CRC's four big-endian octets appended.
pub open spec fn finalized_frame(frame: Seq<u8>, crc: u32) -> Seq<u8> {
    let i = info_of_bytes(frame);
    info_bytes(ByteMessageInfo { acf_msg_length: (i.acf_msg_length + 1) as u16, ..i })
        + frame.subrange(8, frame.len() as int) + be32(crc)
}

/// Decoded headers always fit the field widths.
pub proof fn lemma_decoded_info_valid(s: Seq<u8>)
    requires
        s.len() >= 8,
    ensures
        info_fields_valid(info_of_bytes(s)),
{
}

/// Turns a CRC-free encoded ACF message into its CRC-protected wire form:
/// its `acf_msg_length` grows by one quadlet and `crc`'s four big-endian
/// octets follow the payload and its pad.
///
/// Fails, leaving `frame` unchanged, with `ShortFrame` when `frame` holds
/// fewer than eight octets, and with `InvalidSize` when the grown length
/// would not fit 9 bits.
pub fn finalize_crc_trailer(frame: &mut Vec<u8>, crc: u32) -> (r: Result<(), RcpError>)
    ensures
        match r {
            Ok(()) => old(frame)@.len() >= 8 && info_of_bytes(old(frame)@).acf_msg_length < 0x1FF
                && final(frame)@ == finalized_frame(old(frame)@, crc),
            Err(e) => final(frame)@ == old(frame)@ && if old(frame)@.len() < 8 {
                e == RcpError::ShortFrame
            } else {
                info_of_bytes(old(frame)@).acf_msg_length >= 0x1FF && e == RcpError::InvalidSize
            },
        },
{
    if frame.len() < acf::BYTE_MESSAGE_INFO_LEN {
        return Err(RcpError::ShortFrame);
    }
    let info = acf::decode_byte_message_info(frame.as_slice())?;
    if info.acf_msg_length >= acf::ACF_MSG_LENGTH_9BIT_MAX {
        return Err(RcpError::InvalidSize);
    }
    let grown = ByteMessageInfo { acf_msg_length: info.acf_msg_length + CRC_TRAILER_QUADLETS, ..info };
    proof {
        lemma_decoded_info_valid(frame@);
    }
    let header = match acf::encode_byte_message_info(&grown) {
        Ok(h) => h,
        Err(e) => {
            return Err(e);
        },
    };
    let n = frame.len();
    let rest = copy_range(frame.as_slice(), acf::BYTE_MESSAGE_INFO_LEN, n);
    let mut out = header;
    push_all(&mut out, rest.as_slice());
    push_be32(&mut out, crc);
    *frame = out;
    Ok(())
}

/// The body and CRC that a CRC-protected frame splits into: the header
/// re-encoded to count one quadlet less, the octets between header and
/// trailer, and the trailer read as a big-endian `u32`.
pub open spec fn split_body(frame: Seq<u8>) -> Seq<u8> {
    let i = info_of_bytes(frame);
    info_bytes(ByteMessageInfo { acf_msg_length: (i.acf_msg_length - 1) as u16, ..i })
        + frame.subrange(8, frame.len() - 4)
}

pub open spec fn split_crc(frame: Seq<u8>) -> u32 {
    let n = frame.len() as int;
    from_be32(frame[n - 4], frame[n - 3], frame[n - 2], frame[n - 1])
}

/// Splits a CRC-protected ACF message into its CRC-free body (whose header
/// counts one quadlet less) and the trailer's CRC value.
///
/// Fails with `ShortFrame` when `frame` is shorter than a header plus the
/// trailer, and with `InvalidSize` when its `acf_msg_length` is zero.
pub fn split_crc_trailer(frame: &[u8]) -> (r: Result<(Vec<u8>, u32), RcpError>)
    ensures
        match r {
            Ok((body, crc)) => frame@.len() >= 12 && info_of_bytes(frame@).acf_msg_length >= 1
                && body@ == split_body(frame@) && crc == split_crc(frame@),
            Err(e) => if frame@.len() < 12 {
                e == RcpError::ShortFrame
            } else {
                info_of_bytes(frame@).acf_msg_length == 0 && e == RcpError::InvalidSize
            },
        },
{
    if frame.len() < acf::BYTE_MESSAGE_INFO_LEN + CRC_TRAILER_LEN {
        return Err(RcpError::ShortFrame);
    }
    let info = acf::decode_byte_message_info(frame)?;
    if info.acf_msg_length < CRC_TRAILER_QUADLETS {
        return Err(RcpError::InvalidSize);
    }
    let shrunk = ByteMessageInfo { acf_msg_length: info.acf_msg_length - CRC_TRAILER_QUADLETS, ..info };
    proof {
        lemma_decoded_info_valid(frame@);
    }
    let header = match acf::encode_byte_message_info(&shrunk) {
        Ok(h) => h,
        Err(e) => {
            return Err(e);
        },
    };
    let n = frame.len();
    let crc_start = n - CRC_TRAILER_LEN;
    let crc = ((frame[crc_start] as u32) << 24u32) | ((frame[crc_start + 1] as u32) << 16u32) | ((
    frame[crc_start + 2] as u32) << 8u32) | (frame[crc_start + 3] as u32);
    let middle = copy_range(frame, acf::BYTE_MESSAGE_INFO_LEN, crc_start);
    let mut body = header;
    push_all(&mut body, middle.as_slice());
    Ok((body, crc))
}

/// Splitting a finalized frame gives back the frame (with its header
/// re-encoded in canonical form) and the CRC that was appended.
pub proof fn lemma_finalize_split_roundtrip(frame: Seq<u8>, crc: u32)
    requires
        frame.len() >= 8,
        info_of_bytes(frame).acf_msg_length < 0x1FF,
    ensures
        finalized_frame(frame, crc).len() >= 12,
        info_of_bytes(finalized_frame(frame, crc)).acf_msg_length >= 1,
        split_body(finalized_frame(frame, crc)) == info_bytes(info_of_bytes(frame)) + frame.subrange(
            8,
            frame.len() as int,
        ),
        split_crc(finalized_frame(frame, crc)) == crc,
{
    let i = info_of_bytes(frame);
    let grown = ByteMessageInfo { acf_msg_length: (i.acf_msg_length + 1) as u16, ..i };
    lemma_decoded_info_valid(frame);
    acf::lemma_info_roundtrip(grown);
    let f = finalized_frame(frame, crc);
    let n = f.len() as int;
    assert(f.subrange(0, 8) =~= info_bytes(grown));
    assert(info_of_bytes(f) == info_of_bytes(info_bytes(grown)));
    let shrunk = ByteMessageInfo { acf_msg_length: (grown.acf_msg_length - 1) as u16, ..grown };
    assert(shrunk == i);
    assert(f.subrange(8, n - 4) =~= frame.subrange(8, frame.len() as int));
    assert(seq![f[n - 4], f[n - 3], f[n - 2], f[n - 1]] =~= be32(crc));
    crate::wire::lemma_be32_roundtrip(crc);
}

/// The concatenation of `segments`, in order.
pub open spec fn concat_segments(segments: Seq<Seq<u8>>) -> Seq<u8>
    decreases segments.len(),
{
    if segments.len() == 0 {
        Seq::empty()
    } else {
        concat_segments(segments.drop_last()) + segments.last()
    }
}

/// The views of borrowed segments.
pub open spec fn segment_views(segments: Seq<&[u8]>) -> Seq<Seq<u8>> {
    segments.map_values(|s: &[u8]| s@)
}

/// The combined payload of a fragment train: every segment's payload,
/// concatenated in the order given.
#[derive(Debug, Clone, PartialEq, Eq, Default)]
pub struct CombinedFragmentPayload(pub Vec<u8>);

impl CombinedFragmentPayload {
    /// Concatenates `segments` verbatim, in the order given.
    pub fn assemble(segments: &[&[u8]]) -> (r: CombinedFragmentPayload)
        ensures
            r.0@ == concat_segments(segment_views(segments@)),
    {
        let mut combined: Vec<u8> = Vec::new();
        let mut i: usize = 0;
        while i < segments.len()
            invariant
                i <= segments@.len(),
                combined@ == concat_segments(segment_views(segments@.subrange(0, i as int))),
            decreases segments.len() - i,
        {
            let seg: &[u8] = segments[i];
            push_all(&mut combined, seg);
            assert(segment_views(segments@.subrange(0, i + 1)).drop_last() =~= segment_views(
                segments@.subrange(0, i as int),
            ));
            i = i + 1;
        }
        assert(segments@.subrange(0, segments@.len() as int) =~= segments@);
        CombinedFragmentPayload(combined)
    }
}

/// Assembles the coverage buffer of a fragment train: that of `final_fragment`
/// with the train's combined payload in place of its own payload.
///
/// Fails with `InvalidSize` exactly when `final_fragment`'s adjusted header
/// does not fit the field widths.
pub fn build_crc32_coverage_buffer_for_fragment_train(
    header: &HeaderVariant,
    final_fragment: &AcfCoverageMessage,
    segments: &[&[u8]],
) -> (r: Result<Vec<u8>, RcpError>)
    ensures
        match r {
            Ok(v) => info_fields_valid(coverage_info(*final_fragment)) && v@ == coverage_buffer(
                *header,
                *final_fragment,
                concat_segments(segment_views(segments@)),
            ),
            Err(e) => !info_fields_valid(coverage_info(*final_fragment)) && e
                == RcpError::InvalidSize,
        },
{
    let combined = CombinedFragmentPayload::assemble(segments);
    match final_fragment {
        AcfCoverageMessage::Abb(msg) => {
            let combined_msg = AcfAbbMessage { info: msg.info, payload: combined.0 };
            let m = AcfCoverageMessage::Abb(&combined_msg);
            assert(coverage_info(m) == coverage_info(*final_fragment));
            build_crc32_coverage_buffer(header, &m)
        },
        AcfCoverageMessage::Gbb(msg) => {
            let combined_msg = AcfGbbMessage {
                info: msg.info,
                message_timestamp: msg.message_timestamp,
                payload: combined.0,
            };
            let m = AcfCoverageMessage::Gbb(&combined_msg);
            assert(coverage_info(m) == coverage_info(*final_fragment));
            build_crc32_coverage_buffer(header, &m)
        },
    }
}

/// The safe-point CRC-32 of a fragment train: the CRC of its coverage buffer.
///
/// Fails with `InvalidSize` exactly when `final_fragment`'s adjusted header
/// does not fit the field widths.
pub fn crc32_tc18_for_fragment_train(
    header: &HeaderVariant,
    final_fragment: &AcfCoverageMessage,
    segments: &[&[u8]],
) -> (r: Result<u32, RcpError>)
    ensures
        match r {
            Ok(c) => info_fields_valid(coverage_info(*final_fragment)) && c == crc32_tc18_spec(
                coverage_buffer(
                    *header,
                    *final_fragment,
                    concat_segments(segment_views(segments@)),
                ),
            ),
            Err(e) => !info_fields_valid(coverage_info(*final_fragment)) && e
                == RcpError::InvalidSize,
        },
{
    let buf = build_crc32_coverage_buffer_for_fragment_train(header, final_fragment, segments)?;
    Ok(crc32_tc18(buf.as_slice()))
}

/// Whether a CRC is expected to accompany a fragment.
#[derive(Debug, Clone, Copy, PartialEq, Eq)]
pub enum FragmentCrcExpectation {
    /// More segments follow (`ms == true`): no CRC.
    NotExpected,
    /// The train's final fragment (`ms == false`): a CRC.
    Expected,
}

/// Only the final fragment (`ms == false`) carries the CRC.
pub fn fragment_crc_expectation(ms: bool) -> (r: FragmentCrcExpectation)
    ensures
        r == (if ms {
            FragmentCrcExpectation::NotExpected
        } else {
            FragmentCrcExpectation::Expected
        }),
{
    if ms {
        FragmentCrcExpectation::NotExpected
    } else {
        FragmentCrcExpectation::Expected
    }
}

/// `Ok` exactly when a CRC is present on the final fragment and absent on
/// every other one; otherwise `InvalidParameter`.
pub fn check_fragment_crc_placement(ms: bool, crc_present: bool) -> (r: Result<(), RcpError>)
    ensures
        r == (if ms != crc_present {
            Ok(())
        } else {
            Err(RcpError::InvalidParameter)
        }),
{
    match (fragment_crc_expectation(ms), crc_present) {
        (FragmentCrcExpectation::NotExpected, false) => Ok(()),
        (FragmentCrcExpectation::Expected, true) => Ok(()),
        _ => Err(RcpError::InvalidParameter),
    }
}

} // verus!
