//! Reassembly of a fragmented request ("fragment train") from its
//! wire-arrival-ordered fragments, bounded by the stream's
//! `rx_stream_max_request_size`, and re-verification of the train's CRC.
use vstd::prelude::*;

use crate::acf::ByteMessageInfo;
use crate::avtp::HeaderVariant;
use crate::e2e::{
    self, concat_segments, coverage_buffer, coverage_info, crc32_tc18_spec, segment_views,
    AcfCoverageMessage, CombinedFragmentPayload,
};
use crate::acf::info_fields_valid;
use crate::RcpError;

verus! {

/// What accepting a fragment did.
#[derive(Debug, Clone, Copy, PartialEq, Eq)]
pub enum FragmentAcceptOutcome {
    /// `ms == true`: more segments are expected.
    Continuing,
    /// `ms == false`: the train is complete.
    Complete,
}

/// A reassembly buffer for one fragment train.
#[derive(Debug, Clone, PartialEq, Eq)]
pub struct FragmentReassemblyBuffer {
    max_request_size: u16,
    segments: Vec<Vec<u8>>,
    total_len: usize,
    next_expected_segment_num: u8,
    completed: bool,
}

/// The total length of `segments`.
pub open spec fn total_length(segments: Seq<Seq<u8>>) -> int {
    concat_segments(segments).len() as int
}

impl FragmentReassemblyBuffer {
    /// The configured bound on the combined payload, in octets.
    pub closed spec fn max_request_size_spec(self) -> u16 {
        self.max_request_size
    }

    /// The payloads accepted so far, in arrival order.
    pub closed spec fn segments_spec(self) -> Seq<Seq<u8>> {
        self.segments@.map_values(|v: Vec<u8>| v@)
    }

    /// The `segment_num` the next fragment must carry.
    pub closed spec fn next_segment_num_spec(self) -> u8 {
        self.next_expected_segment_num
    }

    /// Whether the last fragment accepted since the buffer was made or reset
    /// was a train's final one (`ms` clear).
    pub closed spec fn completed_spec(self) -> bool {
        self.completed
    }

    /// The buffer's invariant: its running total is the combined length of
    /// its segments, and never exceeds the bound.
    pub closed spec fn wf(self) -> bool {
        &&& self.total_len == total_length(self.segments_spec())
        &&& self.total_len <= self.max_request_size
    }

    /// An empty buffer bounded by `rx_stream_max_request_size` octets of
    /// combined payload (`0` means fragmentation is unsupported).
    pub fn new(rx_stream_max_request_size: u16) -> (r: FragmentReassemblyBuffer)
        ensures
            r.wf(),
            r.max_request_size_spec() == rx_stream_max_request_size,
            r.segments_spec() == Seq::<Seq<u8>>::empty(),
            r.next_segment_num_spec() == 0,
            !r.completed_spec(),
    {
        let r = FragmentReassemblyBuffer {
            max_request_size: rx_stream_max_request_size,
            segments: Vec::new(),
            total_len: 0,
            next_expected_segment_num: 0,
            completed: false,
        };
        assert(r.segments_spec() =~= Seq::<Seq<u8>>::empty());
        r
    }

    /// Whether the stream's bound allows fragmentation at all.
    pub fn fragmentation_supported(&self) -> (r: bool)
        ensures
            r == (self.max_request_size_spec() != 0),
    {
        self.max_request_size != 0
    }

    /// Whether a train is mid-reassembly: at least one fragment accepted
    /// since the buffer was made or reset, and the train not yet completed.
    pub fn is_in_progress(&self) -> (r: bool)
        ensures
            r == (self.segments_spec().len() > 0 && !self.completed_spec()),
    {
        self.segments.len() != 0 && !self.completed
    }

    /// Feeds one fragment, in wire-arrival order.
    ///
    /// Fails, leaving the buffer unchanged, with `UnsupportedCmd` when the
    /// bound is zero, with `InvalidParameter` when the fragment's
    /// `segment_num` is not the next one of the zero-based sequence, and with
    /// `PayloadTooLarge` when the combined payload would exceed the bound.
    /// Otherwise stores the payload and reports `Continuing` while `ms` is
    /// set, `Complete` on the final fragment.
    pub fn accept_fragment(&mut self, info: &ByteMessageInfo, payload: &[u8]) -> (r: Result<
        FragmentAcceptOutcome,
        RcpError,
    >)
        requires
            old(self).wf(),
        ensures
            final(self).wf(),
            final(self).max_request_size_spec() == old(self).max_request_size_spec(),
            match r {
                Ok(o) => {
                    &&& old(self).max_request_size_spec() != 0
                    &&& info.read_size_segment_num.0 == old(self).next_segment_num_spec()
                    &&& total_length(old(self).segments_spec()) + payload@.len()
                        <= old(self).max_request_size_spec()
                    &&& final(self).segments_spec() == old(self).segments_spec().push(payload@)
                    &&& final(self).next_segment_num_spec() == (old(
                        self,
                    ).next_segment_num_spec() + 1) % 256
                    &&& final(self).completed_spec() == !info.ms
                    &&& o == (if info.ms {
                        FragmentAcceptOutcome::Continuing
                    } else {
                        FragmentAcceptOutcome::Complete
                    })
                },
                Err(e) => {
                    &&& *final(self) == *old(self)
                    &&& if old(self).max_request_size_spec() == 0 {
                        e == RcpError::UnsupportedCmd
                    } else if info.read_size_segment_num.0 != old(self).next_segment_num_spec() {
                        e == RcpError::InvalidParameter
                    } else {
                        &&& total_length(old(self).segments_spec()) + payload@.len()
                            > old(self).max_request_size_spec()
                        &&& e == RcpError::PayloadTooLarge
                    }
                },
            },
    {
        if !self.fragmentation_supported() {
            return Err(RcpError::UnsupportedCmd);
        }
        let segment_num = info.read_size_segment_num.as_segment_num();
        if segment_num != self.next_expected_segment_num {
            return Err(RcpError::InvalidParameter);
        }
        let room = self.max_request_size as usize - self.total_len;
        if payload.len() > room {
            return Err(RcpError::PayloadTooLarge);
        }
        let ghost old_segs = self.segments_spec();
        let mut stored: Vec<u8> = Vec::new();
        crate::wire::push_all(&mut stored, payload);
        self.segments.push(stored);
        self.total_len = self.total_len + payload.len();
        self.next_expected_segment_num = if self.next_expected_segment_num == 255 {
            0
        } else {
            self.next_expected_segment_num + 1
        };
        self.completed = !info.ms;
        assert(self.segments_spec() =~= old_segs.push(payload@));
        assert(self.segments_spec().drop_last() =~= old_segs);
        if info.ms {
            Ok(FragmentAcceptOutcome::Continuing)
        } else {
            Ok(FragmentAcceptOutcome::Complete)
        }
    }

    /// Borrowed views of every accepted segment, in arrival order.
    pub fn segment_refs(&self) -> (r: Vec<&[u8]>)
        ensures
            segment_views(r@) == self.segments_spec(),
    {
        let mut out: Vec<&[u8]> = Vec::new();
        let mut i: usize = 0;
        while i < self.segments.len()
            invariant
                i <= self.segments@.len(),
                out@.len() == i,
                segment_views(out@) == self.segments_spec().subrange(0, i as int),
            decreases self.segments.len() - i,
        {
            let seg: &[u8] = self.segments[i].as_slice();
            assert(seg@ == self.segments_spec()[i as int]);
            let ghost old_out = out@;
            out.push(seg);
            assert forall|j: int| 0 <= j < i + 1 implies #[trigger] segment_views(out@)[j]
                == self.segments_spec().subrange(0, i + 1)[j] by {
                if j < i {
                    assert(out@[j] == old_out[j]);
                    assert(segment_views(old_out)[j] == self.segments_spec().subrange(0, i as int)[j]);
                }
            }
            i = i + 1;
            assert(segment_views(out@) =~= self.segments_spec().subrange(0, i as int));
        }
        assert(self.segments_spec().subrange(0, i as int) =~= self.segments_spec());
        out
    }

    /// The combined payload of every accepted segment, in arrival order.
    pub fn combined_payload(&self) -> (r: CombinedFragmentPayload)
        ensures
            r.0@ == concat_segments(self.segments_spec()),
    {
        let refs = self.segment_refs();
        CombinedFragmentPayload::assemble(refs.as_slice())
    }

    /// Clears all accumulated state, keeping the bound.
    pub fn reset(&mut self)
        ensures
            final(self).wf(),
            final(self).max_request_size_spec() == old(self).max_request_size_spec(),
            final(self).segments_spec() == Seq::<Seq<u8>>::empty(),
            final(self).next_segment_num_spec() == 0,
            !final(self).completed_spec(),
    {
        self.segments = Vec::new();
        self.total_len = 0;
        self.next_expected_segment_num = 0;
        self.completed = false;
        assert(self.segments_spec() =~= Seq::<Seq<u8>>::empty());
    }
}

/// Re-verifies a reassembled train's CRC placement and computes its CRC over
/// the buffer's own segments.
///
/// Fails with `InvalidParameter` when the (final) fragment carries no CRC,
/// and with `InvalidSize` when `final_fragment`'s adjusted header does not fit
/// the field widths.
pub fn verify_reassembled_train_crc(
    buffer: &FragmentReassemblyBuffer,
    header: &HeaderVariant,
    final_fragment: &AcfCoverageMessage,
    crc_present: bool,
) -> (r: Result<u32, RcpError>)
    ensures
        match r {
            Ok(c) => crc_present && info_fields_valid(coverage_info(*final_fragment)) && c
                == crc32_tc18_spec(
                coverage_buffer(*header, *final_fragment, concat_segments(buffer.segments_spec())),
            ),
            Err(e) => if !crc_present {
                e == RcpError::InvalidParameter
            } else {
                !info_fields_valid(coverage_info(*final_fragment)) && e == RcpError::InvalidSize
            },
        },
{
    e2e::check_fragment_crc_placement(false, crc_present)?;
    let refs = buffer.segment_refs();
    e2e::crc32_tc18_for_fragment_train(header, final_fragment, refs.as_slice())
}

} // verus!
