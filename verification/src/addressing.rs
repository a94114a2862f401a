//! Endpoint addressing: the table that maps a `(stream_id, byte_bus_id)`
//! pair to the endpoint registered under it.
use vstd::prelude::*;

use crate::acf::BYTE_MESSAGE_INFO_11BIT_MAX;
use crate::avtp::StreamId;
use crate::RcpError;

verus! {

/// Identifies a registered endpoint.
#[derive(Debug, Clone, Copy, PartialEq, Eq, Hash)]
pub struct EndpointId(pub u32);

/// The endpoints registered under `(stream_id, byte_bus_id)` pairs.
#[derive(Debug, Clone)]
pub struct EndpointTable {
    entries: Vec<(u64, u16, u32)>,
}

impl EndpointTable {
    /// The table as a map from `(stream_id, byte_bus_id)` to endpoint id.
    pub closed spec fn view_map(self) -> Map<(u64, u16), u32> {
        Map::new(
            |k: (u64, u16)| exists|i: int| 0 <= i < self.entries@.len() && (#[trigger] self.entries@[i]).0 == k.0 && self.entries@[i].1 == k.1,
            |k: (u64, u16)| {
                let i = choose|i: int| 0 <= i < self.entries@.len() && (#[trigger] self.entries@[i]).0 == k.0 && self.entries@[i].1 == k.1;
                self.entries@[i].2
            },
        )
    }

    /// No pair is registered twice, and every registered `byte_bus_id` fits
    /// its 11 bits.
    pub closed spec fn wf(self) -> bool {
        &&& forall|i: int, j: int|
            0 <= i < j < self.entries@.len() ==> !((#[trigger] self.entries@[i]).0 == (
            #[trigger] self.entries@[j]).0 && self.entries@[i].1 == self.entries@[j].1)
        &&& forall|i: int| 0 <= i < self.entries@.len() ==> (#[trigger] self.entries@[i]).1 <= 0x7FF
    }

    /// Every registered `byte_bus_id` fits its 11 bits.
    pub proof fn lemma_registered_ids_fit(self)
        requires
            self.wf(),
        ensures
            forall|k: (u64, u16)| #[trigger] self.view_map().dom().contains(k) ==> k.1 <= 0x7FF,
    {
        assert forall|k: (u64, u16)| #[trigger] self.view_map().dom().contains(k) implies k.1 <= 0x7FF by {
            let i = choose|i: int| 0 <= i < self.entries@.len() && (#[trigger] self.entries@[i]).0 == k.0 && self.entries@[i].1 == k.1;
        }
    }

    /// An empty table.
    pub fn new() -> (r: EndpointTable)
        ensures
            r.wf(),
            r.view_map() == Map::<(u64, u16), u32>::empty(),
    {
        let r = EndpointTable { entries: Vec::new() };
        assert(r.view_map() =~= Map::<(u64, u16), u32>::empty());
        r
    }

    fn find(&self, stream_id: u64, byte_bus_id: u16) -> (r: Option<usize>)
        requires
            self.wf(),
        ensures
            match r {
                Some(i) => i < self.entries@.len() && self.entries@[i as int].0 == stream_id
                    && self.entries@[i as int].1 == byte_bus_id,
                None => forall|i: int|
                    0 <= i < self.entries@.len() ==> !((#[trigger] self.entries@[i]).0
                        == stream_id && self.entries@[i].1 == byte_bus_id),
            },
    {
        let mut i: usize = 0;
        while i < self.entries.len()
            invariant
                i <= self.entries@.len(),
                forall|j: int|
                    0 <= j < i ==> !((#[trigger] self.entries@[j]).0 == stream_id
                        && self.entries@[j].1 == byte_bus_id),
            decreases self.entries.len() - i,
        {
            let e = self.entries[i];
            if e.0 == stream_id && e.1 == byte_bus_id {
                return Some(i);
            }
            i = i + 1;
        }
        None
    }

    /// Registers `id` under `(stream_id, byte_bus_id)`. Fails, leaving the
    /// table unchanged, with `InvalidSize` when `byte_bus_id` does not fit its
    /// 11 bits, and with `EpError` when the pair is already registered.
    pub fn register(&mut self, stream_id: StreamId, byte_bus_id: u16, id: EndpointId) -> (r: Result<
        (),
        RcpError,
    >)
        requires
            old(self).wf(),
        ensures
            final(self).wf(),
            old(self).view_map().dom().contains((stream_id.0, byte_bus_id)) ==> r == Err::<
                (),
                RcpError,
            >(RcpError::EpError),
            match r {
                Ok(()) => byte_bus_id <= 0x7FF && !old(self).view_map().dom().contains((stream_id.0, byte_bus_id))
                    && final(self).view_map() == old(self).view_map().insert(
                    (stream_id.0, byte_bus_id),
                    id.0,
                ),
                Err(e) => final(self).view_map() == old(self).view_map() && if byte_bus_id > 0x7FF {
                    e == RcpError::InvalidSize
                } else {
                    old(self).view_map().dom().contains((stream_id.0, byte_bus_id)) && e
                        == RcpError::EpError
                },
            },
    {
        proof {
            self.lemma_registered_ids_fit();
        }
        if byte_bus_id > BYTE_MESSAGE_INFO_11BIT_MAX {
            return Err(RcpError::InvalidSize);
        }
        match self.find(stream_id.0, byte_bus_id) {
            Some(i) => {
                assert(old(self).view_map().dom().contains((stream_id.0, byte_bus_id)));
                Err(RcpError::EpError)
            },
            None => {
                let ghost old_map = self.view_map();
                let ghost old_entries = self.entries@;
                self.entries.push((stream_id.0, byte_bus_id, id.0));
                let ghost k0 = (stream_id.0, byte_bus_id);
                assert forall|k: (u64, u16)| #[trigger] self.view_map().dom().contains(k)
                    == old_map.insert(k0, id.0).dom().contains(k) by {
                    if k == k0 {
                        let n = old_entries.len() as int;
                        assert(self.entries@[n].0 == k.0 && self.entries@[n].1 == k.1);
                    } else if old_map.dom().contains(k) {
                        let i = choose|i: int| 0 <= i < old_entries.len() && (#[trigger] old_entries[i]).0 == k.0 && old_entries[i].1 == k.1;
                        assert(self.entries@[i] == old_entries[i]);
                    } else if self.view_map().dom().contains(k) {
                        let i = choose|i: int| 0 <= i < self.entries@.len() && (#[trigger] self.entries@[i]).0 == k.0 && self.entries@[i].1 == k.1;
                        assert(i < old_entries.len());
                        assert(old_entries[i] == self.entries@[i]);
                    }
                }
                assert forall|k: (u64, u16)| #[trigger] self.view_map().dom().contains(k) implies
                    self.view_map()[k] == old_map.insert(k0, id.0)[k] by {
                    let i = choose|i: int| 0 <= i < self.entries@.len() && (#[trigger] self.entries@[i]).0 == k.0 && self.entries@[i].1 == k.1;
                    if k == k0 {
                        assert(i == old_entries.len());
                    } else {
                        assert(i < old_entries.len());
                        assert(old_entries[i] == self.entries@[i]);
                        let j = choose|j: int| 0 <= j < old_entries.len() && (#[trigger] old_entries[j]).0 == k.0 && old_entries[j].1 == k.1;
                        assert(i == j);
                    }
                }
                assert(self.view_map() =~= old_map.insert(k0, id.0));
                Ok(())
            },
        }
    }

    /// The endpoint registered under `(stream_id, byte_bus_id)`, if any.
    pub fn lookup(&self, stream_id: StreamId, byte_bus_id: u16) -> (r: Option<EndpointId>)
        requires
            self.wf(),
        ensures
            match r {
                Some(id) => self.view_map().dom().contains((stream_id.0, byte_bus_id))
                    && self.view_map()[(stream_id.0, byte_bus_id)] == id.0,
                None => !self.view_map().dom().contains((stream_id.0, byte_bus_id)),
            },
    {
        match self.find(stream_id.0, byte_bus_id) {
            Some(i) => {
                let e = self.entries[i];
                proof {
                    let k = (stream_id.0, byte_bus_id);
                    assert(self.view_map().dom().contains(k));
                    let j = choose|j: int| 0 <= j < self.entries@.len() && (#[trigger] self.entries@[j]).0 == k.0 && self.entries@[j].1 == k.1;
                    assert(i as int == j);
                }
                Some(EndpointId(e.2))
            },
            None => None,
        }
    }
}

} // verus!
