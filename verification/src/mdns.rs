//! mDNS/DNS-SD service records: an in-process registry of announced services
//! (service type `_rcp._tcp.local.`), resolved by name.
//!
//! A resolved record gives a host and port to dial; the peer's actual stream
//! id is learned afterwards by the protocol's own discovery exchange, so a
//! record's `stream_id` is whatever the announcer put there.
use vstd::prelude::*;

use std::collections::HashMap;

use crate::avtp::StreamId;

verus! {

/// A discovered mDNS service record.
#[derive(Debug, Clone)]
pub struct ServiceRecord {
    pub host: String,
    pub port: u16,
    pub stream_id: StreamId,
    pub txt: HashMap<String, String>,
}

/// `a` and `b` hold the same host, port, stream id and TXT entries.
pub open spec fn same_record(a: ServiceRecord, b: ServiceRecord) -> bool {
    &&& a.host@ == b.host@
    &&& a.port == b.port
    &&& a.stream_id == b.stream_id
    &&& a.txt@ == b.txt@
}

impl ServiceRecord {
    /// A copy of this record.
    pub fn duplicate(&self) -> (r: ServiceRecord)
        ensures
            same_record(r, *self),
    {
        ServiceRecord {
            host: self.host.clone(),
            port: self.port,
            stream_id: self.stream_id,
            txt: self.txt.clone(),
        }
    }
}

/// The announced services, by name.
pub struct MdnsRegistry {
    records: Vec<(String, ServiceRecord)>,
}

impl MdnsRegistry {
    /// The registry as a map from service name to record.
    pub closed spec fn view_map(&self) -> Map<Seq<char>, ServiceRecord> {
        Map::new(
            |k: Seq<char>| exists|i: int| 0 <= i < self.records@.len() && (#[trigger] self.records@[i]).0@ == k,
            |k: Seq<char>| {
                let i = choose|i: int| 0 <= i < self.records@.len() && (#[trigger] self.records@[i]).0@ == k;
                self.records@[i].1
            },
        )
    }

    /// No name is announced twice.
    pub closed spec fn wf(&self) -> bool {
        forall|i: int, j: int|
            0 <= i < j < self.records@.len() ==> (#[trigger] self.records@[i]).0@ != (
            #[trigger] self.records@[j]).0@
    }

    /// An empty registry.
    pub fn new() -> (r: MdnsRegistry)
        ensures
            r.wf(),
            r.view_map() == Map::<Seq<char>, ServiceRecord>::empty(),
    {
        let r = MdnsRegistry { records: Vec::new() };
        assert(r.view_map() =~= Map::<Seq<char>, ServiceRecord>::empty());
        r
    }

    fn find(&self, name: &String) -> (r: Option<usize>)
        requires
            self.wf(),
        ensures
            match r {
                Some(i) => i < self.records@.len() && self.records@[i as int].0@ == name@,
                None => forall|i: int|
                    0 <= i < self.records@.len() ==> (#[trigger] self.records@[i]).0@ != name@,
            },
    {
        let mut i: usize = 0;
        while i < self.records.len()
            invariant
                i <= self.records@.len(),
                forall|j: int| 0 <= j < i ==> (#[trigger] self.records@[j]).0@ != name@,
            decreases self.records.len() - i,
        {
            if self.records[i].0 == *name {
                return Some(i);
            }
            i = i + 1;
        }
        None
    }

    /// The entry at index `i` is the one `view_map` gives for its name.
    proof fn lemma_entry_is_mapped(&self, i: int)
        requires
            self.wf(),
            0 <= i < self.records@.len(),
        ensures
            self.view_map().dom().contains(self.records@[i].0@),
            self.view_map()[self.records@[i].0@] == self.records@[i].1,
    {
        let k = self.records@[i].0@;
        assert(self.view_map().dom().contains(k));
        let j = choose|j: int| 0 <= j < self.records@.len() && (#[trigger] self.records@[j]).0@ == k;
        if j != i {
            if j < i {
                assert(self.records@[j].0@ != self.records@[i].0@);
            } else {
                assert(self.records@[i].0@ != self.records@[j].0@);
            }
        }
    }

    /// Announce `record` under `name`, replacing any record announced under
    /// it before.
    pub fn announce(&mut self, name: &str, record: ServiceRecord)
        requires
            old(self).wf(),
        ensures
            final(self).wf(),
            final(self).view_map() == old(self).view_map().insert(name@, record),
    {
        let key = name.to_owned();
        let ghost old_recs = self.records@;
        let ghost old_map = self.view_map();
        match self.find(&key) {
            Some(i) => {
                self.records.set(i, (key, record));
                proof {
                    assert forall|a: int, b: int|
                        0 <= a < b < self.records@.len() implies (#[trigger] self.records@[a]).0@
                        != (#[trigger] self.records@[b]).0@ by {
                        assert(old_recs[a].0@ != old_recs[b].0@);
                    }
                    assert forall|k: Seq<char>| #[trigger] self.view_map().dom().contains(k) == old_map.insert(name@, record).dom().contains(k) by {
                        if old_map.dom().contains(k) && k != name@ {
                            let j = choose|j: int| 0 <= j < old_recs.len() && (#[trigger] old_recs[j]).0@ == k;
                            assert(self.records@[j].0@ == k);
                        }
                        if self.view_map().dom().contains(k) && k != name@ {
                            let j = choose|j: int| 0 <= j < self.records@.len() && (#[trigger] self.records@[j]).0@ == k;
                            assert(old_recs[j].0@ == k);
                        }
                        if k == name@ {
                            assert(self.records@[i as int].0@ == k);
                        }
                    }
                    assert forall|k: Seq<char>| #[trigger] self.view_map().dom().contains(k) implies self.view_map()[k] == old_map.insert(name@, record)[k] by {
                        let j = choose|j: int| 0 <= j < self.records@.len() && (#[trigger] self.records@[j]).0@ == k;
                        self.lemma_entry_is_mapped(j);
                        if k != name@ {
                            assert(old_recs[j] == self.records@[j]);
                            old(self).lemma_entry_is_mapped(j);
                        }
                    }
                    assert(self.view_map() =~= old_map.insert(name@, record));
                }
            },
            None => {
                self.records.push((key, record));
                proof {
                    let n = old_recs.len() as int;
                    assert forall|a: int, b: int|
                        0 <= a < b < self.records@.len() implies (#[trigger] self.records@[a]).0@
                        != (#[trigger] self.records@[b]).0@ by {
                        if b < n {
                            assert(old_recs[a].0@ != old_recs[b].0@);
                        } else {
                            assert(old_recs[a].0@ != name@);
                        }
                    }
                    assert forall|k: Seq<char>| #[trigger] self.view_map().dom().contains(k) == old_map.insert(name@, record).dom().contains(k) by {
                        if old_map.dom().contains(k) && k != name@ {
                            let j = choose|j: int| 0 <= j < old_recs.len() && (#[trigger] old_recs[j]).0@ == k;
                            assert(self.records@[j].0@ == k);
                        }
                        if self.view_map().dom().contains(k) && k != name@ {
                            let j = choose|j: int| 0 <= j < self.records@.len() && (#[trigger] self.records@[j]).0@ == k;
                            assert(j < n);
                            assert(old_recs[j].0@ == k);
                        }
                        if k == name@ {
                            assert(self.records@[n].0@ == k);
                        }
                    }
                    assert forall|k: Seq<char>| #[trigger] self.view_map().dom().contains(k) implies self.view_map()[k] == old_map.insert(name@, record)[k] by {
                        let j = choose|j: int| 0 <= j < self.records@.len() && (#[trigger] self.records@[j]).0@ == k;
                        self.lemma_entry_is_mapped(j);
                        if k != name@ {
                            assert(j < n);
                            assert(old_recs[j] == self.records@[j]);
                            old(self).lemma_entry_is_mapped(j);
                        }
                    }
                    assert(self.view_map() =~= old_map.insert(name@, record));
                }
            },
        }
    }

    /// Withdraw the record announced under `name`, if any.
    pub fn withdraw(&mut self, name: &str)
        requires
            old(self).wf(),
        ensures
            final(self).wf(),
            final(self).view_map() == old(self).view_map().remove(name@),
    {
        let key = name.to_owned();
        let ghost old_recs = self.records@;
        let ghost old_map = self.view_map();
        match self.find(&key) {
            Some(i) => {
                let _removed = self.records.remove(i);
                proof {
                    assert(self.records@ == old_recs.remove(i as int));
                    assert forall|a: int, b: int|
                        0 <= a < b < self.records@.len() implies (#[trigger] self.records@[a]).0@
                        != (#[trigger] self.records@[b]).0@ by {
                        let oa = if a < i { a } else { a + 1 };
                        let ob = if b < i { b } else { b + 1 };
                        assert(self.records@[a] == old_recs[oa]);
                        assert(self.records@[b] == old_recs[ob]);
                        assert(old_recs[oa].0@ != old_recs[ob].0@);
                    }
                    assert forall|k: Seq<char>| #[trigger] self.view_map().dom().contains(k) == old_map.remove(name@).dom().contains(k) by {
                        if old_map.dom().contains(k) && k != name@ {
                            let j = choose|j: int| 0 <= j < old_recs.len() && (#[trigger] old_recs[j]).0@ == k;
                            assert(j != i);
                            let nj = if j < i { j } else { j - 1 };
                            assert(self.records@[nj] == old_recs[j]);
                        }
                        if self.view_map().dom().contains(k) {
                            let j = choose|j: int| 0 <= j < self.records@.len() && (#[trigger] self.records@[j]).0@ == k;
                            let oj = if j < i { j } else { j + 1 };
                            assert(self.records@[j] == old_recs[oj]);
                            assert(oj != i);
                            if oj < i {
                                assert(old_recs[oj].0@ != old_recs[i as int].0@);
                            } else {
                                assert(old_recs[i as int].0@ != old_recs[oj].0@);
                            }
                        }
                    }
                    assert forall|k: Seq<char>| #[trigger] self.view_map().dom().contains(k) implies self.view_map()[k] == old_map.remove(name@)[k] by {
                        let j = choose|j: int| 0 <= j < self.records@.len() && (#[trigger] self.records@[j]).0@ == k;
                        self.lemma_entry_is_mapped(j);
                        let oj = if j < i { j } else { j + 1 };
                        assert(self.records@[j] == old_recs[oj]);
                        old(self).lemma_entry_is_mapped(oj);
                    }
                    assert(self.view_map() =~= old_map.remove(name@));
                }
            },
            None => {
                proof {
                    assert(!old_map.dom().contains(name@));
                    assert(self.view_map() =~= old_map.remove(name@));
                }
            },
        }
    }

    /// A copy of the record announced under `name`, or `None`.
    pub fn resolve(&self, name: &str) -> (r: Option<ServiceRecord>)
        requires
            self.wf(),
        ensures
            match r {
                Some(rec) => self.view_map().dom().contains(name@) && same_record(
                    rec,
                    self.view_map()[name@],
                ),
                None => !self.view_map().dom().contains(name@),
            },
    {
        let key = name.to_owned();
        match self.find(&key) {
            Some(i) => {
                proof {
                    self.lemma_entry_is_mapped(i as int);
                }
                Some(self.records[i].1.duplicate())
            },
            None => None,
        }
    }

    /// Every announced name, once each.
    pub fn names(&self) -> (r: Vec<String>)
        requires
            self.wf(),
        ensures
            forall|i: int| 0 <= i < r@.len() ==> self.view_map().dom().contains(#[trigger] r@[i]@),
            forall|k: Seq<char>| #[trigger]
                self.view_map().dom().contains(k) ==> exists|i: int| 0 <= i < r@.len() && r@[i]@ == k,
            forall|i: int, j: int| 0 <= i < j < r@.len() ==> (#[trigger] r@[i])@ != (#[trigger] r@[j])@,
    {
        let mut out: Vec<String> = Vec::new();
        let mut i: usize = 0;
        while i < self.records.len()
            invariant
                i <= self.records@.len(),
                self.wf(),
                out@.len() == i,
                forall|j: int| 0 <= j < i ==> (#[trigger] out@[j])@ == self.records@[j].0@,
            decreases self.records.len() - i,
        {
            out.push(self.records[i].0.clone());
            i = i + 1;
        }
        proof {
            assert forall|a: int| 0 <= a < out@.len() implies self.view_map().dom().contains(#[trigger] out@[a]@) by {
                self.lemma_entry_is_mapped(a);
            }
            assert forall|k: Seq<char>| #[trigger] self.view_map().dom().contains(k) implies exists|a: int| 0 <= a < out@.len() && out@[a]@ == k by {
                let j = choose|j: int| 0 <= j < self.records@.len() && (#[trigger] self.records@[j]).0@ == k;
                assert(out@[j]@ == k);
            }
            assert forall|a: int, b: int| 0 <= a < b < out@.len() implies (#[trigger] out@[a])@ != (#[trigger] out@[b])@ by {
                assert(self.records@[a].0@ != self.records@[b].0@);
            }
        }
        out
    }
}

impl Default for MdnsRegistry {
    /// An empty registry.
    fn default() -> (r: MdnsRegistry)
        ensures
            r.wf(),
            r.view_map() == Map::<Seq<char>, ServiceRecord>::empty(),
    {
        MdnsRegistry::new()
    }
}

/// After `announce(name, rec)`, `name` resolves to `rec`, and every other
/// name resolves as before.
pub proof fn lemma_announce_then_resolve(
    before: MdnsRegistry,
    after: MdnsRegistry,
    name: Seq<char>,
    rec: ServiceRecord,
    other: Seq<char>,
)
    requires
        after.view_map() == before.view_map().insert(name, rec),
        other != name,
    ensures
        after.view_map().dom().contains(name),
        after.view_map()[name] == rec,
        after.view_map().dom().contains(other) == before.view_map().dom().contains(other),
        after.view_map()[other] == before.view_map()[other],
{
}

/// After `withdraw(name)`, `name` no longer resolves, and every other name
/// resolves as before.
pub proof fn lemma_withdraw_then_resolve(
    before: MdnsRegistry,
    after: MdnsRegistry,
    name: Seq<char>,
    other: Seq<char>,
)
    requires
        after.view_map() == before.view_map().remove(name),
        other != name,
    ensures
        !after.view_map().dom().contains(name),
        after.view_map().dom().contains(other) == before.view_map().dom().contains(other),
        after.view_map()[other] == before.view_map()[other],
{
}

} // verus!
