//! Deterministic fault injection for safety test campaigns.
//!
//! A [`FaultInjectEndpoint`] wraps an inner [`Endpoint`] and counts every
//! `read` and `write` in one shared counter. Before each call it advances the
//! counter and consults its rules in the order they were injected: the first
//! rule that fires on the new call number decides the error the call fails
//! with, and the inner endpoint is not touched. When no rule fires, the call
//! goes through to the inner endpoint.
use vstd::prelude::*;

use crate::mock::Endpoint;
use crate::regmap::EndpointType;
use crate::RcpError;

verus! {

/// When a fault is injected.
#[derive(Clone, Copy, Debug)]
pub enum FaultRule {
    /// On every call.
    Always,
    /// On the Nth call (1-based) only.
    OnNthCall(u64),
    /// On the Nth call and every call after it.
    AfterNthCall(u64),
}

/// A configured fault: the rule that fires it and the error it injects.
#[derive(Clone, Debug)]
pub struct FaultSpec {
    pub rule: FaultRule,
    pub error: RcpError,
}

/// Whether `rule` fires on call number `call_no`.
pub open spec fn rule_fires(rule: FaultRule, call_no: u64) -> bool {
    match rule {
        FaultRule::Always => true,
        FaultRule::OnNthCall(n) => call_no == n,
        FaultRule::AfterNthCall(n) => call_no >= n,
    }
}

/// The error of the first spec in `faults` whose rule fires on `call_no`.
pub open spec fn first_fault(faults: Seq<FaultSpec>, call_no: u64) -> Option<RcpError>
    decreases faults.len(),
{
    if faults.len() == 0 {
        None
    } else if rule_fires(faults[0].rule, call_no) {
        Some(faults[0].error)
    } else {
        first_fault(faults.drop_first(), call_no)
    }
}

/// The call number after `calls` calls have been made, counting modulo 2^64.
pub open spec fn next_call_no(calls: u64) -> u64 {
    ((calls + 1) % 0x1_0000_0000_0000_0000) as u64
}

/// Whether `rule` fires on call number `call_no`.
fn fires(rule: FaultRule, call_no: u64) -> (r: bool)
    ensures
        r == rule_fires(rule, call_no),
{
    match rule {
        FaultRule::Always => true,
        FaultRule::OnNthCall(n) => call_no == n,
        FaultRule::AfterNthCall(n) => call_no >= n,
    }
}

/// A fault-injecting wrapper around an endpoint.
pub struct FaultInjectEndpoint<E> {
    inner: E,
    faults: Vec<FaultSpec>,
    call_no: u64,
}

impl<E: Endpoint> FaultInjectEndpoint<E> {
    /// The wrapped endpoint.
    pub closed spec fn inner_of(&self) -> E {
        self.inner
    }

    /// The installed rules, in injection order.
    pub closed spec fn faults_of(&self) -> Seq<FaultSpec> {
        self.faults@
    }

    /// How many calls have been made (modulo 2^64).
    pub closed spec fn calls_of(&self) -> u64 {
        self.call_no
    }

    /// A wrapper around `inner` with no rules and no calls made.
    pub fn new(inner: E) -> (r: FaultInjectEndpoint<E>)
        ensures
            r.inner_of() == inner,
            r.faults_of() == Seq::<FaultSpec>::empty(),
            r.calls_of() == 0,
    {
        FaultInjectEndpoint { inner, faults: Vec::new(), call_no: 0 }
    }

    /// Install `spec` after the rules already installed.
    pub fn inject(&mut self, spec: FaultSpec)
        ensures
            final(self).faults_of() == old(self).faults_of().push(spec),
            final(self).inner_of() == old(self).inner_of(),
            final(self).calls_of() == old(self).calls_of(),
    {
        self.faults.push(spec);
    }

    /// Remove every rule.
    pub fn clear(&mut self)
        ensures
            final(self).faults_of() == Seq::<FaultSpec>::empty(),
            final(self).inner_of() == old(self).inner_of(),
            final(self).calls_of() == old(self).calls_of(),
    {
        self.faults.clear();
    }

    /// The number of `read` / `write` calls made, faulted ones included.
    pub fn call_count(&self) -> (r: u64)
        ensures
            r == self.calls_of(),
    {
        self.call_no
    }

    /// Advance the call counter and return the error of the first rule that
    /// fires on the new call number.
    fn next_fault(&mut self) -> (r: Option<RcpError>)
        ensures
            final(self).calls_of() == next_call_no(old(self).calls_of()),
            final(self).faults_of() == old(self).faults_of(),
            final(self).inner_of() == old(self).inner_of(),
            r == first_fault(old(self).faults_of(), final(self).calls_of()),
    {
        self.call_no = self.call_no.wrapping_add(1);
        let call_no = self.call_no;
        let mut i: usize = 0;
        assert(self.faults@.subrange(0, self.faults@.len() as int) =~= self.faults@);
        while i < self.faults.len()
            invariant
                i <= self.faults@.len(),
                call_no == self.call_no,
                self.call_no == next_call_no(old(self).calls_of()),
                self.faults@ == old(self).faults_of(),
                self.inner == old(self).inner_of(),
                first_fault(self.faults@, call_no) == first_fault(
                    self.faults@.subrange(i as int, self.faults@.len() as int),
                    call_no,
                ),
            decreases self.faults@.len() - i,
        {
            let ghost rest = self.faults@.subrange(i as int, self.faults@.len() as int);
            assert(rest[0] == self.faults@[i as int]);
            if fires(self.faults[i].rule, call_no) {
                return Some(self.faults[i].error.duplicate());
            }
            assert(rest.drop_first() =~= self.faults@.subrange(i + 1, self.faults@.len() as int));
            i = i + 1;
        }
        assert(self.faults@.subrange(i as int, self.faults@.len() as int) =~= Seq::<FaultSpec>::empty());
        None
    }
}

impl<E: Endpoint> Endpoint for FaultInjectEndpoint<E> {
    /// A read counts the call, then either fails with the first firing rule's
    /// error, the inner endpoint untouched, or is the inner endpoint's read.
    open spec fn read_spec(
        pre: &Self,
        read_size: u16,
        post: &Self,
        r: &Result<Vec<u8>, RcpError>,
    ) -> bool {
        &&& post.calls_of() == next_call_no(pre.calls_of())
        &&& post.faults_of() == pre.faults_of()
        &&& match first_fault(pre.faults_of(), post.calls_of()) {
            Some(e) => *r == Err::<Vec<u8>, RcpError>(e) && post.inner_of() == pre.inner_of(),
            None => E::read_spec(&pre.inner_of(), read_size, &post.inner_of(), r),
        }
    }

    /// A write counts the call, then either fails with the first firing
    /// rule's error, the inner endpoint untouched, or is the inner endpoint's
    /// write.
    open spec fn write_spec(pre: &Self, payload: Seq<u8>, post: &Self, r: &Result<(), RcpError>) -> bool {
        &&& post.calls_of() == next_call_no(pre.calls_of())
        &&& post.faults_of() == pre.faults_of()
        &&& match first_fault(pre.faults_of(), post.calls_of()) {
            Some(e) => *r == Err::<(), RcpError>(e) && post.inner_of() == pre.inner_of(),
            None => E::write_spec(&pre.inner_of(), payload, &post.inner_of(), r),
        }
    }

    /// The inner endpoint's type.
    fn ep_type(&self) -> (r: EndpointType)
        ensures
            call_ensures(E::ep_type, (&self.inner_of(),), r),
    {
        self.inner.ep_type()
    }

    /// Counts the call; fails with the first firing rule's error without
    /// touching the inner endpoint, or else reads from the inner endpoint.
    fn read(&mut self, read_size: u16) -> (r: Result<Vec<u8>, RcpError>)
        ensures
            final(self).calls_of() == next_call_no(old(self).calls_of()),
            final(self).faults_of() == old(self).faults_of(),
            match first_fault(old(self).faults_of(), final(self).calls_of()) {
                Some(e) => r == Err::<Vec<u8>, RcpError>(e) && final(self).inner_of() == old(
                    self,
                ).inner_of(),
                None => E::read_spec(&old(self).inner_of(), read_size, &final(self).inner_of(), &r),
            },
    {
        match self.next_fault() {
            Some(e) => Err(e),
            None => self.inner.read(read_size),
        }
    }

    /// Counts the call; fails with the first firing rule's error without
    /// touching the inner endpoint, or else writes to the inner endpoint.
    fn write(&mut self, payload: &[u8]) -> (r: Result<(), RcpError>)
        ensures
            final(self).calls_of() == next_call_no(old(self).calls_of()),
            final(self).faults_of() == old(self).faults_of(),
            match first_fault(old(self).faults_of(), final(self).calls_of()) {
                Some(e) => r == Err::<(), RcpError>(e) && final(self).inner_of() == old(
                    self,
                ).inner_of(),
                None => E::write_spec(&old(self).inner_of(), payload@, &final(self).inner_of(), &r),
            },
    {
        match self.next_fault() {
            Some(e) => Err(e),
            None => self.inner.write(payload),
        }
    }
}

/// The first matching rule wins: a rule fires on a call only if no earlier
/// rule does, and a rule that fires makes the call fail unless an earlier
/// one fired first.
pub proof fn lemma_first_match_wins(faults: Seq<FaultSpec>, call_no: u64, k: int)
    requires
        0 <= k < faults.len(),
        rule_fires(faults[k].rule, call_no),
        forall|j: int| 0 <= j < k ==> !rule_fires(#[trigger] faults[j].rule, call_no),
    ensures
        first_fault(faults, call_no) == Some(faults[k].error),
    decreases k,
{
    if k > 0 {
        let rest = faults.drop_first();
        assert forall|j: int| 0 <= j < k - 1 implies !rule_fires(#[trigger] rest[j].rule, call_no) by {
            assert(rest[j] == faults[j + 1]);
        }
        assert(!rule_fires(faults[0].rule, call_no));
        lemma_first_match_wins(rest, call_no, k - 1);
    }
}

/// With no rule firing on a call, the call is not faulted.
pub proof fn lemma_no_firing_rule_no_fault(faults: Seq<FaultSpec>, call_no: u64)
    requires
        forall|j: int| 0 <= j < faults.len() ==> !rule_fires(#[trigger] faults[j].rule, call_no),
    ensures
        first_fault(faults, call_no) == None::<RcpError>,
    decreases faults.len(),
{
    if faults.len() > 0 {
        let rest = faults.drop_first();
        assert forall|j: int| 0 <= j < rest.len() implies !rule_fires(#[trigger] rest[j].rule, call_no) by {
            assert(rest[j] == faults[j + 1]);
        }
        assert(!rule_fires(faults[0].rule, call_no));
        lemma_no_firing_rule_no_fault(rest, call_no);
    }
}

} // verus!
