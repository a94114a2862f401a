//! Runtime-checkable state invariants and property witnesses.
//!
//! An [`Invariant`] is a named predicate over a state. [`check_all`] sorts a
//! list of invariants into those that hold and those that do not, in list
//! order; [`witness`] finds the first state of a trace that violates one.
//!
//! A predicate is an ordinary closure. Its outcome on a state is whatever the
//! closure returns; the contracts below speak of it through the closure's own
//! postcondition (`call_ensures`), so they hold for any closure a caller
//! passes, deterministic or not.
use vstd::prelude::*;

verus! {

/// A named invariant with a checkable predicate.
pub struct Invariant<F> {
    pub name: &'static str,
    pub predicate: F,
}

impl<F> Invariant<F> {
    /// Name `f` as the invariant `name`.
    pub fn new(name: &'static str, f: F) -> (r: Invariant<F>)
        ensures
            r.name == name,
            r.predicate == f,
    {
        Invariant { name, predicate: f }
    }

    /// Evaluate the predicate on `state`.
    pub fn check<S>(&self, state: &S) -> (r: bool) where F: Fn(&S) -> bool
        requires
            call_requires(self.predicate, (state,)),
        ensures
            call_ensures(self.predicate, (state,), r),
    {
        (self.predicate)(state)
    }
}

/// Result of checking a list of invariants against one state: the names of
/// those that held and of those that did not, each in list order.
#[derive(Debug)]
pub struct CheckResult {
    pub passed: Vec<&'static str>,
    pub failed: Vec<&'static str>,
}

impl CheckResult {
    /// True exactly when no invariant failed.
    pub fn all_passed(&self) -> (r: bool)
        ensures
            r == (self.failed@.len() == 0),
    {
        self.failed.len() == 0
    }
}

impl Default for CheckResult {
    fn default() -> (r: CheckResult)
        ensures
            r.passed@ == Seq::<&'static str>::empty(),
            r.failed@ == Seq::<&'static str>::empty(),
    {
        CheckResult { passed: Vec::new(), failed: Vec::new() }
    }
}

/// The names of the invariants in `invs` whose outcome in `outs` is `want`,
/// in list order.
pub open spec fn names_with<F>(invs: Seq<Invariant<F>>, outs: Seq<bool>, want: bool) -> Seq<
    &'static str,
>
    decreases invs.len(),
{
    if invs.len() == 0 {
        Seq::empty()
    } else {
        let rest = names_with(invs.drop_last(), outs.drop_last(), want);
        if outs.last() == want {
            rest.push(invs.last().name)
        } else {
            rest
        }
    }
}

/// `outs` records, for each invariant of `invs`, an outcome its predicate can
/// give on `state`.
pub open spec fn outcomes_of<S, F: Fn(&S) -> bool>(
    state: &S,
    invs: Seq<Invariant<F>>,
    outs: Seq<bool>,
) -> bool {
    &&& outs.len() == invs.len()
    &&& forall|i: int| 0 <= i < invs.len() ==> call_ensures(invs[i].predicate, (state,), #[trigger] outs[i])
}

/// Check every invariant of `invs` against `state`, in order.
///
/// `passed` lists the names of those that held and `failed` those that did
/// not, both in the order of `invs`.
pub fn check_all<S, F: Fn(&S) -> bool>(state: &S, invs: &[Invariant<F>]) -> (r: CheckResult)
    requires
        forall|i: int| 0 <= i < invs@.len() ==> call_requires(#[trigger] invs@[i].predicate, (state,)),
    ensures
        exists|outs: Seq<bool>|
            {
                &&& outcomes_of(state, invs@, outs)
                &&& r.passed@ == names_with(invs@, outs, true)
                &&& r.failed@ == names_with(invs@, outs, false)
            },
{
    let mut result = CheckResult::default();
    let ghost mut outs: Seq<bool> = Seq::empty();
    let mut i: usize = 0;
    while i < invs.len()
        invariant
            0 <= i <= invs@.len(),
            forall|k: int| 0 <= k < invs@.len() ==> call_requires(#[trigger] invs@[k].predicate, (state,)),
            outcomes_of(state, invs@.subrange(0, i as int), outs),
            result.passed@ == names_with(invs@.subrange(0, i as int), outs, true),
            result.failed@ == names_with(invs@.subrange(0, i as int), outs, false),
        decreases invs@.len() - i,
    {
        let ok = invs[i].check(state);
        proof {
            let next = invs@.subrange(0, i + 1);
            assert(next.drop_last() =~= invs@.subrange(0, i as int));
            assert(outs.push(ok).drop_last() =~= outs);
            assert(next.last() == invs@[i as int]);
        }
        if ok {
            result.passed.push(invs[i].name);
        } else {
            result.failed.push(invs[i].name);
        }
        proof {
            outs = outs.push(ok);
        }
        i = i + 1;
    }
    proof {
        assert(invs@.subrange(0, invs@.len() as int) =~= invs@);
    }
    result
}

/// Return a clone of the first state of `states` that violates `inv`, or
/// `None` if every state satisfies it.
pub fn witness<S: Clone, F: Fn(&S) -> bool>(states: &[S], inv: &Invariant<F>) -> (r: Option<S>)
    requires
        forall|i: int| 0 <= i < states@.len() ==> call_requires(inv.predicate, (&#[trigger] states@[i],)),
    ensures
        r is None ==> forall|j: int|
            0 <= j < states@.len() ==> call_ensures(inv.predicate, (&#[trigger] states@[j],), true),
        r matches Some(s) ==> exists|i: int|
            {
                &&& 0 <= i < states@.len()
                &&& forall|j: int|
                    0 <= j < i ==> call_ensures(inv.predicate, (&#[trigger] states@[j],), true)
                &&& call_ensures(inv.predicate, (&states@[i],), false)
                &&& cloned(states@[i], s)
            },
{
    let mut i: usize = 0;
    while i < states.len()
        invariant
            0 <= i <= states@.len(),
            forall|k: int| 0 <= k < states@.len() ==> call_requires(inv.predicate, (&#[trigger] states@[k],)),
            forall|j: int| 0 <= j < i ==> call_ensures(inv.predicate, (&#[trigger] states@[j],), true),
        decreases states@.len() - i,
    {
        let ok = inv.check(&states[i]);
        if !ok {
            let s = states[i].clone();
            return Some(s);
        }
        i = i + 1;
    }
    None
}

} // verus!
