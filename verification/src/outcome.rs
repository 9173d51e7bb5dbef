//! Per-unit outcomes and their aggregation into a batch result.
//!
//! Every dispatched conversion unit resolves to exactly one [`Outcome`]:
//! success, or a failure that names the input path and the cause.  The
//! aggregator folds the collected outcomes into one immutable
//! [`BatchResult`] without failing fast: it never aborts, and every failure
//! appears exactly once, in collection order.

use vstd::prelude::*;

verus! {

/// One failed conversion: the input path it belongs to and the cause.
#[derive(Debug)]
pub struct FailureRecord {
    pub path: String,
    pub message: String,
}

/// How one dispatched conversion unit ended.
#[derive(Debug)]
pub enum Outcome {
    Success,
    Failed(FailureRecord),
}

/// The run-level summary: how many units were dispatched, and the failures.
#[derive(Debug)]
pub struct BatchResult {
    pub dispatched: usize,
    pub failures: Vec<FailureRecord>,
}

/// The (path, message) view pairs of a sequence of failure records.
pub open spec fn failure_views(s: Seq<FailureRecord>) -> Seq<(Seq<char>, Seq<char>)> {
    s.map_values(|f: FailureRecord| (f.path@, f.message@))
}

/// The failures among a sequence of outcomes, in order.
pub open spec fn failures_of(s: Seq<Outcome>) -> Seq<(Seq<char>, Seq<char>)>
    decreases s.len(),
{
    if s.len() == 0 {
        Seq::empty()
    } else {
        let prefix = failures_of(s.drop_last());
        match s.last() {
            Outcome::Failed(f) => prefix.push((f.path@, f.message@)),
            Outcome::Success => prefix,
        }
    }
}

impl FailureRecord {
    /// A copy with the same path and message.
    pub fn duplicate(&self) -> (r: FailureRecord)
        ensures
            r.path@ == self.path@,
            r.message@ == self.message@,
    {
        FailureRecord { path: self.path.clone(), message: self.message.clone() }
    }
}

/// Fold the collected outcomes into the batch result: the dispatched count is
/// the number of outcomes, and the failures are exactly the failed outcomes,
/// each once, in collection order.  An empty collection yields the empty
/// result.  Aggregation itself never fails.
pub fn collect(outcomes: &Vec<Outcome>) -> (r: BatchResult)
    ensures
        r.dispatched == outcomes@.len(),
        failure_views(r.failures@) == failures_of(outcomes@),
{
    let mut failures: Vec<FailureRecord> = Vec::new();
    let mut i: usize = 0;
    while i < outcomes.len()
        invariant
            i <= outcomes@.len(),
            failure_views(failures@) == failures_of(outcomes@.take(i as int)),
        decreases outcomes@.len() - i,
    {
        let ghost prev = failures@;
        match &outcomes[i] {
            Outcome::Failed(f) => failures.push(f.duplicate()),
            Outcome::Success => (),
        }
        proof {
            assert(outcomes@.take(i + 1).drop_last() =~= outcomes@.take(i as int));
            assert(outcomes@.take(i + 1).last() == outcomes@[i as int]);
            if outcomes@[i as int] is Failed {
                let f = outcomes@[i as int]->Failed_0;
                assert(failure_views(failures@) =~= failure_views(prev).push(
                    (f.path@, f.message@),
                ));
            }
        }
        i = i + 1;
    }
    proof {
        assert(outcomes@.take(outcomes@.len() as int) =~= outcomes@);
    }
    BatchResult { dispatched: outcomes.len(), failures }
}

/// Failure isolation: when exactly one outcome in the collection failed, the
/// batch report holds exactly that one failure, with its path and cause, and
/// the other outcomes contribute no failure at all.
pub proof fn lemma_failure_isolation(s: Seq<Outcome>, i: int)
    requires
        0 <= i < s.len(),
        s[i] is Failed,
        forall|j: int| 0 <= j < s.len() && j != i ==> s[j] is Success,
    ensures
        failures_of(s).len() == 1,
        failures_of(s)[0] == (s[i]->Failed_0.path@, s[i]->Failed_0.message@),
    decreases s.len(),
{
    lemma_all_success_no_failures(s.take(i));
    assert(failures_of(s.take(i)) =~= Seq::<(Seq<char>, Seq<char>)>::empty());
    lemma_failures_after_prefix(s, i);
}

/// A collection with no failed outcome contributes no failure.
pub proof fn lemma_all_success_no_failures(s: Seq<Outcome>)
    requires
        forall|j: int| 0 <= j < s.len() ==> s[j] is Success,
    ensures
        failures_of(s).len() == 0,
    decreases s.len(),
{
    if s.len() > 0 {
        lemma_all_success_no_failures(s.drop_last());
    }
}

/// Helper: past index `i`, a single failure at `i` followed only by
/// successes leaves the failures at exactly that one record.
proof fn lemma_failures_after_prefix(s: Seq<Outcome>, i: int)
    requires
        0 <= i < s.len(),
        s[i] is Failed,
        forall|j: int| i < j < s.len() ==> s[j] is Success,
        failures_of(s.take(i)) == Seq::<(Seq<char>, Seq<char>)>::empty(),
    ensures
        failures_of(s) =~= seq![(s[i]->Failed_0.path@, s[i]->Failed_0.message@)],
    decreases s.len(),
{
    if i == s.len() - 1 {
        assert(s.drop_last() =~= s.take(i));
    } else {
        assert(s.drop_last().take(i) =~= s.take(i));
        assert(s.drop_last()[i] == s[i]);
        lemma_failures_after_prefix(s.drop_last(), i);
    }
}

} // verus!
