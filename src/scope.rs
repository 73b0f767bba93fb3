use vstd::prelude::*;

use crate::error::RepoError;

verus! {

/// Where a unit of work stands.
#[derive(Clone, Copy, Debug, PartialEq, Eq, Structural)]
pub enum ScopeState {
    Open,
    Committed,
    RolledBack,
}

/// How a unit of work ends.
#[derive(Clone, Copy, Debug, PartialEq, Eq, Structural)]
pub enum Finish {
    Commit,
    Rollback,
}

/// The bookkeeping of one transaction: whether it is still open and whether
/// any step run inside it failed.
#[derive(Clone, Copy, Debug, PartialEq, Eq, Structural)]
pub struct Scope {
    pub state: ScopeState,
    pub failed: bool,
    pub steps: u64,
}

/// Whether a run of steps, each ok or not, leaves the scope failed.
pub open spec fn failed_after(failed: bool, oks: Seq<bool>) -> bool
    decreases oks.len(),
{
    if oks.len() == 0 {
        failed
    } else {
        failed_after(failed || !oks[0], oks.drop_first())
    }
}

pub open spec fn finish_spec(failed: bool, commit_wanted: bool) -> Finish {
    if commit_wanted && !failed {
        Finish::Commit
    } else {
        Finish::Rollback
    }
}

impl Scope {
    /// A fresh, open scope with no steps.
    pub fn begin() -> (r: Scope)
        ensures
            r.state == ScopeState::Open,
            !r.failed,
            r.steps == 0,
    {
        Scope { state: ScopeState::Open, failed: false, steps: 0 }
    }

    /// Notes the outcome of one step run inside the scope.
    pub fn record<T>(&mut self, outcome: &Result<T, RepoError>)
        requires
            old(self).state == ScopeState::Open,
        ensures
            final(self).state == ScopeState::Open,
            final(self).failed == (old(self).failed || outcome is Err),
            final(self).failed == failed_after(old(self).failed, seq![outcome is Ok]),
            final(self).steps == if old(self).steps < u64::MAX { (old(self).steps + 1) as u64 } else { old(self).steps },
    {
        proof {
            let one = seq![outcome is Ok];
            assert(one[0] == (outcome is Ok));
            assert(one.drop_first() =~= Seq::<bool>::empty());
            assert(failed_after(self.failed, one) == failed_after(self.failed || !one[0], one.drop_first()));
        }
        if outcome.is_err() {
            self.failed = true;
        }
        if self.steps < u64::MAX {
            self.steps = self.steps + 1;
        }
    }

    /// Ends the scope: it commits only where the caller asks for it and no
    /// step failed; otherwise everything done inside it is rolled back.
    pub fn finish(&mut self, commit_wanted: bool) -> (r: Finish)
        requires
            old(self).state == ScopeState::Open,
        ensures
            r == finish_spec(old(self).failed, commit_wanted),
            final(self).failed == old(self).failed,
            final(self).steps == old(self).steps,
            r == Finish::Commit ==> final(self).state == ScopeState::Committed,
            r == Finish::Rollback ==> final(self).state == ScopeState::RolledBack,
    {
        if commit_wanted && !self.failed {
            self.state = ScopeState::Committed;
            Finish::Commit
        } else {
            self.state = ScopeState::RolledBack;
            Finish::Rollback
        }
    }
}

proof fn lemma_failed_sticks(failed: bool, oks: Seq<bool>)
    requires
        failed,
    ensures
        failed_after(failed, oks),
    decreases oks.len(),
{
    if oks.len() > 0 {
        lemma_failed_sticks(failed || !oks[0], oks.drop_first());
    }
}

proof fn lemma_one_failure_fails(failed: bool, oks: Seq<bool>, i: int)
    requires
        0 <= i < oks.len(),
        !oks[i],
    ensures
        failed_after(failed, oks),
    decreases oks.len(),
{
    if i == 0 {
        lemma_failed_sticks(failed || !oks[0], oks.drop_first());
    } else {
        lemma_one_failure_fails(failed || !oks[0], oks.drop_first(), i - 1);
    }
}

/// A unit of work in which any step failed, or which the caller abandons,
/// is rolled back as a whole: nothing of it is committed.
pub proof fn lemma_atomic_workflow(oks: Seq<bool>, commit_wanted: bool)
    requires
        !commit_wanted || exists|i: int| 0 <= i < oks.len() && !oks[i],
    ensures
        finish_spec(failed_after(false, oks), commit_wanted) == Finish::Rollback,
{
    if commit_wanted {
        let i = choose|i: int| 0 <= i < oks.len() && !oks[i];
        lemma_one_failure_fails(false, oks, i);
    }
}

} // verus!
