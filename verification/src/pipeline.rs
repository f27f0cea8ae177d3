//! The order of a run: which checks run, in turn, and what their results add up to.
use vstd::prelude::*;

use crate::config::QcOptions;
use crate::error::QcError;
use crate::history::ERRORS_LOG_PATH;
use crate::run_outcome;
use crate::runner::{planned_checks, planned_checks_spec, CheckKind, CheckResults};

verus! {

/// How many of `outcomes` are failures.
pub open spec fn count_failures(outcomes: Seq<bool>) -> nat
    decreases outcomes.len(),
{
    if outcomes.len() == 0 {
        0
    } else {
        count_failures(outcomes.drop_last()) + if outcomes.last() {
            0nat
        } else {
            1nat
        }
    }
}

/// Check `k` has run (it is among the first `outcomes.len()` of `plan`) and failed.
pub open spec fn ran_and_failed(plan: Seq<CheckKind>, outcomes: Seq<bool>, k: CheckKind) -> bool {
    exists|i: int| 0 <= i < outcomes.len() && i < plan.len() && plan[i] == k && !outcomes[i]
}

/// No check appears twice in `plan`.
pub open spec fn no_repeats(plan: Seq<CheckKind>) -> bool {
    forall|i: int, j: int| 0 <= i < j < plan.len() ==> plan[i] != plan[j]
}

/// A run in progress: the planned checks, the results of those that ran, and the tally.
pub struct Pipeline {
    plan: Vec<CheckKind>,
    outcomes: Vec<bool>,
    results: CheckResults,
}

impl Pipeline {
    /// The checks planned, in order.
    pub closed spec fn plan_view(&self) -> Seq<CheckKind> {
        self.plan@
    }

    /// Whether each check that ran passed, in the order they ran.
    pub closed spec fn outcomes_view(&self) -> Seq<bool> {
        self.outcomes@
    }

    /// The tally so far.
    pub closed spec fn results_view(&self) -> CheckResults {
        self.results
    }

    #[verifier::type_invariant]
    spec fn well_formed(&self) -> bool {
        &&& self.outcomes@.len() <= self.plan@.len()
        &&& no_repeats(self.plan@)
        &&& forall|k: CheckKind| #[trigger]
            self.results.passed_spec(k) == !ran_and_failed(self.plan@, self.outcomes@, k)
        &&& self.results.failed_count_spec() == count_failures(self.outcomes@)
    }

    /// Starts a run of the checks that `opts` leaves enabled; none has run yet.
    pub fn new(opts: &QcOptions) -> (r: Pipeline)
        ensures
            r.plan_view() == planned_checks_spec(opts@),
            r.outcomes_view().len() == 0,
    {
        let plan = planned_checks(opts);
        let ghost p = plan@;
        assert(no_repeats(p)) by {
            assert forall|i: int, j: int| 0 <= i < j < p.len() implies p[i] != p[j] by {
                let a = if opts.skip_fmt { seq![] } else { seq![CheckKind::Fmt] };
                let b = if opts.skip_clippy { seq![] } else { seq![CheckKind::Clippy] };
                let c = if opts.skip_build { seq![] } else { seq![CheckKind::Build] };
                let d = if opts.skip_test { seq![] } else { seq![CheckKind::Test] };
                assert(p == a + b + c + d);
            }
        }
        let outcomes: Vec<bool> = Vec::new();
        Pipeline { plan, outcomes, results: CheckResults::new() }
    }

    /// The next check to run, if any is left.
    pub fn next_check(&self) -> (r: Option<CheckKind>)
        ensures
            self.outcomes_view().len() < self.plan_view().len() ==> r == Some(
                self.plan_view()[self.outcomes_view().len() as int],
            ),
            self.outcomes_view().len() >= self.plan_view().len() ==> r is None,
    {
        proof {
            use_type_invariant(self);
        }
        if self.outcomes.len() < self.plan.len() {
            Some(self.plan[self.outcomes.len()])
        } else {
            None
        }
    }

    /// Records the result of the check that `next_check` named.
    pub fn record(&mut self, passed: bool)
        requires
            old(self).outcomes_view().len() < old(self).plan_view().len(),
        ensures
            final(self).plan_view() == old(self).plan_view(),
            final(self).outcomes_view() == old(self).outcomes_view().push(passed),
    {
        proof {
            use_type_invariant(&*self);
        }
        let n = self.outcomes.len();
        let kind = self.plan[n];
        let ghost plan = self.plan@;
        let ghost old_outcomes = self.outcomes@;
        let ghost old_results = self.results;
        assert(!ran_and_failed(plan, old_outcomes, kind)) by {
            if ran_and_failed(plan, old_outcomes, kind) {
                let i = choose|i: int|
                    0 <= i < old_outcomes.len() && i < plan.len() && plan[i] == kind && !old_outcomes[i];
                assert(plan[i] != plan[n as int]);
            }
        }
        assert(old_results.passed_spec(kind));
        let mut results = self.results;
        results.record(kind, passed);
        let mut outcomes = self.outcomes.clone();
        outcomes.push(passed);
        let ghost new_outcomes = outcomes@;
        assert(new_outcomes.drop_last() == old_outcomes);
        assert forall|k: CheckKind| #[trigger]
            results.passed_spec(k) == !ran_and_failed(plan, new_outcomes, k) by {
            if k == kind {
                if !passed {
                    assert(plan[n as int] == k && !new_outcomes[n as int]);
                } else {
                    if ran_and_failed(plan, new_outcomes, k) {
                        let i = choose|i: int|
                            0 <= i < new_outcomes.len() && i < plan.len() && plan[i] == k && !new_outcomes[i];
                        if i < n {
                            assert(old_outcomes[i] == new_outcomes[i]);
                            assert(plan[i] != plan[n as int]);
                        }
                    }
                }
            } else {
                assert(results.passed_spec(k) == old_results.passed_spec(k));
                if ran_and_failed(plan, new_outcomes, k) {
                    let i = choose|i: int|
                        0 <= i < new_outcomes.len() && i < plan.len() && plan[i] == k && !new_outcomes[i];
                    assert(i < n);
                    assert(old_outcomes[i] == new_outcomes[i]);
                }
                if ran_and_failed(plan, old_outcomes, k) {
                    let i = choose|i: int|
                        0 <= i < old_outcomes.len() && i < plan.len() && plan[i] == k && !old_outcomes[i];
                    assert(new_outcomes[i] == old_outcomes[i]);
                }
            }
        }
        assert(results.failed_count_spec() == old_results.failed_count_spec() + if passed {
            0nat
        } else {
            1nat
        });
        *self = Pipeline { plan: self.plan.clone(), outcomes, results };
    }

    /// The tally: a check that has not run (skipped, or not yet reached)
    /// counts as passed; the failures are those of the checks that ran.
    pub fn results(&self) -> (r: CheckResults)
        ensures
            r == self.results_view(),
            forall|k: CheckKind| #[trigger]
                r.passed_spec(k) == !ran_and_failed(self.plan_view(), self.outcomes_view(), k),
            r.failed_count_spec() == count_failures(self.outcomes_view()),
    {
        proof {
            use_type_invariant(self);
        }
        self.results
    }

    /// How the run ends once every planned check has run: success exactly
    /// when none of them failed, else the count of failures.
    pub fn outcome(&self) -> (r: Result<(), QcError>)
        ensures
            r is Ok <==> count_failures(self.outcomes_view()) == 0,
            r matches Err(e) ==> (e matches QcError::ChecksFailed { failed_count, log_path }
                && failed_count == count_failures(self.outcomes_view()) && log_path@
                == ERRORS_LOG_PATH@),
    {
        let results = self.results();
        assert(results.all_passed_spec() <==> results.failed_count_spec() == 0);
        run_outcome(&results)
    }
}

} // verus!
