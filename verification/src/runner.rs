//! The decision kernel of the runner adapter: which registered tests run,
//! which are ignored or filtered out, and whether an observed outcome
//! counts as a pass.  Executing bodies, catching panics, and reporting are
//! the surrounding program's work; every decision is taken here.

use vstd::prelude::*;

use crate::directive::Ignore;
use crate::directive::ShouldPanic;
use crate::registry::DynTest;
use crate::strutil::contains_seq;
use crate::strutil::contains_substr;

verus! {

/// What a test body was observed to do when it ran.
pub enum Outcome {
    /// The body returned, reporting success (`true`) or failure (`false`).
    Completed(bool),
    /// The body panicked, with its message where it had one.
    Panicked(Option<String>),
}

/// What becomes of a registered test on one run of the harness.
#[derive(Debug, Clone, Copy, PartialEq, Eq, Structural)]
pub enum Disposition {
    /// The test's body is executed.
    Run,
    /// The test is reported as ignored and its body is not executed.
    Ignored,
    /// The test is reported as filtered out and its body is not executed.
    FilteredOut,
}

/// The view of an optional filter argument.
pub open spec fn opt_view(o: Option<&str>) -> Option<Seq<char>> {
    match o {
        Some(s) => Some(s@),
        None => None,
    }
}

/// The disposition of a test named `name` whose ignore directive is set
/// iff `ignored`: a test whose name does not contain the filter substring
/// is filtered out; an ignored one is skipped unless ignored tests are
/// included; every other test runs.
pub open spec fn spec_disposition(
    name: Seq<char>,
    ignored: bool,
    filter: Option<Seq<char>>,
    include_ignored: bool,
) -> Disposition {
    let matches_filter = match filter {
        Some(f) => contains_seq(name, f),
        None => true,
    };
    if !matches_filter {
        Disposition::FilteredOut
    } else if ignored && !include_ignored {
        Disposition::Ignored
    } else {
        Disposition::Run
    }
}

/// The disposition of the test `t`.
pub open spec fn spec_disposition_of<B>(
    t: DynTest<B>,
    filter: Option<Seq<char>>,
    include_ignored: bool,
) -> Disposition {
    spec_disposition(t.name@, t.ignore is Ignore, filter, include_ignored)
}

/// Decides what becomes of a test named `name` carrying the directive
/// `ignore`, under the given filter and `include_ignored` flag.
pub fn plan_test(name: &str, ignore: &Ignore, filter: Option<&str>, include_ignored: bool) -> (r:
    Disposition)
    ensures
        r == spec_disposition(name@, *ignore is Ignore, opt_view(filter), include_ignored),
{
    let matches_filter = match filter {
        Some(f) => contains_substr(name, f),
        None => true,
    };
    if !matches_filter {
        Disposition::FilteredOut
    } else if ignore.ignore() && !include_ignored {
        Disposition::Ignored
    } else {
        Disposition::Run
    }
}

/// Whether the observed outcome satisfies the expected-panic directive: with
/// no expectation the body must report success; with a bare expectation it
/// must panic; with a message expectation it must panic with a message that
/// contains the expected substring.
pub open spec fn spec_verdict(sp: ShouldPanic, outcome: Outcome) -> bool {
    match sp {
        ShouldPanic::No => outcome == Outcome::Completed(true),
        ShouldPanic::Yes => outcome is Panicked,
        ShouldPanic::YesWithMessage(m) => match outcome {
            Outcome::Panicked(Some(msg)) => contains_seq(msg@, m@),
            _ => false,
        },
    }
}

/// Decides whether the outcome `outcome` counts as a pass for a test whose
/// expected-panic directive is `sp`.
pub fn conclude(sp: &ShouldPanic, outcome: &Outcome) -> (r: bool)
    ensures
        r == spec_verdict(*sp, *outcome),
{
    match sp {
        ShouldPanic::No => match outcome {
            Outcome::Completed(ok) => *ok,
            Outcome::Panicked(_) => false,
        },
        ShouldPanic::Yes => match outcome {
            Outcome::Panicked(_) => true,
            Outcome::Completed(_) => false,
        },
        ShouldPanic::YesWithMessage(m) => match outcome {
            Outcome::Panicked(Some(msg)) => contains_substr(msg.as_str(), m),
            _ => false,
        },
    }
}

/// Run totals, in the harness's reporting order.
#[derive(Debug, Clone, Copy, PartialEq, Eq, Structural)]
pub struct TestStats {
    pub passed: usize,
    pub failed: usize,
    pub ignored: usize,
    pub measured: usize,
    pub filtered_out: usize,
}

/// The totals of one run over `tests`, where `outcomes[i]` is what the body
/// of `tests[i]` does when executed: `(passed, failed, ignored,
/// filtered_out)`.  An outcome is consulted only where the disposition is
/// to run; nothing is measured.
pub open spec fn spec_tally<B>(
    tests: Seq<DynTest<B>>,
    outcomes: Seq<Outcome>,
    filter: Option<Seq<char>>,
    include_ignored: bool,
) -> (int, int, int, int)
    decreases tests.len(),
{
    if tests.len() == 0 {
        (0, 0, 0, 0)
    } else {
        let prior = spec_tally(tests.drop_last(), outcomes.drop_last(), filter, include_ignored);
        let t = tests.last();
        match spec_disposition_of(t, filter, include_ignored) {
            Disposition::FilteredOut => (prior.0, prior.1, prior.2, prior.3 + 1),
            Disposition::Ignored => (prior.0, prior.1, prior.2 + 1, prior.3),
            Disposition::Run => if spec_verdict(t.should_panic, outcomes.last()) {
                (prior.0 + 1, prior.1, prior.2, prior.3)
            } else {
                (prior.0, prior.1 + 1, prior.2, prior.3)
            },
        }
    }
}

/// Law: the totals of a run partition the test list — every count is
/// non-negative and the four of them sum to the number of tests.
pub proof fn lemma_tally_partitions<B>(
    tests: Seq<DynTest<B>>,
    outcomes: Seq<Outcome>,
    filter: Option<Seq<char>>,
    include_ignored: bool,
)
    ensures
        ({
            let totals = spec_tally(tests, outcomes, filter, include_ignored);
            &&& totals.0 >= 0
            &&& totals.1 >= 0
            &&& totals.2 >= 0
            &&& totals.3 >= 0
            &&& totals.0 + totals.1 + totals.2 + totals.3 == tests.len()
        }),
    decreases tests.len(),
{
    if tests.len() > 0 {
        lemma_tally_partitions(tests.drop_last(), outcomes.drop_last(), filter, include_ignored);
    }
}

/// Computes the totals of one run over the finished test list, given for
/// each test the outcome its body produces when executed.
pub fn tally<B>(
    tests: &Vec<DynTest<B>>,
    outcomes: &Vec<Outcome>,
    filter: Option<&str>,
    include_ignored: bool,
) -> (r: TestStats)
    requires
        tests@.len() == outcomes@.len(),
    ensures
        ({
            let totals = spec_tally(tests@, outcomes@, opt_view(filter), include_ignored);
            &&& r.passed == totals.0
            &&& r.failed == totals.1
            &&& r.ignored == totals.2
            &&& r.measured == 0
            &&& r.filtered_out == totals.3
        }),
{
    let n = tests.len();
    let mut passed: usize = 0;
    let mut failed: usize = 0;
    let mut ignored: usize = 0;
    let mut filtered_out: usize = 0;
    let mut i: usize = 0;
    proof {
        assert(tests@.take(0) =~= Seq::<DynTest<B>>::empty());
        assert(outcomes@.take(0) =~= Seq::<Outcome>::empty());
    }
    while i < n
        invariant
            i <= n,
            n == tests@.len(),
            n == outcomes@.len(),
            passed + failed + ignored + filtered_out == i,
            ({
                let totals = spec_tally(
                    tests@.take(i as int),
                    outcomes@.take(i as int),
                    opt_view(filter),
                    include_ignored,
                );
                &&& passed == totals.0
                &&& failed == totals.1
                &&& ignored == totals.2
                &&& filtered_out == totals.3
            }),
        decreases n - i,
    {
        let t = &tests[i];
        proof {
            assert(tests@.take(i as int + 1).drop_last() =~= tests@.take(i as int));
            assert(outcomes@.take(i as int + 1).drop_last() =~= outcomes@.take(i as int));
            assert(tests@.take(i as int + 1).last() == tests@[i as int]);
            assert(outcomes@.take(i as int + 1).last() == outcomes@[i as int]);
        }
        let disposition = plan_test(t.name.as_str(), &t.ignore, filter, include_ignored);
        match disposition {
            Disposition::FilteredOut => {
                filtered_out = filtered_out + 1;
            },
            Disposition::Ignored => {
                ignored = ignored + 1;
            },
            Disposition::Run => {
                if conclude(&t.should_panic, &outcomes[i]) {
                    passed = passed + 1;
                } else {
                    failed = failed + 1;
                }
            },
        }
        i = i + 1;
    }
    proof {
        assert(tests@.take(n as int) =~= tests@);
        assert(outcomes@.take(n as int) =~= outcomes@);
    }
    TestStats { passed, failed, ignored, measured: 0, filtered_out }
}

} // verus!
