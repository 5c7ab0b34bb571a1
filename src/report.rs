use vstd::prelude::*;
use vstd::string::StringExecFns;

use crate::nix::{ran, utf8_text, ToolOutput};
use crate::run::{lemma_outcomes, lemma_log_text_not_empty, log_text, CheckCase, CheckRun, Outcome};

use junit_report::{Duration, OffsetDateTime, TestCase, TestResult, TestSuite};

verus! {

#[verifier::external_type_specification]
#[verifier::external_body]
pub struct ExDuration(Duration);

#[verifier::external_type_specification]
#[verifier::external_body]
pub struct ExOffsetDateTime(OffsetDateTime);

#[verifier::external_type_specification]
pub struct ExTestResult(TestResult);

#[verifier::external_type_specification]
pub struct ExTestCase(TestCase);

#[verifier::external_type_specification]
pub struct ExTestSuite(TestSuite);

/// Relies on junit_report's TestSuite::new, which names the suite, gives
/// it the package `testsuite/<name>`, the host `localhost`, the time it was
/// made, and no test cases or output.
pub assume_specification[ TestSuite::new ](name: &str) -> (r: TestSuite)
    ensures
        r.name@ == name@,
        r.package@ == "testsuite/"@ + name@,
        r.hostname@ == "localhost"@,
        r.testcases@.len() == 0,
        r.system_out is None,
        r.system_err is None,
;

/// Relies on junit_report's TestSuite::add_testcase, which appends the case
/// to the suite's cases.
pub assume_specification[ TestSuite::add_testcase ](suite: &mut TestSuite, testcase: TestCase)
    ensures
        final(suite).testcases@ == old(suite).testcases@.push(testcase),
        final(suite).name == old(suite).name,
        final(suite).package == old(suite).package,
        final(suite).hostname == old(suite).hostname,
        final(suite).timestamp == old(suite).timestamp,
        final(suite).system_out == old(suite).system_out,
        final(suite).system_err == old(suite).system_err,
;

/// The duration that `Duration::milliseconds` makes of `ms`.
pub uninterp spec fn duration_of_millis(ms: i64) -> Duration;

/// Relies on time's Duration::milliseconds (re-exported by junit_report):
/// the duration of `ms` milliseconds.
pub assume_specification[ Duration::milliseconds ](ms: i64) -> (r: Duration)
    ensures
        r == duration_of_millis(ms),
;

/// Relies on junit_report's TestCase::success: a passed case with this name
/// and time, and nothing else set.
pub assume_specification[ TestCase::success ](name: &str, time: Duration) -> (r: TestCase)
    ensures
        r.name@ == name@,
        r.time == time,
        r.result is Success,
        r.classname is None,
        r.filepath is None,
        r.system_out is None,
        r.system_err is None,
;

/// The type, message and cause of a failed result.
pub open spec fn failure_of(r: TestResult) -> Option<(Seq<char>, Seq<char>, Option<String>)> {
    match r {
        TestResult::Failure { type_, message, cause } => Some((type_@, message@, cause)),
        _ => None,
    }
}

/// Relies on junit_report's TestCase::failure: a failed case with this
/// name, time, failure type and message, and nothing else set.
pub assume_specification[ TestCase::failure ](name: &str, time: Duration, type_: &str, message: &str) -> (r: TestCase)
    ensures
        r.name@ == name@,
        r.time == time,
        failure_of(r.result) == Some((type_@, message@, None::<String>)),
        r.classname is None,
        r.filepath is None,
        r.system_out is None,
        r.system_err is None,
;

/// Relies on junit_report's TestCase::set_system_out, which sets the case's
/// standard output and nothing else.
pub assume_specification[ TestCase::set_system_out ](case: &mut TestCase, system_out: &str)
    ensures
        final(case).system_out is Some,
        final(case).system_out->0@ == system_out@,
        final(case).name == old(case).name,
        final(case).time == old(case).time,
        final(case).result == old(case).result,
        final(case).classname == old(case).classname,
        final(case).filepath == old(case).filepath,
        final(case).system_err == old(case).system_err,
;

/// The test case that stands for check outcome `c`: named after the check,
/// timed by its real build; a failure has type `nix check`, message
/// `build failed`, and the check's log as its standard output.
pub open spec fn case_of(c: CheckCase, t: TestCase) -> bool {
    &&& t.name@ == c.name@
    &&& t.time == duration_of_millis(c.millis as i64)
    &&& t.classname is None
    &&& t.filepath is None
    &&& t.system_err is None
    &&& match c.outcome {
        Outcome::Success => t.result is Success && t.system_out is None,
        Outcome::Failure { log } => {
            &&& failure_of(t.result) == Some(("nix check"@, "build failed"@, None::<String>))
            &&& t.system_out matches Some(o) && o@ == log@
        },
    }
}

/// The test case for one check outcome.
pub fn test_case(c: &CheckCase) -> (r: TestCase)
    requires
        c.millis <= i64::MAX,
    ensures
        case_of(*c, r),
{
    let time = Duration::milliseconds(c.millis as i64);
    match &c.outcome {
        Outcome::Success => TestCase::success(c.name.as_str(), time),
        Outcome::Failure { log } => {
            let mut tc = TestCase::failure(c.name.as_str(), time, "nix check", "build failed");
            tc.set_system_out(log.as_str());
            tc
        },
    }
}

/// The name of the suite that holds the checks.
pub open spec fn suite_name() -> Seq<char> {
    "nix flake checks"@
}

/// `s` is the suite that `synthesize` makes of `cases`.
pub open spec fn suite_made_of(s: TestSuite, cases: Seq<CheckCase>) -> bool {
    &&& s.name@ == suite_name()
    &&& s.package@ == "testsuite/"@ + suite_name()
    &&& s.hostname@ == "localhost"@
    &&& s.system_out is None
    &&& s.system_err is None
    &&& s.testcases@.len() == cases.len()
    &&& forall|i: int| 0 <= i < cases.len() ==> case_of(#[trigger] cases[i], s.testcases@[i])
}

/// One test suite named `nix flake checks` with a case for each outcome,
/// in their order.
pub fn synthesize(cases: &Vec<CheckCase>) -> (r: TestSuite)
    requires
        forall|i: int| 0 <= i < cases@.len() ==> #[trigger] cases@[i].millis <= i64::MAX,
    ensures
        suite_made_of(r, cases@),
{
    let mut suite = TestSuite::new("nix flake checks");
    let mut i: usize = 0;
    while i < cases.len()
        invariant
            0 <= i <= cases.len(),
            suite.name@ == suite_name(),
            suite.package@ == "testsuite/"@ + suite_name(),
            suite.hostname@ == "localhost"@,
            suite.system_out is None,
            suite.system_err is None,
            suite.testcases@.len() == i,
            forall|j: int| 0 <= j < i ==> case_of(#[trigger] cases@[j], suite.testcases@[j]),
            forall|j: int| 0 <= j < cases@.len() ==> #[trigger] cases@[j].millis <= i64::MAX,
        decreases cases.len() - i,
    {
        let tc = test_case(&cases[i]);
        suite.add_testcase(tc);
        i = i + 1;
    }
    suite
}

/// The sum of a sequence of millisecond counts.
pub open spec fn total_millis(ms: Seq<int>) -> int
    decreases ms.len(),
{
    if ms.len() == 0 {
        0
    } else {
        total_millis(ms.drop_last()) + ms.last()
    }
}

/// The times of the outcomes, in milliseconds.
pub open spec fn case_millis(cases: Seq<CheckCase>) -> Seq<int> {
    cases.map_values(|c: CheckCase| c.millis as int)
}

/// The cases of `suite` take whole, non-negative numbers of milliseconds
/// whose sum fits in an `i64`, so that the suite's total time can be added
/// up.
pub open spec fn times_fit(suite: TestSuite) -> bool {
    exists|ms: Seq<int>|
        #![trigger total_millis(ms)]
        ms.len() == suite.testcases@.len() && total_millis(ms) <= i64::MAX && forall|i: int|
            0 <= i < ms.len() ==> 0 <= #[trigger] ms[i] <= i64::MAX && suite.testcases@[i].time
                == duration_of_millis(ms[i] as i64)
}

/// Each count of a sequence of non-negative counts is at most their sum.
pub proof fn lemma_part_below_total(ms: Seq<int>)
    requires
        forall|i: int| 0 <= i < ms.len() ==> 0 <= #[trigger] ms[i],
    ensures
        total_millis(ms) >= 0,
        forall|i: int| 0 <= i < ms.len() ==> #[trigger] ms[i] <= total_millis(ms),
    decreases ms.len(),
{
    if ms.len() > 0 {
        let init = ms.drop_last();
        assert forall|i: int| 0 <= i < init.len() implies 0 <= #[trigger] init[i] by {
            assert(init[i] == ms[i]);
        }
        lemma_part_below_total(init);
        assert forall|i: int| 0 <= i < ms.len() implies #[trigger] ms[i] <= total_millis(ms) by {
            if i < init.len() {
                assert(init[i] == ms[i]);
            }
        }
    }
}

/// Whether the times of `cases` add up to at most `i64::MAX` milliseconds,
/// as `render_report` asks.
pub fn millis_fit(cases: &Vec<CheckCase>) -> (r: bool)
    ensures
        r == (total_millis(case_millis(cases@)) <= i64::MAX),
{
    let ghost ms = case_millis(cases@);
    let mut sum: u64 = 0;
    let mut i: usize = 0;
    while i < cases.len()
        invariant
            0 <= i <= cases.len(),
            ms == case_millis(cases@),
            sum as int == total_millis(ms.take(i as int)),
            sum <= i64::MAX,
        decreases cases.len() - i,
    {
        assert(ms.take(i + 1).drop_last() =~= ms.take(i as int));
        if cases[i].millis > i64::MAX as u64 - sum {
            proof {
                let rest = ms.skip(i + 1);
                assert forall|j: int| 0 <= j < rest.len() implies 0 <= #[trigger] rest[j] by {
                    assert(rest[j] == ms[i + 1 + j]);
                }
                lemma_total_split(ms, i + 1);
                lemma_part_below_total(rest);
            }
            return false;
        }
        sum = sum + cases[i].millis;
        i = i + 1;
    }
    assert(ms.take(cases.len() as int) =~= ms);
    true
}

/// The sum over a sequence is the sum over its first `k` counts plus that
/// over the rest.
pub proof fn lemma_total_split(ms: Seq<int>, k: int)
    requires
        0 <= k <= ms.len(),
    ensures
        total_millis(ms) == total_millis(ms.take(k)) + total_millis(ms.skip(k)),
    decreases ms.len(),
{
    if k < ms.len() {
        lemma_total_split(ms.drop_last(), k);
        assert(ms.drop_last().take(k) =~= ms.take(k));
        assert(ms.skip(k).drop_last() =~= ms.drop_last().skip(k));
    } else {
        assert(ms.take(k) =~= ms);
        assert(ms.skip(k).len() == 0);
    }
}

/// The bytes of the JUnit document that holds `suite` alone.
pub uninterp spec fn junit_xml(suite: TestSuite) -> Seq<u8>;

/// Relies on junit_report's Report::write_xml: the XML document of a report
/// whose only suite is `suite`, written into a byte buffer. Writing fails
/// only where the sink fails, which a `Vec<u8>` does not; the suite's time
/// is the sum of its cases' times, which `times_fit` keeps from overflowing.
#[verifier::external_body]
pub(crate) fn report_xml(suite: TestSuite) -> (r: Vec<u8>)
    requires
        times_fit(suite),
    ensures
        r@ == junit_xml(suite),
{
    let mut report = junit_report::Report::new();
    report.add_testsuite(suite);
    let mut out: Vec<u8> = Vec::new();
    let _ = report.write_xml(&mut out);
    out
}

/// The JUnit document for the outcomes of a run, as bytes: that of the
/// suite that `synthesize` makes of them.
pub fn render_report(cases: &Vec<CheckCase>) -> (r: Vec<u8>)
    requires
        total_millis(case_millis(cases@)) <= i64::MAX,
    ensures
        exists|s: TestSuite|
            #![trigger junit_xml(s)]
            r@ == junit_xml(s) && suite_made_of(s, cases@),
{
    let ghost ms = case_millis(cases@);
    proof {
        assert forall|i: int| 0 <= i < ms.len() implies 0 <= #[trigger] ms[i] by {}
        lemma_part_below_total(ms);
        assert forall|i: int| 0 <= i < cases@.len() implies #[trigger] cases@[i].millis <= i64::MAX by {
            assert(ms[i] == cases@[i].millis);
        }
    }
    let suite = synthesize(cases);
    proof {
        assert forall|i: int| 0 <= i < ms.len() implies 0 <= #[trigger] ms[i] <= i64::MAX && suite.testcases@[i].time
            == duration_of_millis(ms[i] as i64) by {
            assert(case_of(cases@[i], suite.testcases@[i]));
        }
        assert(total_millis(ms) <= i64::MAX);
    }
    report_xml(suite)
}

/// Where every real build of a finished run succeeded, the suite made from
/// its outcomes holds one passed case per target, named after the target,
/// in the order of the targets.
pub proof fn lemma_all_passed(run: &CheckRun, cases: Seq<CheckCase>, suite: TestSuite)
    requires
        run.wf(),
        run.is_finished(),
        forall|i: int| 0 <= i < run.built().len() ==> #[trigger] run.built()[i],
        cases == run.cases(),
        suite.testcases@.len() == cases.len(),
        forall|i: int| 0 <= i < cases.len() ==> case_of(#[trigger] cases[i], suite.testcases@[i]),
    ensures
        suite.testcases@.len() == run.targets().len(),
        forall|i: int|
            0 <= i < run.targets().len() ==> (#[trigger] suite.testcases@[i]).result is Success
                && suite.testcases@[i].name@ == run.targets()[i].name@,
{
    lemma_outcomes(run);
    assert forall|i: int| 0 <= i < run.targets().len() implies (#[trigger] suite.testcases@[i]).result
        is Success && suite.testcases@[i].name@ == run.targets()[i].name@ by {
        assert(run.built()[i]);
        assert(case_of(cases[i], suite.testcases@[i]));
    }
}

/// A check whose build failed and whose log was fetched reports that log,
/// as it was fetched, as its case's standard output.
pub proof fn lemma_fetched_log_reported(
    args: Seq<Seq<char>>,
    out: Result<ToolOutput, String>,
    c: CheckCase,
    t: TestCase,
)
    requires
        ran(out),
        utf8_text(out->Ok_0.stdout@) is Some,
        c.outcome matches Outcome::Failure { log } && log_text(args, out, log@),
        case_of(c, t),
    ensures
        t.system_out matches Some(o) && o@ == utf8_text(out->Ok_0.stdout@)->0,
{
}

/// A check whose build failed and whose log could not be fetched still
/// reports a non-empty standard output.
pub proof fn lemma_missing_log_reported(
    args: Seq<Seq<char>>,
    out: Result<ToolOutput, String>,
    c: CheckCase,
    t: TestCase,
)
    requires
        !(ran(out) && utf8_text(out->Ok_0.stdout@) is Some),
        c.outcome matches Outcome::Failure { log } && log_text(args, out, log@),
        case_of(c, t),
    ensures
        t.system_out matches Some(o) && o@.len() > 0,
{
    let log = c.outcome->log;
    lemma_log_text_not_empty(args, out, log@);
}

} // verus!
